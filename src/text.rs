//! Building blocks for text: digits, repeated characters, string equality.
use vstd::prelude::*;

verus! {

/// The character of a binary digit.
pub open spec fn bit_char(b: nat) -> char {
    if b % 2 == 1 { '1' } else { '0' }
}

/// The `width` lowest bits of `v`, most significant first.
pub open spec fn binary_digits(v: nat, width: nat) -> Seq<char>
    decreases width,
{
    if width == 0 {
        Seq::empty()
    } else {
        binary_digits(v / 2, (width - 1) as nat).push(bit_char(v))
    }
}

/// The character of a decimal digit `d < 10`.
pub open spec fn decimal_char(d: nat) -> char {
    if d == 0 { '0' }
    else if d == 1 { '1' }
    else if d == 2 { '2' }
    else if d == 3 { '3' }
    else if d == 4 { '4' }
    else if d == 5 { '5' }
    else if d == 6 { '6' }
    else if d == 7 { '7' }
    else if d == 8 { '8' }
    else { '9' }
}

/// `n` written in decimal, without leading zeros.
pub open spec fn decimal_digits(n: nat) -> Seq<char>
    decreases n,
{
    if n < 10 {
        seq![decimal_char(n)]
    } else {
        decimal_digits(n / 10).push(decimal_char(n % 10))
    }
}

/// `c` repeated `n` times.
pub open spec fn repeat_char(c: char, n: nat) -> Seq<char> {
    Seq::new(n, |_i: int| c)
}

/// The one-character string of the decimal digit `d`.
fn char_str(d: u64) -> (r: &'static str)
    requires
        d < 10,
    ensures
        r@ == seq![decimal_char(d as nat)],
{
    proof {
        reveal_strlit("0");
        reveal_strlit("1");
        reveal_strlit("2");
        reveal_strlit("3");
        reveal_strlit("4");
        reveal_strlit("5");
        reveal_strlit("6");
        reveal_strlit("7");
        reveal_strlit("8");
        reveal_strlit("9");
    }
    match d {
        0 => "0",
        1 => "1",
        2 => "2",
        3 => "3",
        4 => "4",
        5 => "5",
        6 => "6",
        7 => "7",
        8 => "8",
        _ => "9",
    }
}

/// Appends the `width` lowest bits of `v` to `out`, most significant first.
pub fn push_binary(out: &mut String, v: u64, width: usize)
    ensures
        final(out)@ == old(out)@ + binary_digits(v as nat, width as nat),
    decreases width,
{
    if width > 0 {
        push_binary(out, v / 2, width - 1);
        out.append(char_str(v % 2));
        assert(bit_char(v as nat) == decimal_char((v % 2) as nat));
        assert(binary_digits(v as nat, width as nat) == binary_digits((v / 2) as nat, (width - 1) as nat).push(bit_char(v as nat)));
        assert(final(out)@ =~= old(out)@ + binary_digits(v as nat, width as nat));
    } else {
        assert(old(out)@ + binary_digits(v as nat, 0) =~= old(out)@);
    }
}

/// Appends `n` in decimal to `out`.
pub fn push_decimal(out: &mut String, n: u64)
    ensures
        final(out)@ == old(out)@ + decimal_digits(n as nat),
    decreases n,
{
    if n >= 10 {
        push_decimal(out, n / 10);
    }
    out.append(char_str(n % 10));
    assert(final(out)@ =~= old(out)@ + decimal_digits(n as nat));
}

/// Appends `s` to `out` `n` times.
pub fn push_repeated(out: &mut String, s: &str, n: usize)
    requires
        s@.len() == 1,
    ensures
        final(out)@ == old(out)@ + repeat_char(s@[0], n as nat),
{
    let ghost start = out@;
    let mut i: usize = 0;
    while i < n
        invariant
            s@.len() == 1,
            i <= n,
            out@ == start + repeat_char(s@[0], i as nat),
        decreases n - i,
    {
        out.append(s);
        i = i + 1;
        assert(out@ =~= start + repeat_char(s@[0], i as nat));
    }
}

/// Whether two strings hold the same characters.
pub fn str_eq(a: &str, b: &str) -> (r: bool)
    ensures
        r == (a@ == b@),
{
    let n = a.unicode_len();
    if n != b.unicode_len() {
        return false;
    }
    let mut i: usize = 0;
    while i < n
        invariant
            n == a@.len(),
            n == b@.len(),
            i <= n,
            a@.subrange(0, i as int) == b@.subrange(0, i as int),
        decreases n - i,
    {
        if a.get_char(i) != b.get_char(i) {
            assert(a@[i as int] != b@[i as int]);
            return false;
        }
        assert(a@.subrange(0, i + 1) =~= a@.subrange(0, i as int).push(a@[i as int]));
        assert(b@.subrange(0, i + 1) =~= b@.subrange(0, i as int).push(b@[i as int]));
        i = i + 1;
    }
    assert(a@ =~= a@.subrange(0, n as int));
    assert(b@ =~= b@.subrange(0, n as int));
    true
}

} // verus!
