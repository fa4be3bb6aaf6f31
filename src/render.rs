//! Renders a bit pattern and its fields as lines of optionally colored text.
use vstd::prelude::*;
use crate::format::{FieldColor, FieldKind, FieldSpec};
use crate::text::{binary_digits, decimal_digits, push_binary, push_decimal, push_repeated, repeat_char};

verus! {

/// A run of text shown in one color, or in the terminal's default when `color` is `None`.
#[derive(Clone, Debug)]
pub struct Segment {
    pub text: String,
    pub color: Option<FieldColor>,
}

/// One line of output, as the segments it is written in.
#[derive(Clone, Debug)]
pub struct Line {
    pub segments: Vec<Segment>,
}

/// A segment as its characters and its color.
pub type SegmentView = (Seq<char>, Option<FieldColor>);

impl View for Segment {
    type V = SegmentView;

    open spec fn view(&self) -> SegmentView {
        (self.text@, self.color)
    }
}

impl View for Line {
    type V = Seq<SegmentView>;

    open spec fn view(&self) -> Seq<SegmentView> {
        self.segments@.map_values(|s: Segment| s@)
    }
}

/// The lines of a rendering, each as the sequence of its segments.
pub open spec fn view_lines(lines: Seq<Line>) -> Seq<Seq<SegmentView>> {
    lines.map_values(|l: Line| l@)
}

/// The text of a line with its colors left out.
pub open spec fn plain(segs: Seq<SegmentView>) -> Seq<char>
    decreases segs.len(),
{
    if segs.len() == 0 {
        Seq::empty()
    } else {
        plain(segs.drop_last()) + segs.last().0
    }
}

/// The sum of the widths of `fields`.
pub open spec fn fields_width(fields: Seq<FieldSpec>) -> nat
    decreases fields.len(),
{
    if fields.len() == 0 {
        0
    } else {
        fields_width(fields.drop_last()) + fields.last().width as nat
    }
}

/// The position of the first bit of field `i`, counted from the most significant bit.
pub open spec fn field_start(fields: Seq<FieldSpec>, i: int) -> nat {
    fields_width(fields.take(i))
}

/// The color of a field when colors are on, and none when they are off.
pub open spec fn tint(colored: bool, kind: FieldKind) -> Option<FieldColor> {
    if colored { Some(kind.spec_color()) } else { None }
}

/// The label, a colon, and spaces up to the column `pad`.
pub open spec fn label_prefix(label: Seq<char>, pad: nat) -> Seq<char> {
    label + seq![':'] + repeat_char(' ', (pad - label.len() - 1) as nat)
}

/// The first line: the label, then the bits in the fields' colors.
pub open spec fn bits_line(label: Seq<char>, raw: nat, fields: Seq<FieldSpec>, pad: nat, colored: bool) -> Seq<SegmentView> {
    let digits = binary_digits(raw, fields_width(fields));
    seq![(label_prefix(label, pad), None::<FieldColor>)] + Seq::new(
        fields.len(),
        |i: int|
            (
                digits.subrange(field_start(fields, i) as int, field_start(fields, i + 1) as int),
                tint(colored, fields[i].kind),
            ),
    )
}

/// The letters of the fields, repeated once per bit.
pub open spec fn field_letters(fields: Seq<FieldSpec>) -> Seq<char>
    decreases fields.len(),
{
    if fields.len() == 0 {
        Seq::empty()
    } else {
        field_letters(fields.drop_last()) + repeat_char(fields.last().kind.spec_letter(), fields.last().width as nat)
    }
}

/// The second line: each field's letter once per bit, under the bits.
pub open spec fn letters_line(fields: Seq<FieldSpec>, pad: nat, colored: bool) -> Seq<SegmentView> {
    seq![(repeat_char(' ', pad), None::<FieldColor>)] + Seq::new(
        fields.len(),
        |i: int| (repeat_char(fields[i].kind.spec_letter(), fields[i].width as nat), tint(colored, fields[i].kind)),
    )
}

/// `"<letter>: <name> (<width> bit)"`, with `bits` for any width but one.
pub open spec fn description(field: FieldSpec) -> Seq<char> {
    seq![field.kind.spec_letter()] + ": "@ + field.kind.spec_full_name() + " ("@ + decimal_digits(field.width as nat) + if field.width == 1 {
        " bit)"@
    } else {
        " bits)"@
    }
}

/// A line that describes one field, in that field's color.
pub open spec fn description_line(field: FieldSpec, pad: nat, colored: bool) -> Seq<SegmentView> {
    seq![(repeat_char(' ', pad), None::<FieldColor>), (description(field), tint(colored, field.kind))]
}

/// All lines shown for one bit pattern: bits, letters, then one description per field.
pub open spec fn block(label: Seq<char>, raw: nat, fields: Seq<FieldSpec>, pad: nat, colored: bool) -> Seq<Seq<SegmentView>> {
    seq![bits_line(label, raw, fields, pad, colored), letters_line(fields, pad, colored)] + Seq::new(
        fields.len(),
        |i: int| description_line(fields[i], pad, colored),
    )
}

proof fn lemma_fields_width_take(fields: Seq<FieldSpec>, i: int)
    requires
        0 <= i < fields.len(),
    ensures
        field_start(fields, i + 1) == field_start(fields, i) + fields[i].width,
        field_start(fields, i + 1) <= fields_width(fields),
    decreases fields.len() - i,
{
    assert(fields.take(i + 1).drop_last() =~= fields.take(i));
    if i + 1 < fields.len() {
        lemma_fields_width_take(fields, i + 1);
    } else {
        assert(fields.take(i + 1) =~= fields);
    }
}

proof fn lemma_binary_digits_len(v: nat, width: nat)
    ensures
        binary_digits(v, width).len() == width,
    decreases width,
{
    if width > 0 {
        lemma_binary_digits_len(v / 2, (width - 1) as nat);
    }
}

impl Line {
    /// The line's text without its colors.
    pub fn text(&self) -> (r: String)
        ensures
            r@ == plain(self@),
    {
        let mut out = String::new();
        let mut i: usize = 0;
        while i < self.segments.len()
            invariant
                i <= self.segments@.len(),
                out@ == plain(self@.take(i as int)),
            decreases self.segments@.len() - i,
        {
            assert(self@.take(i + 1).drop_last() =~= self@.take(i as int));
            out.append(self.segments[i].text.as_str());
            i = i + 1;
        }
        assert(self@.take(i as int) =~= self@);
        out
    }
}

fn tint_of(colored: bool, kind: FieldKind) -> (r: Option<FieldColor>)
    ensures
        r == tint(colored, kind),
{
    if colored { Some(kind.color()) } else { None }
}

fn spaces(n: usize) -> (r: String)
    ensures
        r@ == repeat_char(' ', n as nat),
{
    let mut s = String::new();
    proof {
        reveal_strlit(" ");
    }
    push_repeated(&mut s, " ", n);
    assert(s@ =~= repeat_char(' ', n as nat));
    s
}

fn describe(field: FieldSpec) -> (r: String)
    ensures
        r@ == description(field),
{
    let mut s = String::from_str(field.kind.letter());
    s.append(": ");
    s.append(field.kind.full_name());
    s.append(" (");
    push_decimal(&mut s, field.width as u64);
    if field.width == 1 {
        s.append(" bit)");
    } else {
        s.append(" bits)");
    }
    assert(s@ =~= description(field));
    s
}

/// Renders `raw` under the partition `fields`: the labelled bits, the field letters aligned
/// under them, and one description per field. With `colored`, each field's text carries its
/// color; the label and the indentation never do.
pub fn render_fields(label: &str, raw: u64, fields: &Vec<FieldSpec>, pad: usize, colored: bool) -> (r: Vec<Line>)
    requires
        label@.len() + 2 <= pad,
        fields_width(fields@) <= usize::MAX,
    ensures
        view_lines(r@) == block(label@, raw as nat, fields@, pad as nat, colored),
{
    let n = fields.len();
    // the width of the whole pattern
    let mut total: usize = 0;
    let mut i: usize = 0;
    while i < n
        invariant
            n == fields@.len(),
            i <= n,
            total == field_start(fields@, i as int),
            fields_width(fields@) <= usize::MAX,
        decreases n - i,
    {
        proof {
            lemma_fields_width_take(fields@, i as int);
        }
        total = total + fields[i].width;
        i = i + 1;
    }
    assert(fields@.take(n as int) =~= fields@);
    let mut digits = String::new();
    push_binary(&mut digits, raw, total);
    proof {
        lemma_binary_digits_len(raw as nat, total as nat);
    }
    assert(digits@ =~= binary_digits(raw as nat, total as nat));

    let mut prefix = String::from_str(label);
    prefix.append(":");
    let label_len = label.unicode_len();
    let gap = spaces(pad - label_len - 1);
    prefix.append(gap.as_str());
    proof {
        reveal_strlit(":");
    }
    assert(prefix@ =~= label_prefix(label@, pad as nat));

    let mut bits_segs: Vec<Segment> = vec![Segment { text: prefix, color: None }];
    let mut letter_segs: Vec<Segment> = vec![Segment { text: spaces(pad), color: None }];
    let mut lines: Vec<Line> = Vec::new();
    let ghost bl = bits_line(label@, raw as nat, fields@, pad as nat, colored);
    let ghost ll = letters_line(fields@, pad as nat, colored);
    let mut start: usize = 0;
    let mut i: usize = 0;
    while i < n
        invariant
            n == fields@.len(),
            i <= n,
            start == field_start(fields@, i as int),
            total == fields_width(fields@),
            digits@ == binary_digits(raw as nat, total as nat),
            digits@.len() == total,
            bl == bits_line(label@, raw as nat, fields@, pad as nat, colored),
            ll == letters_line(fields@, pad as nat, colored),
            bits_segs@.len() == i + 1,
            letter_segs@.len() == i + 1,
            lines@.len() == i,
            forall|j: int| 0 <= j <= i ==> #[trigger] bits_segs@[j]@ == bl[j],
            forall|j: int| 0 <= j <= i ==> #[trigger] letter_segs@[j]@ == ll[j],
            forall|j: int| 0 <= j < i ==> #[trigger] lines@[j]@ == description_line(fields@[j], pad as nat, colored),
        decreases n - i,
    {
        proof {
            lemma_fields_width_take(fields@, i as int);
        }
        let field = fields[i];
        let end = start + field.width;
        let piece = digits.as_str().substring_char(start, end);
        bits_segs.push(Segment { text: String::from_str(piece), color: tint_of(colored, field.kind) });

        let mut run = String::new();
        push_repeated(&mut run, field.kind.letter(), field.width);
        assert(run@ =~= repeat_char(field.kind.spec_letter(), field.width as nat));
        letter_segs.push(Segment { text: run, color: tint_of(colored, field.kind) });

        let desc = vec![Segment { text: spaces(pad), color: None }, Segment { text: describe(field), color: tint_of(colored, field.kind) }];
        let line = Line { segments: desc };
        assert(line@ =~= description_line(fields@[i as int], pad as nat, colored));
        lines.push(line);
        start = end;
        i = i + 1;
    }
    let first = Line { segments: bits_segs };
    let second = Line { segments: letter_segs };
    assert(first@ =~= bl);
    assert(second@ =~= ll);
    let mut r: Vec<Line> = vec![first, second];
    r.append(&mut lines);
    assert(view_lines(r@) =~= block(label@, raw as nat, fields@, pad as nat, colored));
    r
}

} // verus!
