//! Properties that hold of every format, literal and color mode.
use vstd::prelude::*;
use crate::decode::{decoded_bits, format_block, NativeBits, LABEL_WIDTH};
use crate::format::{FieldSpec, NumericFormat};
use crate::render::{bits_line, block, description_line, field_letters, fields_width, letters_line, plain, SegmentView};
use crate::report::{format_report, is_enabled, report, report_of};
use crate::text::repeat_char;

verus! {

/// Two renderings hold the same lines, segment for segment, with the same characters.
pub open spec fn same_text(a: Seq<Seq<SegmentView>>, b: Seq<Seq<SegmentView>>) -> bool {
    &&& a.len() == b.len()
    &&& forall|i: int| 0 <= i < a.len() ==> #[trigger] a[i].len() == b[i].len()
    &&& forall|i: int, j: int| 0 <= i < a.len() && 0 <= j < a[i].len() ==> #[trigger] a[i][j].0 == b[i][j].0
}

/// No segment of the rendering carries a color.
pub open spec fn uncolored(a: Seq<Seq<SegmentView>>) -> bool {
    forall|i: int, j: int| 0 <= i < a.len() && 0 <= j < a[i].len() ==> (#[trigger] a[i][j]).1 is None
}

proof fn lemma_field_letters_len(fields: Seq<FieldSpec>)
    ensures
        field_letters(fields).len() == fields_width(fields),
    decreases fields.len(),
{
    if fields.len() > 0 {
        lemma_field_letters_len(fields.drop_last());
    }
}

proof fn lemma_letters_line_plain(fields: Seq<FieldSpec>, pad: nat, colored: bool)
    ensures
        plain(letters_line(fields, pad, colored)) == repeat_char(' ', pad) + field_letters(fields),
    decreases fields.len(),
{
    let l = letters_line(fields, pad, colored);
    if fields.len() == 0 {
        assert(l.drop_last() =~= Seq::<SegmentView>::empty());
        assert(plain(l.drop_last()) == Seq::<char>::empty());
        assert(repeat_char(' ', pad) + field_letters(fields) =~= repeat_char(' ', pad));
        assert(Seq::<char>::empty() + repeat_char(' ', pad) =~= repeat_char(' ', pad));
    } else {
        lemma_letters_line_plain(fields.drop_last(), pad, colored);
        assert(l.drop_last() =~= letters_line(fields.drop_last(), pad, colored));
        assert(repeat_char(' ', pad) + field_letters(fields) =~= repeat_char(' ', pad) + field_letters(
            fields.drop_last(),
        ) + repeat_char(fields.last().kind.spec_letter(), fields.last().width as nat));
    }
}

/// Every format is one sign bit, its exponent and its mantissa; its fields cover exactly its
/// width; and its field-letter line, past the indentation, is as long as the format is wide.
pub proof fn lemma_widths_add_up(format: NumericFormat, raw: nat, colored: bool)
    ensures
        format.spec_total_bits() == 1 + format.spec_exponent_bits() + format.spec_mantissa_bits(),
        fields_width(format.spec_fields()) == format.spec_total_bits(),
        plain(format_block(format, raw, colored)[1]) == repeat_char(' ', LABEL_WIDTH as nat) + field_letters(
            format.spec_fields(),
        ),
        field_letters(format.spec_fields()).len() == format.spec_total_bits(),
{
    let fields = format.spec_fields();
    reveal_with_fuel(fields_width, 4);
    lemma_field_letters_len(fields);
    lemma_letters_line_plain(fields, LABEL_WIDTH as nat, colored);
}

proof fn lemma_block_colors(label: Seq<char>, raw: nat, fields: Seq<FieldSpec>, pad: nat)
    ensures
        same_text(block(label, raw, fields, pad, false), block(label, raw, fields, pad, true)),
        uncolored(block(label, raw, fields, pad, false)),
{
    let a = block(label, raw, fields, pad, false);
    let b = block(label, raw, fields, pad, true);
    assert forall|i: int, j: int| 0 <= i < a.len() && 0 <= j < a[i].len() implies #[trigger] a[i][j].0 == b[i][j].0
        && a[i][j].1 is None by {
        if i >= 2 {
            assert(a[i] == description_line(fields[i - 2], pad, false));
            assert(b[i] == description_line(fields[i - 2], pad, true));
        } else if i == 0 {
            assert(a[i] == bits_line(label, raw, fields, pad, false));
            assert(b[i] == bits_line(label, raw, fields, pad, true));
        } else {
            assert(a[i] == letters_line(fields, pad, false));
            assert(b[i] == letters_line(fields, pad, true));
        }
    }
}

proof fn lemma_report_of_colors(formats: Seq<NumericFormat>, text: Seq<char>, types: Seq<NumericFormat>, native: NativeBits)
    ensures
        same_text(report_of(formats, text, types, native, false), report_of(formats, text, types, native, true)),
        uncolored(report_of(formats, text, types, native, false)),
    decreases formats.len(),
{
    if formats.len() > 0 {
        let f = formats.last();
        lemma_report_of_colors(formats.drop_last(), text, types, native);
        let pa = report_of(formats.drop_last(), text, types, native, false);
        let pb = report_of(formats.drop_last(), text, types, native, true);
        let qa = format_report(f, text, types, native, false);
        let qb = format_report(f, text, types, native, true);
        lemma_block_colors(f.spec_name(), 0, f.spec_fields(), LABEL_WIDTH as nat);
        if let Some(raw) = decoded_bits(f, text, native) {
            lemma_block_colors(f.spec_name(), raw, f.spec_fields(), LABEL_WIDTH as nat);
        }
        assert(same_text(qa, qb));
        assert(uncolored(qa));
        let a = pa + qa;
        let b = pb + qb;
        assert forall|i: int, j: int| 0 <= i < a.len() && 0 <= j < a[i].len() implies #[trigger] a[i][j].0 == b[i][j].0
            && a[i][j].1 is None by {
            if i >= pa.len() {
                assert(a[i] == qa[i - pa.len()]);
                assert(b[i] == qb[i - pa.len()]);
            } else {
                assert(a[i] == pa[i]);
                assert(b[i] == pb[i]);
            }
        }
        assert forall|i: int| 0 <= i < a.len() implies #[trigger] a[i].len() == b[i].len() by {
            if i >= pa.len() {
                assert(a[i] == qa[i - pa.len()]);
                assert(b[i] == qb[i - pa.len()]);
            } else {
                assert(a[i] == pa[i]);
                assert(b[i] == pb[i]);
            }
        }
    }
}

/// Turning colors off changes no character of the output, nor how it is split into lines
/// and segments; it only takes every color away.
pub proof fn lemma_colors_change_no_text(text: Seq<char>, types: Seq<NumericFormat>, native: NativeBits)
    ensures
        same_text(report(text, types, native, false), report(text, types, native, true)),
        uncolored(report(text, types, native, false)),
{
    lemma_report_of_colors(crate::format::all_formats(), text, types, native);
}

/// Restricting the output to one format shows that format's block alone, or nothing where
/// the literal does not decode under it, whatever the other formats would show.
pub proof fn lemma_single_type_filter(format: NumericFormat, text: Seq<char>, native: NativeBits, colored: bool)
    ensures
        report(text, seq![format], native, colored) == match decoded_bits(format, text, native) {
            Some(raw) => format_block(format, raw, colored),
            None => Seq::<Seq<SegmentView>>::empty(),
        },
{
    let types = seq![format];
    assert forall|g: NumericFormat| is_enabled(types, g) <==> g == format by {
        if g == format {
            assert(types[0] == g);
        }
    }
    let all = crate::format::all_formats();
    reveal_with_fuel(report_of, 5);
    assert(all.drop_last() =~= seq![NumericFormat::Half, NumericFormat::BFloat16, NumericFormat::Single]);
    assert(all.drop_last().drop_last() =~= seq![NumericFormat::Half, NumericFormat::BFloat16]);
    assert(all.drop_last().drop_last().drop_last() =~= seq![NumericFormat::Half]);
    assert(all.drop_last().drop_last().drop_last().drop_last() =~= Seq::<NumericFormat>::empty());
    let r = report(text, types, native, colored);
    let e = Seq::<Seq<SegmentView>>::empty();
    match format {
        NumericFormat::Half => assert(r =~= e + format_report(format, text, types, native, colored) + e + e + e),
        NumericFormat::BFloat16 => assert(r =~= e + e + format_report(format, text, types, native, colored) + e + e),
        NumericFormat::Single => assert(r =~= e + e + e + format_report(format, text, types, native, colored) + e),
        NumericFormat::Double => assert(r =~= e + e + e + e + format_report(format, text, types, native, colored)),
    }
}

/// A literal that no format's parser accepts produces no output at all.
pub proof fn lemma_unparseable_is_silent(text: Seq<char>, types: Seq<NumericFormat>, native: NativeBits, colored: bool)
    requires
        forall|f: NumericFormat| decoded_bits(f, text, native) is None,
    ensures
        report(text, types, native, colored) == Seq::<Seq<SegmentView>>::empty(),
{
    let all = crate::format::all_formats();
    reveal_with_fuel(report_of, 5);
    assert(all.drop_last() =~= seq![NumericFormat::Half, NumericFormat::BFloat16, NumericFormat::Single]);
    assert(all.drop_last().drop_last() =~= seq![NumericFormat::Half, NumericFormat::BFloat16]);
    assert(all.drop_last().drop_last().drop_last() =~= seq![NumericFormat::Half]);
    assert(all.drop_last().drop_last().drop_last().drop_last() =~= Seq::<NumericFormat>::empty());
    assert(report(text, types, native, colored) =~= Seq::<Seq<SegmentView>>::empty());
}

/// Decoding has no hidden state: the same literal and format always give the same bits.
pub proof fn lemma_decode_is_repeatable(format: NumericFormat, a: Seq<char>, b: Seq<char>, native: NativeBits)
    requires
        a == b,
    ensures
        decoded_bits(format, a, native) == decoded_bits(format, b, native),
{
}

} // verus!
