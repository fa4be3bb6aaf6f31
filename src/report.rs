//! Which formats to show, the color mode, and the whole report for one literal.
use vstd::prelude::*;
use crate::decode::{decode, decoded_bits, format_block, NativeBits};
use crate::format::{all_formats, NumericFormat};
use crate::render::{view_lines, Line, SegmentView};
use crate::text::str_eq;

verus! {

/// When to color the output.
#[derive(Clone, Copy, Debug, PartialEq, Eq, Hash, Structural)]
pub enum ColorMode {
    Always,
    AlwaysAnsi,
    Auto,
    Never,
}

/// The format that a name given on the command line selects.
pub open spec fn format_named(s: Seq<char>) -> Option<NumericFormat> {
    if s == "f16"@ {
        Some(NumericFormat::Half)
    } else if s == "bf16"@ {
        Some(NumericFormat::BFloat16)
    } else if s == "f32"@ {
        Some(NumericFormat::Single)
    } else if s == "f64"@ {
        Some(NumericFormat::Double)
    } else {
        None
    }
}

/// The color mode that a name given on the command line selects.
pub open spec fn color_mode_named(s: Seq<char>) -> Option<ColorMode> {
    if s == "always"@ {
        Some(ColorMode::Always)
    } else if s == "always-ansi"@ {
        Some(ColorMode::AlwaysAnsi)
    } else if s == "auto"@ {
        Some(ColorMode::Auto)
    } else if s == "never"@ {
        Some(ColorMode::Never)
    } else {
        None
    }
}

/// Reads a format name: `f16`, `bf16`, `f32` or `f64`.
pub fn allowed_type(s: &str) -> (r: Result<NumericFormat, String>)
    ensures
        r is Ok <==> format_named(s@) is Some,
        r matches Ok(f) ==> format_named(s@) == Some(f),
        r matches Err(e) ==> e@ == "Either f16, bf16, f32 or f64 must be specified"@,
{
    if str_eq(s, "f16") {
        Ok(NumericFormat::Half)
    } else if str_eq(s, "bf16") {
        Ok(NumericFormat::BFloat16)
    } else if str_eq(s, "f32") {
        Ok(NumericFormat::Single)
    } else if str_eq(s, "f64") {
        Ok(NumericFormat::Double)
    } else {
        Err(String::from_str("Either f16, bf16, f32 or f64 must be specified"))
    }
}

/// Reads a color mode: `always`, `always-ansi`, `auto` or `never`.
pub fn color_style(s: &str) -> (r: Result<ColorMode, String>)
    ensures
        r is Ok <==> color_mode_named(s@) is Some,
        r matches Ok(m) ==> color_mode_named(s@) == Some(m),
        r matches Err(e) ==> e@ == "Either never, auto, always or always-ansi must be specified"@,
{
    if str_eq(s, "always") {
        Ok(ColorMode::Always)
    } else if str_eq(s, "always-ansi") {
        Ok(ColorMode::AlwaysAnsi)
    } else if str_eq(s, "auto") {
        Ok(ColorMode::Auto)
    } else if str_eq(s, "never") {
        Ok(ColorMode::Never)
    } else {
        Err(String::from_str("Either never, auto, always or always-ansi must be specified"))
    }
}

/// A format is shown when no restriction is given, or when the restriction names it.
pub open spec fn is_enabled(types: Seq<NumericFormat>, format: NumericFormat) -> bool {
    types.len() == 0 || types.contains(format)
}

/// Whether `format` is to be shown under the restriction `types`.
pub fn type_enabled(types: &Vec<NumericFormat>, format: NumericFormat) -> (r: bool)
    ensures
        r == is_enabled(types@, format),
{
    if types.len() == 0 {
        return true;
    }
    let mut i: usize = 0;
    while i < types.len()
        invariant
            i <= types@.len(),
            forall|j: int| 0 <= j < i ==> types@[j] != format,
        decreases types@.len() - i,
    {
        if types[i] == format {
            assert(types@[i as int] == format);
            return true;
        }
        i = i + 1;
    }
    false
}

/// The lines shown for one format: its block where it is enabled and the literal decodes,
/// and nothing otherwise.
pub open spec fn format_report(
    format: NumericFormat,
    text: Seq<char>,
    types: Seq<NumericFormat>,
    native: NativeBits,
    colored: bool,
) -> Seq<Seq<SegmentView>> {
    match decoded_bits(format, text, native) {
        Some(raw) => if is_enabled(types, format) {
            format_block(format, raw, colored)
        } else {
            Seq::empty()
        },
        None => Seq::empty(),
    }
}

/// The lines shown for each of `formats`, in their order.
pub open spec fn report_of(
    formats: Seq<NumericFormat>,
    text: Seq<char>,
    types: Seq<NumericFormat>,
    native: NativeBits,
    colored: bool,
) -> Seq<Seq<SegmentView>>
    decreases formats.len(),
{
    if formats.len() == 0 {
        Seq::empty()
    } else {
        report_of(formats.drop_last(), text, types, native, colored) + format_report(
            formats.last(),
            text,
            types,
            native,
            colored,
        )
    }
}

/// The whole output for a literal: the supported formats in their fixed order.
pub open spec fn report(text: Seq<char>, types: Seq<NumericFormat>, native: NativeBits, colored: bool) -> Seq<Seq<SegmentView>> {
    report_of(all_formats(), text, types, native, colored)
}

/// Renders `text` under every format that `types` allows (all of them when it is empty),
/// in the order half, bfloat16, single, double, leaving out each format whose parser
/// rejects the text.
pub fn render_report(text: &str, types: &Vec<NumericFormat>, native: &NativeBits, colored: bool) -> (r: Vec<Line>)
    ensures
        view_lines(r@) == report(text@, types@, *native, colored),
{
    let formats = vec![NumericFormat::Half, NumericFormat::BFloat16, NumericFormat::Single, NumericFormat::Double];
    assert(formats@ =~= all_formats());
    let mut out: Vec<Line> = Vec::new();
    let mut i: usize = 0;
    while i < formats.len()
        invariant
            formats@ == all_formats(),
            i <= formats@.len(),
            view_lines(out@) == report_of(formats@.take(i as int), text@, types@, *native, colored),
        decreases formats@.len() - i,
    {
        let format = formats[i];
        assert(formats@.take(i + 1).drop_last() =~= formats@.take(i as int));
        let ghost before = out@;
        if type_enabled(types, format) {
            match decode(format, text, native) {
                Some(d) => {
                    let mut lines = d.render(colored);
                    out.append(&mut lines);
                    assert(view_lines(out@) =~= view_lines(before) + format_report(format, text@, types@, *native, colored));
                },
                None => {},
            }
        }
        assert(view_lines(out@) =~= report_of(formats@.take(i + 1), text@, types@, *native, colored));
        i = i + 1;
    }
    assert(formats@.take(4) =~= formats@);
    out
}

} // verus!
