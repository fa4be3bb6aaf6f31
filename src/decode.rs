//! From a literal to the raw bit pattern of each format.
use vstd::prelude::*;
use crate::format::NumericFormat;
use crate::render::{block, render_fields, view_lines, Line, SegmentView};

verus! {

/// The column at which the bits start, after labels such as `bf16: `.
pub const LABEL_WIDTH: usize = 6;

/// The bit pattern of the bfloat16 value that the `half` crate parses from a literal.
pub uninterp spec fn bfloat_bits_of(s: Seq<char>) -> Option<u16>;

/// Relies on `<half::bf16 as FromStr>::from_str` (std's single-precision parse, rounded to
/// bfloat16) and `half::bf16::to_bits`: the result depends on the text alone.
#[verifier::external_body]
fn parse_bfloat_bits(s: &str) -> (r: Option<u16>)
    ensures
        r == bfloat_bits_of(s@),
{
    s.parse::<half::bf16>().ok().map(half::bf16::to_bits)
}

/// The bit patterns that the half-, single- and double-precision parsers give for a literal
/// (`None` where one rejects it). The caller parses and supplies them: the verified code
/// holds no value of those floating-point types.
#[derive(Clone, Copy, Debug, PartialEq, Eq, Structural)]
pub struct NativeBits {
    pub half: Option<u16>,
    pub single: Option<u32>,
    pub double: Option<u64>,
}

/// The raw bits of `text` under `format`, or `None` where the format's parser rejects it.
pub open spec fn decoded_bits(format: NumericFormat, text: Seq<char>, native: NativeBits) -> Option<nat> {
    match format {
        NumericFormat::Half => match native.half {
            Some(b) => Some(b as nat),
            None => None,
        },
        NumericFormat::BFloat16 => match bfloat_bits_of(text) {
            Some(b) => Some(b as nat),
            None => None,
        },
        NumericFormat::Single => match native.single {
            Some(b) => Some(b as nat),
            None => None,
        },
        NumericFormat::Double => match native.double {
            Some(b) => Some(b as nat),
            None => None,
        },
    }
}

/// The lines shown for the bits `raw` of `format`.
pub open spec fn format_block(format: NumericFormat, raw: nat, colored: bool) -> Seq<Seq<SegmentView>> {
    block(format.spec_name(), raw, format.spec_fields(), LABEL_WIDTH as nat, colored)
}

/// A literal decoded under one format: the format and the exact bit pattern, which is
/// below `2^total_bits` of the format.
#[derive(Clone, Copy, Debug, PartialEq, Eq)]
pub struct DecodedValue {
    format: NumericFormat,
    raw_bits: u64,
}

impl DecodedValue {
    #[verifier::type_invariant]
    spec fn inv(self) -> bool {
        (self.raw_bits as nat) < self.format.spec_raw_limit()
    }

    pub closed spec fn spec_format(self) -> NumericFormat {
        self.format
    }

    pub closed spec fn spec_raw_bits(self) -> nat {
        self.raw_bits as nat
    }

    /// Pairs `raw_bits` with `format`, if it fits in the format's width.
    pub fn new(format: NumericFormat, raw_bits: u64) -> (r: Option<DecodedValue>)
        ensures
            r is Some <==> (raw_bits as nat) < format.spec_raw_limit(),
            r matches Some(d) ==> d.spec_format() == format && d.spec_raw_bits() == raw_bits as nat,
    {
        let fits = match format {
            NumericFormat::Half => raw_bits <= 0xFFFF,
            NumericFormat::BFloat16 => raw_bits <= 0xFFFF,
            NumericFormat::Single => raw_bits <= 0xFFFF_FFFF,
            NumericFormat::Double => true,
        };
        if fits {
            Some(DecodedValue { format, raw_bits })
        } else {
            None
        }
    }

    pub fn format(&self) -> (r: NumericFormat)
        ensures
            r == self.spec_format(),
    {
        self.format
    }

    pub fn raw_bits(&self) -> (r: u64)
        ensures
            r as nat == self.spec_raw_bits(),
            (r as nat) < self.spec_format().spec_raw_limit(),
    {
        proof {
            use_type_invariant(self);
        }
        self.raw_bits
    }

    /// The lines that show this value: labelled bits, field letters, field descriptions.
    pub fn render(&self, colored: bool) -> (r: Vec<Line>)
        ensures
            view_lines(r@) == format_block(self.spec_format(), self.spec_raw_bits(), colored),
    {
        let fields = self.format.fields();
        proof {
            reveal_strlit("f16");
            reveal_strlit("bf16");
            reveal_strlit("f32");
            reveal_strlit("f64");
            assert(crate::render::fields_width(fields@) == self.format.spec_total_bits()) by {
                reveal_with_fuel(crate::render::fields_width, 4);
            }
        }
        render_fields(self.format.name(), self.raw_bits, &fields, LABEL_WIDTH, colored)
    }
}

/// Decodes `text` under `format`: the bits that the format's parser gives, or `None`
/// where it rejects the text. Bfloat16 is parsed here; the other formats' bits are read
/// from `native`.
pub fn decode(format: NumericFormat, text: &str, native: &NativeBits) -> (r: Option<DecodedValue>)
    ensures
        r is Some <==> decoded_bits(format, text@, *native) is Some,
        r matches Some(d) ==> d.spec_format() == format && Some(d.spec_raw_bits()) == decoded_bits(format, text@, *native),
{
    let bits: Option<u64> = match format {
        NumericFormat::Half => match native.half {
            Some(b) => Some(b as u64),
            None => None,
        },
        NumericFormat::BFloat16 => match parse_bfloat_bits(text) {
            Some(b) => Some(b as u64),
            None => None,
        },
        NumericFormat::Single => match native.single {
            Some(b) => Some(b as u64),
            None => None,
        },
        NumericFormat::Double => native.double,
    };
    match bits {
        Some(b) => DecodedValue::new(format, b),
        None => None,
    }
}

} // verus!
