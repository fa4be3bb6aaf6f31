//! The supported IEEE-754 layouts and the fields that partition them.
use vstd::prelude::*;

verus! {

/// One of the supported binary floating-point layouts.
#[derive(Clone, Copy, Debug, PartialEq, Eq, Hash, Structural)]
pub enum NumericFormat {
    /// IEEE-754 binary16.
    Half,
    /// Brain floating point: a single's exponent with a seven-bit fraction.
    BFloat16,
    /// IEEE-754 binary32.
    Single,
    /// IEEE-754 binary64.
    Double,
}

/// The three kinds of field of an IEEE-754 encoding.
#[derive(Clone, Copy, Debug, PartialEq, Eq, Hash, Structural)]
pub enum FieldKind {
    Sign,
    Exponent,
    Mantissa,
}

/// The display color of a field.
#[derive(Clone, Copy, Debug, PartialEq, Eq, Hash, Structural)]
pub enum FieldColor {
    Red,
    Green,
    Blue,
}

/// A contiguous run of `width` bits forming one field.
#[derive(Clone, Copy, Debug, PartialEq, Eq, Hash, Structural)]
pub struct FieldSpec {
    pub kind: FieldKind,
    pub width: usize,
}

/// Every supported format, in the order in which they are shown.
pub open spec fn all_formats() -> Seq<NumericFormat> {
    seq![NumericFormat::Half, NumericFormat::BFloat16, NumericFormat::Single, NumericFormat::Double]
}

impl NumericFormat {
    pub open spec fn spec_exponent_bits(self) -> nat {
        match self {
            NumericFormat::Half => 5,
            NumericFormat::BFloat16 => 8,
            NumericFormat::Single => 8,
            NumericFormat::Double => 11,
        }
    }

    pub open spec fn spec_mantissa_bits(self) -> nat {
        match self {
            NumericFormat::Half => 10,
            NumericFormat::BFloat16 => 7,
            NumericFormat::Single => 23,
            NumericFormat::Double => 52,
        }
    }

    pub open spec fn spec_total_bits(self) -> nat {
        match self {
            NumericFormat::Half => 16,
            NumericFormat::BFloat16 => 16,
            NumericFormat::Single => 32,
            NumericFormat::Double => 64,
        }
    }

    /// `2^total_bits`: every bit pattern of the format lies below it.
    pub open spec fn spec_raw_limit(self) -> nat {
        match self {
            NumericFormat::Half => 0x1_0000,
            NumericFormat::BFloat16 => 0x1_0000,
            NumericFormat::Single => 0x1_0000_0000,
            NumericFormat::Double => 0x1_0000_0000_0000_0000,
        }
    }

    pub open spec fn spec_name(self) -> Seq<char> {
        match self {
            NumericFormat::Half => "f16"@,
            NumericFormat::BFloat16 => "bf16"@,
            NumericFormat::Single => "f32"@,
            NumericFormat::Double => "f64"@,
        }
    }

    /// The fields of the format: sign, then exponent, then mantissa.
    pub open spec fn spec_fields(self) -> Seq<FieldSpec> {
        seq![
            FieldSpec { kind: FieldKind::Sign, width: 1 },
            FieldSpec { kind: FieldKind::Exponent, width: self.spec_exponent_bits() as usize },
            FieldSpec { kind: FieldKind::Mantissa, width: self.spec_mantissa_bits() as usize },
        ]
    }

    /// The display label, e.g. `f32`.
    pub fn name(&self) -> (r: &'static str)
        ensures
            r@ == self.spec_name(),
    {
        match self {
            NumericFormat::Half => "f16",
            NumericFormat::BFloat16 => "bf16",
            NumericFormat::Single => "f32",
            NumericFormat::Double => "f64",
        }
    }

    /// The number of sign bits, always one.
    pub fn sign_bits(&self) -> (r: usize)
        ensures
            r == 1,
    {
        1
    }

    /// The width of the exponent field.
    pub fn exponent_bits(&self) -> (r: usize)
        ensures
            r == self.spec_exponent_bits(),
    {
        match self {
            NumericFormat::Half => 5,
            NumericFormat::BFloat16 => 8,
            NumericFormat::Single => 8,
            NumericFormat::Double => 11,
        }
    }

    /// The width of the mantissa (fraction) field.
    pub fn mantissa_bits(&self) -> (r: usize)
        ensures
            r == self.spec_mantissa_bits(),
    {
        match self {
            NumericFormat::Half => 10,
            NumericFormat::BFloat16 => 7,
            NumericFormat::Single => 23,
            NumericFormat::Double => 52,
        }
    }

    /// The width of the whole encoding.
    pub fn total_bits(&self) -> (r: usize)
        ensures
            r == self.spec_total_bits(),
    {
        match self {
            NumericFormat::Half => 16,
            NumericFormat::BFloat16 => 16,
            NumericFormat::Single => 32,
            NumericFormat::Double => 64,
        }
    }

    /// The fields of the format, in order: sign, exponent, mantissa.
    pub fn fields(&self) -> (r: Vec<FieldSpec>)
        ensures
            r@ == self.spec_fields(),
    {
        let r = vec![
            FieldSpec { kind: FieldKind::Sign, width: self.sign_bits() },
            FieldSpec { kind: FieldKind::Exponent, width: self.exponent_bits() },
            FieldSpec { kind: FieldKind::Mantissa, width: self.mantissa_bits() },
        ];
        assert(r@ =~= self.spec_fields());
        r
    }
}

impl FieldKind {
    /// The letter that marks the field's bits.
    pub open spec fn spec_letter(self) -> char {
        match self {
            FieldKind::Sign => 'S',
            FieldKind::Exponent => 'E',
            FieldKind::Mantissa => 'M',
        }
    }

    pub open spec fn spec_full_name(self) -> Seq<char> {
        match self {
            FieldKind::Sign => "Sign"@,
            FieldKind::Exponent => "Exponent"@,
            FieldKind::Mantissa => "Fraction / Mantissa"@,
        }
    }

    pub open spec fn spec_color(self) -> FieldColor {
        match self {
            FieldKind::Sign => FieldColor::Red,
            FieldKind::Exponent => FieldColor::Green,
            FieldKind::Mantissa => FieldColor::Blue,
        }
    }

    /// The field's letter as a one-character string.
    pub fn letter(&self) -> (r: &'static str)
        ensures
            r@ == seq![self.spec_letter()],
    {
        proof {
            reveal_strlit("S");
            reveal_strlit("E");
            reveal_strlit("M");
        }
        match self {
            FieldKind::Sign => "S",
            FieldKind::Exponent => "E",
            FieldKind::Mantissa => "M",
        }
    }

    /// The field's full name, e.g. `Exponent`.
    pub fn full_name(&self) -> (r: &'static str)
        ensures
            r@ == self.spec_full_name(),
    {
        match self {
            FieldKind::Sign => "Sign",
            FieldKind::Exponent => "Exponent",
            FieldKind::Mantissa => "Fraction / Mantissa",
        }
    }

    /// The color in which the field is shown.
    pub fn color(&self) -> (r: FieldColor)
        ensures
            r == self.spec_color(),
    {
        match self {
            FieldKind::Sign => FieldColor::Red,
            FieldKind::Exponent => FieldColor::Green,
            FieldKind::Mantissa => FieldColor::Blue,
        }
    }
}

} // verus!
