use bits::decode::{decode, DecodedValue, NativeBits};
use bits::format::{FieldColor, FieldKind, FieldSpec, NumericFormat};
use bits::render::{render_fields, Line, Segment};
use bits::report::{allowed_type, color_style, render_report, type_enabled, ColorMode};

fn native(text: &str) -> NativeBits {
    NativeBits {
        half: text.parse::<half::f16>().ok().map(|v| v.to_bits()),
        single: text.parse::<f32>().ok().map(|v| v.to_bits()),
        double: text.parse::<f64>().ok().map(|v| v.to_bits()),
    }
}

fn texts(lines: &[Line]) -> Vec<String> {
    lines.iter().map(|l| l.text()).collect()
}

fn raw(format: NumericFormat, text: &str) -> Option<u64> {
    decode(format, text, &native(text)).map(|d| d.raw_bits())
}

#[test]
fn double_one_is_reinterpreted_not_cast() {
    assert_eq!(raw(NumericFormat::Double, "1.0"), Some(0x3FF0_0000_0000_0000));
    let d = decode(NumericFormat::Double, "1.0", &native("1.0")).unwrap();
    let lines = texts(&d.render(false));
    assert_eq!(
        lines[0],
        "f64:  0011111111110000000000000000000000000000000000000000000000000000"
    );
}

#[test]
fn single_one_is_reinterpreted_not_cast() {
    assert_eq!(raw(NumericFormat::Single, "1.0"), Some(0x3F80_0000));
    let d = decode(NumericFormat::Single, "1.0", &native("1.0")).unwrap();
    assert_eq!(
        texts(&d.render(false)),
        vec![
            "f32:  00111111100000000000000000000000",
            "      SEEEEEEEEMMMMMMMMMMMMMMMMMMMMMMM",
            "      S: Sign (1 bit)",
            "      E: Exponent (8 bits)",
            "      M: Fraction / Mantissa (23 bits)",
        ]
    );
}

#[test]
fn bfloat_is_parsed_by_the_library() {
    let none = NativeBits { half: None, single: None, double: None };
    assert_eq!(decode(NumericFormat::BFloat16, "1.0", &none).map(|d| d.raw_bits()), Some(0x3F80));
    assert_eq!(decode(NumericFormat::BFloat16, "-2.5", &none).map(|d| d.raw_bits()), Some(0xC020));
    assert!(decode(NumericFormat::BFloat16, "one", &none).is_none());
}

#[test]
fn half_block() {
    let d = decode(NumericFormat::Half, "1.5", &native("1.5")).unwrap();
    assert_eq!(d.raw_bits(), 0x3E00);
    assert_eq!(
        texts(&d.render(false)),
        vec![
            "f16:  0011111000000000",
            "      SEEEEEMMMMMMMMMM",
            "      S: Sign (1 bit)",
            "      E: Exponent (5 bits)",
            "      M: Fraction / Mantissa (10 bits)",
        ]
    );
}

#[test]
fn bfloat_block() {
    let d = decode(NumericFormat::BFloat16, "1.0", &native("1.0")).unwrap();
    assert_eq!(
        texts(&d.render(false)),
        vec![
            "bf16: 0011111110000000",
            "      SEEEEEEEEMMMMMMM",
            "      S: Sign (1 bit)",
            "      E: Exponent (8 bits)",
            "      M: Fraction / Mantissa (7 bits)",
        ]
    );
}

#[test]
fn negative_zero_sets_only_the_sign_bit() {
    assert_eq!(raw(NumericFormat::Half, "-0.0"), Some(0x8000));
    assert_eq!(raw(NumericFormat::BFloat16, "-0.0"), Some(0x8000));
    assert_eq!(raw(NumericFormat::Single, "-0.0"), Some(0x8000_0000));
    assert_eq!(raw(NumericFormat::Double, "-0.0"), Some(0x8000_0000_0000_0000));
}

#[test]
fn decoding_twice_gives_the_same_bits() {
    for format in [NumericFormat::Half, NumericFormat::BFloat16, NumericFormat::Single, NumericFormat::Double] {
        assert_eq!(raw(format, "3.14159"), raw(format, "3.14159"));
        assert!(raw(format, "3.14159").is_some());
    }
}

#[test]
fn type_filter_shows_only_single() {
    let lines = texts(&render_report("1.0", &vec![NumericFormat::Single], &native("1.0"), false));
    assert_eq!(lines.len(), 5);
    assert_eq!(lines[0], "f32:  00111111100000000000000000000000");
    assert!(lines.iter().all(|l| !l.starts_with("f16") && !l.starts_with("bf16") && !l.starts_with("f64")));
}

#[test]
fn all_formats_in_order() {
    let lines = texts(&render_report("2", &vec![], &native("2"), false));
    assert_eq!(lines.len(), 20);
    assert_eq!(lines[0], "f16:  0100000000000000");
    assert_eq!(lines[5], "bf16: 0100000000000000");
    assert_eq!(lines[10], "f32:  01000000000000000000000000000000");
    assert_eq!(lines[15], "f64:  0100000000000000000000000000000000000000000000000000000000000000");
}

#[test]
fn two_types_keep_the_fixed_order() {
    let lines = texts(&render_report("2", &vec![NumericFormat::Double, NumericFormat::Half], &native("2"), false));
    assert_eq!(lines.len(), 10);
    assert!(lines[0].starts_with("f16:  "));
    assert!(lines[5].starts_with("f64:  "));
}

#[test]
fn unparseable_input_gives_no_output() {
    assert!(render_report("not-a-number", &vec![], &native("not-a-number"), true).is_empty());
    assert!(render_report("", &vec![], &native(""), false).is_empty());
}

#[test]
fn field_letters_of_single_and_double() {
    let s = decode(NumericFormat::Single, "0", &native("0")).unwrap().render(false);
    assert_eq!(s[1].text(), format!("      {}", "SEEEEEEEEMMMMMMMMMMMMMMMMMMMMMMM"));
    let d = decode(NumericFormat::Double, "0", &native("0")).unwrap().render(false);
    let letters = d[1].text();
    let letters = letters.trim_start();
    assert_eq!(letters.len(), 64);
    assert_eq!(letters, format!("S{}{}", "E".repeat(11), "M".repeat(52)));
    assert_eq!(d[3].text(), "      E: Exponent (11 bits)");
    assert_eq!(d[4].text(), "      M: Fraction / Mantissa (52 bits)");
}

#[test]
fn never_differs_from_always_only_in_colors() {
    for text in ["1.0", "-0.0", "inf", "nan", "1e300"] {
        let plain = render_report(text, &vec![], &native(text), false);
        let colored = render_report(text, &vec![], &native(text), true);
        assert_eq!(plain.len(), colored.len());
        for (p, c) in plain.iter().zip(colored.iter()) {
            assert_eq!(p.segments.len(), c.segments.len());
            for (ps, cs) in p.segments.iter().zip(c.segments.iter()) {
                assert_eq!(ps.text, cs.text);
                assert_eq!(ps.color, None);
            }
        }
    }
}

#[test]
fn colored_segments_follow_the_fields() {
    let d = decode(NumericFormat::Single, "-1.0", &native("-1.0")).unwrap();
    let lines = d.render(true);
    let bits: Vec<(&str, Option<FieldColor>)> =
        lines[0].segments.iter().map(|s: &Segment| (s.text.as_str(), s.color)).collect();
    assert_eq!(
        bits,
        vec![
            ("f32:  ", None),
            ("1", Some(FieldColor::Red)),
            ("01111111", Some(FieldColor::Green)),
            ("00000000000000000000000", Some(FieldColor::Blue)),
        ]
    );
    assert_eq!(lines[1].segments[0].text, "      ");
    assert_eq!(lines[1].segments[0].color, None);
    assert_eq!(lines[2].segments[1].text, "S: Sign (1 bit)");
    assert_eq!(lines[2].segments[1].color, Some(FieldColor::Red));
    assert_eq!(lines[3].segments[1].color, Some(FieldColor::Green));
    assert_eq!(lines[4].segments[1].color, Some(FieldColor::Blue));
}

#[test]
fn render_fields_on_a_custom_partition() {
    let fields = vec![
        FieldSpec { kind: FieldKind::Sign, width: 1 },
        FieldSpec { kind: FieldKind::Exponent, width: 2 },
        FieldSpec { kind: FieldKind::Mantissa, width: 12 },
    ];
    let lines = texts(&render_fields("x", 0b101, &fields, 4, false));
    assert_eq!(
        lines,
        vec![
            "x:  000000000000101",
            "    SEEMMMMMMMMMMMM",
            "    S: Sign (1 bit)",
            "    E: Exponent (2 bits)",
            "    M: Fraction / Mantissa (12 bits)",
        ]
    );
}

#[test]
fn special_values() {
    assert_eq!(raw(NumericFormat::Single, "inf"), Some(0x7F80_0000));
    assert_eq!(raw(NumericFormat::Double, "-inf"), Some(0xFFF0_0000_0000_0000));
    assert_eq!(raw(NumericFormat::BFloat16, "inf"), Some(0x7F80));
    assert_eq!(raw(NumericFormat::Half, "1e10"), Some(0x7C00));
}

#[test]
fn new_rejects_bits_wider_than_the_format() {
    assert!(DecodedValue::new(NumericFormat::Half, 0x1_0000).is_none());
    assert!(DecodedValue::new(NumericFormat::BFloat16, 0xFFFF).is_some());
    assert!(DecodedValue::new(NumericFormat::Single, 0x1_0000_0000).is_none());
    assert!(DecodedValue::new(NumericFormat::Double, u64::MAX).is_some());
    let d = DecodedValue::new(NumericFormat::Single, 7).unwrap();
    assert_eq!(d.format(), NumericFormat::Single);
    assert_eq!(d.raw_bits(), 7);
}

#[test]
fn format_widths() {
    for (f, t, e, m, n) in [
        (NumericFormat::Half, 16, 5, 10, "f16"),
        (NumericFormat::BFloat16, 16, 8, 7, "bf16"),
        (NumericFormat::Single, 32, 8, 23, "f32"),
        (NumericFormat::Double, 64, 11, 52, "f64"),
    ] {
        assert_eq!(f.total_bits(), t);
        assert_eq!(f.exponent_bits(), e);
        assert_eq!(f.mantissa_bits(), m);
        assert_eq!(f.sign_bits() + f.exponent_bits() + f.mantissa_bits(), f.total_bits());
        assert_eq!(f.name(), n);
        let widths: usize = f.fields().iter().map(|s| s.width).sum();
        assert_eq!(widths, t);
    }
    assert_eq!(FieldKind::Mantissa.letter(), "M");
    assert_eq!(FieldKind::Mantissa.full_name(), "Fraction / Mantissa");
    assert_eq!(FieldKind::Exponent.color(), FieldColor::Green);
}

#[test]
fn allowed_type_names() {
    assert_eq!(allowed_type("f16"), Ok(NumericFormat::Half));
    assert_eq!(allowed_type("bf16"), Ok(NumericFormat::BFloat16));
    assert_eq!(allowed_type("f32"), Ok(NumericFormat::Single));
    assert_eq!(allowed_type("f64"), Ok(NumericFormat::Double));
    assert_eq!(
        allowed_type("f128"),
        Err(String::from("Either f16, bf16, f32 or f64 must be specified"))
    );
    assert!(allowed_type("F32").is_err());
    assert!(allowed_type("").is_err());
}

#[test]
fn color_style_names() {
    assert_eq!(color_style("always"), Ok(ColorMode::Always));
    assert_eq!(color_style("always-ansi"), Ok(ColorMode::AlwaysAnsi));
    assert_eq!(color_style("auto"), Ok(ColorMode::Auto));
    assert_eq!(color_style("never"), Ok(ColorMode::Never));
    assert_eq!(
        color_style("sometimes"),
        Err(String::from("Either never, auto, always or always-ansi must be specified"))
    );
}

#[test]
fn type_enabled_rules() {
    assert!(type_enabled(&vec![], NumericFormat::Half));
    assert!(type_enabled(&vec![NumericFormat::Half, NumericFormat::Double], NumericFormat::Double));
    assert!(!type_enabled(&vec![NumericFormat::Single], NumericFormat::Double));
}
