use rf95modem::num::parse_centi_mhz;
use rf95modem::num::parse_i16;
use rf95modem::num::parse_usize;
use rf95modem::num::u32_dec;

#[test]
fn frequency_forms() {
    assert_eq!(parse_centi_mhz("868"), Some(86800));
    assert_eq!(parse_centi_mhz("868."), Some(86800));
    assert_eq!(parse_centi_mhz("868.1"), Some(86810));
    assert_eq!(parse_centi_mhz("868.10"), Some(86810));
    assert_eq!(parse_centi_mhz("0.05"), Some(5));
    assert_eq!(parse_centi_mhz("868.105"), None);
    assert_eq!(parse_centi_mhz("8 68"), None);
    assert_eq!(parse_centi_mhz(".5"), None);
    assert_eq!(parse_centi_mhz(""), None);
    assert_eq!(parse_centi_mhz("999999999"), None);
}

#[test]
fn unsigned_parse_forms() {
    assert_eq!(parse_usize("0"), Some(0));
    assert_eq!(parse_usize("251"), Some(251));
    assert_eq!(parse_usize("+7"), Some(7));
    assert_eq!(parse_usize(""), None);
    assert_eq!(parse_usize("+"), None);
    assert_eq!(parse_usize("-1"), None);
    assert_eq!(parse_usize("1.5"), None);
    assert_eq!(parse_usize("99999999999999999999999"), None);
}

#[test]
fn signed_parse_forms() {
    assert_eq!(parse_i16("-42"), Some(-42));
    assert_eq!(parse_i16("9"), Some(9));
    assert_eq!(parse_i16("+9"), Some(9));
    assert_eq!(parse_i16("-32768"), Some(-32768));
    assert_eq!(parse_i16("32767"), Some(32767));
    assert_eq!(parse_i16("-32769"), None);
    assert_eq!(parse_i16("32768"), None);
    assert_eq!(parse_i16("-"), None);
    assert_eq!(parse_i16(""), None);
}

#[test]
fn decimal_formatting() {
    assert_eq!(u32_dec(0), "0");
    assert_eq!(u32_dec(7), "7");
    assert_eq!(u32_dec(868), "868");
    assert_eq!(u32_dec(4294967295), "4294967295");
}
