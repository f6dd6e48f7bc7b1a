use rf95modem::hex::hexify;
use rf95modem::hex::unhexify;
use rf95modem::Error;

#[test]
fn hexify_examples() {
    assert_eq!(hexify(&[]), "");
    assert_eq!(hexify(&[0x00]), "00");
    assert_eq!(hexify(&[0x41, 0x42]), "4142");
    assert_eq!(hexify(&[0xde, 0xad, 0xbe, 0xef]), "deadbeef");
    assert_eq!(hexify(&[0x0f, 0xf0, 0xff]), "0ff0ff");
}

#[test]
fn hexify_shape_is_two_lowercase_digits_per_byte() {
    let data: Vec<u8> = (0u16..=255).map(|b| b as u8).collect();
    let s = hexify(&data);
    assert_eq!(s.len(), 2 * data.len());
    assert!(s.chars().all(|c| c.is_ascii_digit() || ('a'..='f').contains(&c)));
}

#[test]
fn hex_round_trip_all_bytes() {
    let data: Vec<u8> = (0u16..=255).map(|b| b as u8).collect();
    let s = hexify(&data);
    assert_eq!(unhexify(&s).unwrap(), data);
}

#[test]
fn hex_round_trip_empty() {
    assert_eq!(unhexify(&hexify(&[])).unwrap(), Vec::<u8>::new());
}

#[test]
fn unhexify_accepts_uppercase() {
    assert_eq!(unhexify("DEADBEEF").unwrap(), vec![0xde, 0xad, 0xbe, 0xef]);
    assert_eq!(unhexify("aAbB").unwrap(), vec![0xaa, 0xbb]);
}

#[test]
fn unhexify_rejects_odd_length() {
    assert_eq!(unhexify("abc").unwrap_err(), Error::Decode);
    assert_eq!(unhexify("1").unwrap_err(), Error::Decode);
}

#[test]
fn unhexify_rejects_non_hex() {
    assert_eq!(unhexify("zz").unwrap_err(), Error::Decode);
    assert_eq!(unhexify("4g").unwrap_err(), Error::Decode);
    assert_eq!(unhexify("+f").unwrap_err(), Error::Decode);
    assert_eq!(unhexify("41 2").unwrap_err(), Error::Decode);
}

#[test]
fn it_works() {
    assert_eq!(2 + 2, 4);
}
