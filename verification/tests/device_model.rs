use rf95modem::Error;
use rf95modem::loradev::LoRaChannels;
use rf95modem::loradev::ModemConfig;
use rf95modem::loradev::RxPacket;
use rf95modem::loradev::Status;

#[test]
fn profile_codes_round_trip() {
    let all = [
        ModemConfig::MediumBw125Cr45Sf128Crc,
        ModemConfig::FastShortBw500Cr45Sf128Crc,
        ModemConfig::SlowLongBw3125Cr48Sf512Crc,
        ModemConfig::SlowLongBw125Cr48Sf4096Crc,
    ];
    for (code, m) in all.iter().enumerate() {
        assert_eq!(m.wire_code(), code);
        assert_eq!(ModemConfig::try_from(code).unwrap(), *m);
    }
}

#[test]
fn profile_code_seven_is_unknown() {
    assert_eq!(ModemConfig::try_from(7).unwrap_err(), Error::UnknownProfile);
    assert_eq!(ModemConfig::try_from(4).unwrap_err(), Error::UnknownProfile);
    assert_eq!(ModemConfig::try_from(usize::MAX).unwrap_err(), Error::UnknownProfile);
}

#[test]
fn channel_table_frequencies() {
    assert_eq!(LoRaChannels::Ch01_868.freq_centi_mhz(), 86810);
    assert_eq!(LoRaChannels::Ch09_868.freq_centi_mhz(), 86880);
    assert_eq!(LoRaChannels::Ch17_868.freq_centi_mhz(), 86800);
    assert_eq!(LoRaChannels::Ch00_900.freq_centi_mhz(), 90308);
    assert_eq!(LoRaChannels::Ch12_900.freq_centi_mhz(), 91500);
}

#[test]
fn fresh_status_defaults() {
    let st = Status::new();
    assert_eq!(st.version, "0.0");
    assert_eq!(st.config, ModemConfig::MediumBw125Cr45Sf128Crc);
    assert_eq!(st.max_pkt_size, 0);
    assert_eq!(st.frequency_centi_mhz, 0);
    assert!(!st.rx_listener);
    assert_eq!(st.rx_bad, 0);
    assert_eq!(st.rx_good, 0);
    assert_eq!(st.tx_good, 0);
    assert_eq!(Status::default(), st);
}

#[test]
fn rx_scenario_well_formed_line() {
    let p = RxPacket::try_from("+RX 2,4142,-42,9\n").unwrap();
    assert_eq!(p.data, vec![0x41, 0x42]);
    assert_eq!(p.rssi, -42);
    assert_eq!(p.snr, 9);
}

#[test]
fn rx_scenario_declared_length_mismatch() {
    assert_eq!(
        RxPacket::try_from("+RX 3,4142,-42,9\n").unwrap_err(),
        Error::LengthMismatch
    );
}

#[test]
fn rx_line_without_prefix_still_parses() {
    let p = RxPacket::try_from("2,4142,-42,9").unwrap();
    assert_eq!(p.data, vec![0x41, 0x42]);
    assert_eq!(p.rssi, -42);
    assert_eq!(p.snr, 9);
}

#[test]
fn rx_wrong_field_count_is_protocol_mismatch() {
    assert_eq!(
        RxPacket::try_from("+RX 2,4142,-42\n").unwrap_err(),
        Error::UnexpectedResponse
    );
    assert_eq!(
        RxPacket::try_from("+RX 2,4142,-42,9,0\n").unwrap_err(),
        Error::UnexpectedResponse
    );
    assert_eq!(RxPacket::try_from("").unwrap_err(), Error::UnexpectedResponse);
}

#[test]
fn rx_undecodable_fields_are_decode_failures() {
    assert_eq!(
        RxPacket::try_from("+RX two,4142,-42,9\n").unwrap_err(),
        Error::Decode
    );
    assert_eq!(
        RxPacket::try_from("+RX 2,41zz,-42,9\n").unwrap_err(),
        Error::Decode
    );
    assert_eq!(
        RxPacket::try_from("+RX 2,4142,loud,9\n").unwrap_err(),
        Error::Decode
    );
    assert_eq!(
        RxPacket::try_from("+RX 2,4142,-42,99999\n").unwrap_err(),
        Error::Decode
    );
}

#[test]
fn rx_empty_payload() {
    let p = RxPacket::try_from("+RX 0,,-100,-3\n").unwrap();
    assert_eq!(p.data, Vec::<u8>::new());
    assert_eq!(p.rssi, -100);
    assert_eq!(p.snr, -3);
}

#[test]
fn error_messages_name_each_class() {
    assert_eq!(Error::Timeout.message(), "read timeout");
    assert_eq!(Error::UnexpectedResponse.message(), "unexpected response from modem");
    assert_eq!(Error::LengthMismatch.message(), "payload length not matching actual length");
    assert_eq!(Error::Decode.message(), "could not decode field in response");
    assert_eq!(Error::UnknownProfile.message(), "unknown modem config code");
    assert_eq!(Error::OpenFailed.message(), "could not open serial device");
    assert_eq!(Error::Io.message(), "i/o error on serial device");
}
