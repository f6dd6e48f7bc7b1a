use rf95modem::Error;
use rf95modem::loradev::ModemConfig;
use rf95modem::protocol::freq_command;
use rf95modem::protocol::info_command;
use rf95modem::protocol::match_split;
use rf95modem::protocol::mode_command;
use rf95modem::protocol::parse_send_response;
use rf95modem::protocol::parse_status;
use rf95modem::protocol::tx_command;

fn lines(raw: &[&str]) -> Vec<String> {
    raw.iter().map(|s| s.to_string()).collect()
}

#[test]
fn status_scenario_full_report() {
    let input = lines(&[
        "firmware: 1.7\n",
        "max pkt size: 251\n",
        "frequency: 868.10\n",
        "rx listener: 1\n",
        "rx bad: 0\n",
        "rx good: 3\n",
        "tx good: 5\n",
        "modem config: 0 | Bw125Cr45Sf128\n",
        "+OK\n",
    ]);
    let st = parse_status(&input).unwrap();
    assert_eq!(st.version, "1.7");
    assert_eq!(st.max_pkt_size, 251);
    assert_eq!(st.frequency_centi_mhz, 86810);
    assert!(st.rx_listener);
    assert_eq!(st.rx_bad, 0);
    assert_eq!(st.rx_good, 3);
    assert_eq!(st.tx_good, 5);
    assert_eq!(st.config, ModemConfig::MediumBw125Cr45Sf128Crc);
}

#[test]
fn status_ignores_unrecognized_lines() {
    let plain = lines(&["firmware: 1.7\n", "+OK\n"]);
    let noisy = lines(&[
        "hello there\n",
        "firmware: 1.7\n",
        "some new field: 42\n",
        "firmware without colon\n",
        "+OK\n",
    ]);
    assert_eq!(parse_status(&plain).unwrap(), parse_status(&noisy).unwrap());
}

#[test]
fn status_stops_at_first_ok_line() {
    let input = lines(&[
        "max pkt size: 251\n",
        "+OK\n",
        "max pkt size: 999\n",
        "rx good: 7\n",
        "+OK\n",
    ]);
    let st = parse_status(&input).unwrap();
    assert_eq!(st.max_pkt_size, 251);
    assert_eq!(st.rx_good, 0);
}

#[test]
fn status_without_terminator_is_protocol_mismatch() {
    let input = lines(&["firmware: 1.7\n"]);
    assert_eq!(parse_status(&input).unwrap_err(), Error::UnexpectedResponse);
}

#[test]
fn status_bad_number_is_decode_failure() {
    let input = lines(&["max pkt size: lots\n", "+OK\n"]);
    assert_eq!(parse_status(&input).unwrap_err(), Error::Decode);
}

#[test]
fn status_unknown_profile_code_fails() {
    let input = lines(&["modem config: 7 | Whatever\n", "+OK\n"]);
    assert_eq!(parse_status(&input).unwrap_err(), Error::UnknownProfile);
}

#[test]
fn match_split_extracts_trimmed_value() {
    assert_eq!(match_split("firmware: 1.7\n", "firmware").unwrap(), "1.7");
    assert_eq!(match_split("rx bad:   0  \n", "rx bad").unwrap(), "0");
    assert_eq!(match_split("frequency: 868.10\n", "firmware"), None);
    assert_eq!(match_split("firmware 1.7\n", "firmware"), None);
    // only the text between the first and the second colon counts
    assert_eq!(match_split("firmware: a:b\n", "firmware").unwrap(), "a");
}

#[test]
fn send_scenario_matching_count() {
    assert_eq!(parse_send_response("+SENT 4 OK\n", 4).unwrap(), 4);
}

#[test]
fn send_scenario_mismatching_count() {
    assert_eq!(
        parse_send_response("+SENT 3 OK\n", 4).unwrap_err(),
        Error::LengthMismatch
    );
}

#[test]
fn send_scenario_unexpected_line() {
    assert_eq!(
        parse_send_response("+ERR\n", 4).unwrap_err(),
        Error::UnexpectedResponse
    );
    assert_eq!(
        parse_send_response("+SENT 4 OK extra\n", 4).unwrap_err(),
        Error::UnexpectedResponse
    );
    assert_eq!(
        parse_send_response("+SENT 4\n", 4).unwrap_err(),
        Error::UnexpectedResponse
    );
}

#[test]
fn send_non_numeric_count_is_decode_failure() {
    assert_eq!(
        parse_send_response("+SENT four OK\n", 4).unwrap_err(),
        Error::Decode
    );
}

#[test]
fn command_framing() {
    assert_eq!(info_command(), "AT+INFO\n");
    assert_eq!(mode_command(ModemConfig::MediumBw125Cr45Sf128Crc), "AT+MODE=0\n");
    assert_eq!(mode_command(ModemConfig::SlowLongBw125Cr48Sf4096Crc), "AT+MODE=3\n");
    assert_eq!(freq_command(86810), "AT+FREQ=868.10\n");
    assert_eq!(freq_command(91500), "AT+FREQ=915.00\n");
    assert_eq!(freq_command(43305), "AT+FREQ=433.05\n");
    assert_eq!(tx_command(&[0x01, 0x02, 0xff]), "AT+TX=0102ff\n");
    assert_eq!(tx_command(&[]), "AT+TX=\n");
}
