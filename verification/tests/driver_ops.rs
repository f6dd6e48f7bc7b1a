use rf95modem::Error;
use rf95modem::RF95modem;
use rf95modem::loradev::RF95LoraDevice;
use rf95modem::loradev::LoRaChannels;
use rf95modem::loradev::ModemConfig;
use rf95modem::transport::MockEvent;
use rf95modem::transport::MockTransport;
use rf95modem::transport::Transport;

/// A transport whose device can never be opened nor duplicated.
struct NoDevice;

impl Transport for NoDevice {
    fn open(_device: &str, _baud_rate: u32, _timeout_ms: u64) -> Result<Self, Error> {
        Err(Error::OpenFailed)
    }

    fn write_str(&mut self, _data: &str) -> Result<(), Error> {
        Ok(())
    }

    fn read_line(&mut self) -> Result<String, Error> {
        Err(Error::Timeout)
    }

    fn try_clone(&self) -> Result<Self, Error> {
        Err(Error::Io)
    }
}

fn modem_with(events: &[MockEvent]) -> RF95modem<MockTransport> {
    let mock = MockTransport::with_events(events.to_vec());
    RF95modem::with_port("/dev/mock", 115200, mock)
}

fn line(s: &str) -> MockEvent {
    MockEvent::Line(s.to_string())
}

fn written(m: RF95modem<MockTransport>) -> Vec<String> {
    m.port.unwrap().written
}

#[test]
fn new_handle_is_unopened() {
    let m: RF95modem<MockTransport> = RF95modem::new("/dev/mock", 115200);
    assert_eq!(m.device, "/dev/mock");
    assert_eq!(m.baud_rate, 115200);
    assert_eq!(m.timeout_ms, 1000);
    assert!(m.port.is_none());
}

#[test]
fn open_establishes_a_connection() {
    let mut m: RF95modem<MockTransport> = RF95modem::new("/dev/mock", 115200);
    m.open().unwrap();
    assert!(m.port.is_some());
}

#[test]
fn operations_auto_open_an_unopened_handle() {
    // the freshly opened mock has an empty script, so the read times out,
    // but the handle is open afterwards and the command went out
    let mut m: RF95modem<MockTransport> = RF95modem::new("/dev/mock", 115200);
    assert_eq!(m.send_data(vec![1]).unwrap_err(), Error::Timeout);
    assert_eq!(written(m), vec!["AT+TX=01\n"]);
}

#[test]
fn send_scenario_ok() {
    let mut m = modem_with(&[line("+SENT 4 OK\n")]);
    assert_eq!(m.send_data(vec![0x01, 0x02, 0x03, 0x04]).unwrap(), 4);
    assert_eq!(written(m), vec!["AT+TX=01020304\n"]);
}

#[test]
fn send_scenario_count_mismatch() {
    let mut m = modem_with(&[line("+SENT 3 OK\n")]);
    assert_eq!(
        m.send_data(vec![0x01, 0x02, 0x03, 0x04]).unwrap_err(),
        Error::LengthMismatch
    );
}

#[test]
fn send_scenario_protocol_mismatch() {
    let mut m = modem_with(&[line("+ERR\n")]);
    assert_eq!(
        m.send_data(vec![0x01, 0x02, 0x03, 0x04]).unwrap_err(),
        Error::UnexpectedResponse
    );
}

#[test]
fn receive_scenario_ok() {
    let mut m = modem_with(&[line("+RX 2,4142,-42,9\n")]);
    let p = m.read_packet().unwrap();
    assert_eq!(p.data, vec![0x41, 0x42]);
    assert_eq!(p.rssi, -42);
    assert_eq!(p.snr, 9);
    // receive writes no command
    assert_eq!(written(m), Vec::<String>::new());
}

#[test]
fn receive_scenario_length_mismatch() {
    let mut m = modem_with(&[line("+RX 3,4142,-42,9\n")]);
    assert_eq!(m.read_packet().unwrap_err(), Error::LengthMismatch);
}

#[test]
fn receive_skips_lines_until_rx() {
    let mut m = modem_with(&[
        line("+OK\n"),
        line("noise\n"),
        line("+RX 1,ff,-10,2\n"),
    ]);
    let p = m.read_packet().unwrap();
    assert_eq!(p.data, vec![0xff]);
}

#[test]
fn config_scenario_full_report() {
    let mut m = modem_with(&[
        line("firmware: 1.7\n"),
        line("max pkt size: 251\n"),
        line("frequency: 868.10\n"),
        line("rx listener: 1\n"),
        line("rx bad: 0\n"),
        line("rx good: 3\n"),
        line("tx good: 5\n"),
        line("modem config: 0 | Bw125Cr45Sf128\n"),
        line("+OK\n"),
    ]);
    let st = m.config().unwrap();
    assert_eq!(st.version, "1.7");
    assert_eq!(st.max_pkt_size, 251);
    assert_eq!(st.frequency_centi_mhz, 86810);
    assert!(st.rx_listener);
    assert_eq!(st.rx_bad, 0);
    assert_eq!(st.rx_good, 3);
    assert_eq!(st.tx_good, 5);
    assert_eq!(st.config, ModemConfig::MediumBw125Cr45Sf128Crc);
    assert_eq!(written(m), vec!["AT+INFO\n"]);
}

#[test]
fn config_ignores_unknown_lines_and_stops_at_ok() {
    let mut m = modem_with(&[
        line("something new\n"),
        line("rx good: 3\n"),
        line("+OK\n"),
        line("rx good: 9\n"),
    ]);
    let st = m.config().unwrap();
    assert_eq!(st.rx_good, 3);
    // the line after the terminator was not consumed
    assert_eq!(m.port.as_ref().unwrap().events.len(), 1);
}

#[test]
fn set_frequency_writes_command_and_expects_ack() {
    let mut m = modem_with(&[line("+FREQ: 868.10\n")]);
    m.set_frequency(86810).unwrap();
    assert_eq!(written(m), vec!["AT+FREQ=868.10\n"]);
}

#[test]
fn set_frequency_rejects_other_reply() {
    let mut m = modem_with(&[line("+OK\n")]);
    assert_eq!(m.set_frequency(86810).unwrap_err(), Error::UnexpectedResponse);
}

#[test]
fn set_channel_delegates_to_set_frequency() {
    let mut m = modem_with(&[line("+FREQ: 915.00\n")]);
    m.set_channel(LoRaChannels::Ch12_900).unwrap();
    assert_eq!(written(m), vec!["AT+FREQ=915.00\n"]);
}

#[test]
fn set_mode_writes_command_and_expects_ok() {
    let mut m = modem_with(&[line("+OK\n")]);
    m.set_mode(ModemConfig::FastShortBw500Cr45Sf128Crc).unwrap();
    assert_eq!(written(m), vec!["AT+MODE=1\n"]);
}

#[test]
fn set_mode_rejects_other_reply() {
    let mut m = modem_with(&[line("+ERR\n")]);
    assert_eq!(
        m.set_mode(ModemConfig::FastShortBw500Cr45Sf128Crc).unwrap_err(),
        Error::UnexpectedResponse
    );
}

#[test]
fn timeout_is_distinct_from_io_error_for_every_waiting_operation() {
    // a scripted timeout surfaces as Error::Timeout ...
    let mut m = modem_with(&[MockEvent::TimedOut]);
    assert_eq!(m.config().unwrap_err(), Error::Timeout);
    let mut m = modem_with(&[MockEvent::TimedOut]);
    assert_eq!(m.set_frequency(86810).unwrap_err(), Error::Timeout);
    let mut m = modem_with(&[MockEvent::TimedOut]);
    assert_eq!(m.set_mode(ModemConfig::MediumBw125Cr45Sf128Crc).unwrap_err(), Error::Timeout);
    let mut m = modem_with(&[MockEvent::TimedOut]);
    assert_eq!(m.send_data(vec![1, 2]).unwrap_err(), Error::Timeout);
    let mut m = modem_with(&[MockEvent::TimedOut]);
    assert_eq!(m.read_packet().unwrap_err(), Error::Timeout);
    let mut m = modem_with(&[MockEvent::TimedOut]);
    assert_eq!(m.read_line().unwrap_err(), Error::Timeout);
    // ... while another read failure surfaces as Error::Io
    let mut m = modem_with(&[MockEvent::IoFailed]);
    assert_eq!(m.config().unwrap_err(), Error::Io);
    let mut m = modem_with(&[MockEvent::IoFailed]);
    assert_eq!(m.read_packet().unwrap_err(), Error::Io);
    assert_ne!(Error::Timeout, Error::Io);
}

#[test]
fn config_timeout_midway_fails_whole_query() {
    let mut m = modem_with(&[line("firmware: 1.7\n"), MockEvent::TimedOut]);
    assert_eq!(m.config().unwrap_err(), Error::Timeout);
}

#[test]
fn read_line_returns_raw_line() {
    let mut m = modem_with(&[line("anything goes\n")]);
    assert_eq!(m.read_line().unwrap(), "anything goes\n");
}

#[test]
fn raw_write_goes_straight_through() {
    let mut m = modem_with(&[]);
    m.raw_write("AT+HELP\n").unwrap();
    assert_eq!(written(m), vec!["AT+HELP\n"]);
}

#[test]
fn open_failure_surfaces_as_open_failed() {
    let mut m: RF95modem<NoDevice> = RF95modem::new("/dev/absent", 115200);
    assert_eq!(m.open().unwrap_err(), Error::OpenFailed);
    assert!(m.port.is_none());
    // auto-opening operations surface the same failure
    assert_eq!(m.config().unwrap_err(), Error::OpenFailed);
    assert_eq!(m.send_data(vec![1]).unwrap_err(), Error::OpenFailed);
    assert_eq!(m.read_packet().unwrap_err(), Error::OpenFailed);
}

#[test]
fn try_clone_failure_surfaces_as_io_error() {
    let m: RF95modem<NoDevice> = RF95modem::with_port("/dev/absent", 115200, NoDevice);
    assert!(matches!(m.try_clone(), Err(Error::Io)));
}

#[test]
fn try_clone_duplicates_open_state() {
    let m = modem_with(&[line("+OK\n")]);
    let c = m.try_clone().unwrap();
    assert_eq!(c.device, "/dev/mock");
    assert_eq!(c.baud_rate, 115200);
    assert!(c.port.is_some());

    let u: RF95modem<MockTransport> = RF95modem::new("/dev/mock", 9600);
    let cu = u.try_clone().unwrap();
    assert!(cu.port.is_none());
}
