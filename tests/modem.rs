use gsm_alarm::answer::RequestError;
use gsm_alarm::modem::{sms_header_command, ModemAction, Sim900, Sim900State};

const OK: &[u8] = b"AT\r\n\r\nOK\r\n";
const ERR: &[u8] = b"AT\r\n\r\nERROR\r\n";

fn expect_request(a: ModemAction, cmd: &[u8], timeout: u16) {
    match a {
        ModemAction::Request { command, timeout_ms } => {
            assert_eq!(command, cmd.to_vec());
            assert_eq!(timeout_ms, timeout);
        }
        other => panic!("expected a request, got {:?}", other),
    }
}

fn expect_finished(a: ModemAction) -> Result<(), RequestError> {
    match a {
        ModemAction::Finished(r) => r,
        other => panic!("expected the end, got {:?}", other),
    }
}

#[test]
fn power_on_answers_at_once() {
    let mut m = Sim900::new();
    assert_eq!(m.get_state(), Sim900State::Unknown);
    expect_request(m.power_on(), b"AT\r\n", 300);
    assert_eq!(expect_finished(m.advance(Some(OK))), Ok(()));
    assert_eq!(m.get_state(), Sim900State::Good);
    assert!(m.is_ready());
}

#[test]
fn power_on_toggles_then_reprobes() {
    let mut m = Sim900::new();
    expect_request(m.power_on(), b"AT\r\n", 300);
    assert!(matches!(m.advance(None), ModemAction::TogglePower));
    assert_eq!(m.get_state(), Sim900State::NoAnswer);
    assert!(matches!(m.advance(None), ModemAction::Wait { ms: 2000 }));
    expect_request(m.advance(None), b"AT\r\n", 300);
    assert_eq!(expect_finished(m.advance(None)), Err(RequestError::ETimeout));
    assert_eq!(m.get_state(), Sim900State::NoAnswer);
    assert!(m.is_ready());
}

#[test]
fn is_online_probe() {
    let mut m = Sim900::new();
    expect_request(m.is_online(), b"AT\r\n", 300);
    assert_eq!(expect_finished(m.advance(Some(ERR))), Err(RequestError::EAnswerError));
    assert_eq!(m.get_state(), Sim900State::BadAnswer);
}

#[test]
fn setup_full_sequence() {
    let mut m = Sim900::new();
    expect_request(m.setup(), b"AT+CMGF=0\r\n", 300);
    expect_request(m.advance(Some(OK)), b"AT+CBST=71,0,1\r\n", 300);
    expect_request(m.advance(Some(OK)), b"AT+CPIN?\r\n", 1000);
    assert_eq!(expect_finished(m.advance(Some(OK))), Ok(()));
    assert_eq!(m.get_state(), Sim900State::Good);
}

#[test]
fn setup_without_sim() {
    let mut m = Sim900::new();
    expect_request(m.setup(), b"AT+CMGF=0\r\n", 300);
    expect_request(m.advance(Some(OK)), b"AT+CBST=71,0,1\r\n", 300);
    expect_request(m.advance(Some(OK)), b"AT+CPIN?\r\n", 1000);
    assert_eq!(expect_finished(m.advance(Some(ERR))), Err(RequestError::EAnswerError));
    assert_eq!(m.get_state(), Sim900State::NoSim);
}

#[test]
fn setup_stops_at_first_failure() {
    let mut m = Sim900::new();
    expect_request(m.setup(), b"AT+CMGF=0\r\n", 300);
    let garbled = b"AT\r\n\r\n?!\r\n";
    assert_eq!(
        expect_finished(m.advance(Some(garbled))),
        Err(RequestError::EAnswerUnknown(garbled.to_vec()))
    );
    assert_eq!(m.get_state(), Sim900State::BadAnswer);
}

#[test]
fn power_off_toggles_when_answering() {
    let mut m = Sim900::new();
    expect_request(m.power_off(), b"AT\r\n", 300);
    assert!(matches!(m.advance(Some(OK)), ModemAction::TogglePower));
    assert_eq!(expect_finished(m.advance(None)), Ok(()));
    assert_eq!(m.get_state(), Sim900State::Unknown);
}

#[test]
fn power_off_without_answer() {
    let mut m = Sim900::new();
    expect_request(m.power_off(), b"AT\r\n", 300);
    assert_eq!(expect_finished(m.advance(Some(b"AT\r\n"))), Err(RequestError::ENoAnswer));
    assert_eq!(m.get_state(), Sim900State::Unknown);
}

#[test]
fn header_command_digits() {
    assert_eq!(sms_header_command(0), b"AT+CMGS=0\r".to_vec());
    assert_eq!(sms_header_command(59), b"AT+CMGS=59\r".to_vec());
    assert_eq!(sms_header_command(123), b"AT+CMGS=123\r".to_vec());
}

fn good_modem() -> Sim900 {
    let mut m = Sim900::new();
    m.is_online();
    m.advance(Some(OK));
    assert_eq!(m.get_state(), Sim900State::Good);
    m
}

#[test]
fn send_refused_unless_good() {
    let mut m = Sim900::new();
    assert!(m.send_pdu_sms("0001000B91").is_none());
    assert!(m.send_pdu_sms("").is_none());
    assert!(m.send_pdu_sms("0").is_none());
    assert_eq!(m.get_state(), Sim900State::Unknown);
    assert!(m.is_ready());
}

#[test]
fn send_too_short_is_bad_request() {
    let mut m = good_modem();
    assert_eq!(expect_finished(m.send_pdu_sms("0").unwrap()), Err(RequestError::EBadRequest));
    assert_eq!(m.get_state(), Sim900State::BadAnswer);
    assert!(m.is_ready());
    let mut m = good_modem();
    expect_request(m.send_pdu_sms("00").unwrap(), b"AT+CMGS=0\r", 300);
}

#[test]
fn send_pdu_message() {
    let mut m = good_modem();
    let msg = "0001000B919741123274F2";
    let a = m.send_pdu_sms(msg).unwrap();
    expect_request(a, b"AT+CMGS=10\r", 300);
    let mut body = msg.as_bytes().to_vec();
    body.extend_from_slice(b"\x1a\r");
    // the header's reply is not judged
    expect_request(m.advance(Some(b"garbage")), &body, 300);
    assert_eq!(expect_finished(m.advance(Some(OK))), Ok(()));
    assert_eq!(m.get_state(), Sim900State::Good);
}

#[test]
fn send_pdu_failure_is_classified() {
    let mut m = good_modem();
    m.send_pdu_sms("00112233").unwrap();
    m.advance(None);
    assert_eq!(expect_finished(m.advance(None)), Err(RequestError::ETimeout));
    assert_eq!(m.get_state(), Sim900State::NoAnswer);
}

#[test]
fn send_pdu_largest_body_fits() {
    let mut m = good_modem();
    let msg = "0".repeat(198);
    expect_request(m.send_pdu_sms(&msg).unwrap(), b"AT+CMGS=98\r", 300);
    match m.advance(None) {
        ModemAction::Request { command, .. } => assert_eq!(command.len(), 200),
        other => panic!("expected the body, got {:?}", other),
    }
}

#[test]
fn send_pdu_overflow_is_bad_request() {
    let mut m = good_modem();
    let msg = "0".repeat(199);
    expect_request(m.send_pdu_sms(&msg).unwrap(), b"AT+CMGS=98\r", 300);
    assert_eq!(expect_finished(m.advance(None)), Err(RequestError::EBadRequest));
    assert_eq!(m.get_state(), Sim900State::BadAnswer);
    assert!(m.is_ready());
}

#[test]
fn send_text_message() {
    let mut m = Sim900::new();
    let a = m.send_sms("+79141232472", "Alarm!");
    expect_request(a, b"AT+CMGS=\"+79141232472\"\r\n", 300);
    // the header's reply is not judged
    expect_request(m.advance(None), b"Alarm!\x1a\r", 300);
    assert_eq!(expect_finished(m.advance(Some(OK))), Ok(()));
    assert_eq!(m.get_state(), Sim900State::Good);
}

#[test]
fn send_text_header_overflow() {
    let mut m = Sim900::new();
    // 9 + 38 + 3 bytes fill the header exactly; one more overflows it
    let fits = "1".repeat(38);
    expect_request(m.send_sms(&fits, "x"), format!("AT+CMGS=\"{}\"\r\n", fits).as_bytes(), 300);
    let mut m = Sim900::new();
    let long = "1".repeat(39);
    assert_eq!(expect_finished(m.send_sms(&long, "x")), Err(RequestError::EBadRequest));
    assert_eq!(m.get_state(), Sim900State::BadAnswer);
    assert!(m.is_ready());
}

#[test]
fn send_text_body_overflow() {
    let mut m = Sim900::new();
    let long = "x".repeat(99);
    expect_request(m.send_sms("123", &long), b"AT+CMGS=\"123\"\r\n", 300);
    assert_eq!(expect_finished(m.advance(Some(OK))), Err(RequestError::EBadRequest));
    assert_eq!(m.get_state(), Sim900State::BadAnswer);
    let mut m = Sim900::new();
    let fits = "x".repeat(98);
    m.send_sms("123", &fits);
    match m.advance(None) {
        ModemAction::Request { command, .. } => assert_eq!(command.len(), 100),
        other => panic!("expected the body, got {:?}", other),
    }
}
