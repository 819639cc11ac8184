//! The GSM modem driver. Each operation is a short script of AT-command
//! exchanges, power toggles and waits; the driver decides the script's next
//! step from the outcome of the previous one, and the caller performs it.
use vstd::prelude::*;
use vstd::string::StringSliceAdditionalSpecFns;
use crate::answer::{classify_reply, reply_class, reply_of, Reply, RequestError};
use crate::buffer::{
    empty_header, empty_message, empty_text, header_to_vec, message_to_vec, push_header,
    push_message, push_text, text_to_vec, HEADER_CAPACITY, MESSAGE_CAPACITY, TEXT_CAPACITY,
};

verus! {

/// Time allowed for an ordinary reply, in milliseconds.
pub const REQUEST_TIMEOUT_MS: u16 = 300;

/// Time allowed for the reply to the SIM status query, in milliseconds.
pub const SIM_TIMEOUT_MS: u16 = 1000;

/// Pause after a power toggle before the modem is probed again, in milliseconds.
pub const POWER_SETTLE_MS: u16 = 2000;

/// What the driver knows of the modem, from the last exchange it classified.
#[derive(Clone, Copy, Debug, PartialEq, Eq, Structural)]
pub enum Sim900State {
    Unknown,
    Good,
    NoAnswer,
    BadAnswer,
    NoSim,
}

/// The modem's status after an exchange of class `c`.
pub open spec fn status_after(c: Reply) -> Sim900State {
    match c {
        Reply::Success => Sim900State::Good,
        Reply::AnswerError | Reply::AnswerUnknown | Reply::BadRequest => Sim900State::BadAnswer,
        _ => Sim900State::NoAnswer,
    }
}

/// "AT\r\n": the probe that a powered modem answers.
pub open spec fn probe_cmd() -> Seq<u8> {
    seq![0x41u8, 0x54u8, 0x0du8, 0x0au8]
}

/// "AT+CMGF=0\r\n": selects binary (PDU) message mode.
pub open spec fn pdu_mode_cmd() -> Seq<u8> {
    seq![0x41u8, 0x54u8, 0x2bu8, 0x43u8, 0x4du8, 0x47u8, 0x46u8, 0x3du8, 0x30u8, 0x0du8, 0x0au8]
}

/// "AT+CBST=71,0,1\r\n": selects the data link rate.
pub open spec fn data_mode_cmd() -> Seq<u8> {
    seq![
        0x41u8, 0x54u8, 0x2bu8, 0x43u8, 0x42u8, 0x53u8, 0x54u8, 0x3du8,
        0x37u8, 0x31u8, 0x2cu8, 0x30u8, 0x2cu8, 0x31u8,
        0x0du8, 0x0au8,
    ]
}

/// "AT+CPIN?\r\n": asks for the SIM status.
pub open spec fn sim_status_cmd() -> Seq<u8> {
    seq![0x41u8, 0x54u8, 0x2bu8, 0x43u8, 0x50u8, 0x49u8, 0x4eu8, 0x3fu8, 0x0du8, 0x0au8]
}

/// The decimal digits of `n`, most significant first.
pub open spec fn decimal(n: nat) -> Seq<u8>
    decreases n,
{
    if n < 10 {
        seq![(0x30u8 + n) as u8]
    } else {
        decimal(n / 10).push((0x30u8 + n % 10) as u8)
    }
}

/// "AT+CMGS=<n>\r": announces a PDU message of `n` octets.
pub open spec fn sms_header_cmd(n: nat) -> Seq<u8> {
    seq![0x41u8, 0x54u8, 0x2bu8, 0x43u8, 0x4du8, 0x47u8, 0x53u8, 0x3du8] + decimal(n) + seq![0x0du8]
}

/// The octet count announced for a hex-encoded PDU of `len` bytes.
pub open spec fn pdu_octets(len: nat) -> nat {
    ((len - 2) / 2) as nat
}

/// Control-Z and carriage return: submits a message.
pub open spec fn submit_suffix() -> Seq<u8> {
    seq![0x1au8, 0x0du8]
}

/// The bytes sent as a message's body, or `None` when they overflow the buffer.
pub open spec fn payload_for(msg: Seq<u8>) -> Option<Seq<u8>> {
    if msg.len() + 2 <= MESSAGE_CAPACITY {
        Some(msg + submit_suffix())
    } else {
        None
    }
}

/// "AT+CMGS=\"": opens a text-mode send header.
pub open spec fn text_send_prefix() -> Seq<u8> {
    seq![0x41u8, 0x54u8, 0x2bu8, 0x43u8, 0x4du8, 0x47u8, 0x53u8, 0x3du8, 0x22u8]
}

/// The text-mode header that addresses `telephone`, or `None` when it
/// overflows its buffer.
pub open spec fn text_header_for(telephone: Seq<u8>) -> Option<Seq<u8>> {
    if text_send_prefix().len() + telephone.len() + 3 <= HEADER_CAPACITY {
        Some(text_send_prefix() + telephone + seq![0x22u8, 0x0du8, 0x0au8])
    } else {
        None
    }
}

/// The bytes sent as a text-mode message's body, or `None` when they
/// overflow the buffer.
pub open spec fn text_payload_for(msg: Seq<u8>) -> Option<Seq<u8>> {
    if msg.len() + 2 <= TEXT_CAPACITY {
        Some(msg + submit_suffix())
    } else {
        None
    }
}

fn probe_command() -> (r: Vec<u8>)
    ensures
        r@ == probe_cmd(),
{
    let r = vec![0x41u8, 0x54u8, 0x0du8, 0x0au8];
    assert(r@ =~= probe_cmd());
    r
}

fn pdu_mode_command() -> (r: Vec<u8>)
    ensures
        r@ == pdu_mode_cmd(),
{
    let r = vec![0x41u8, 0x54u8, 0x2bu8, 0x43u8, 0x4du8, 0x47u8, 0x46u8, 0x3du8, 0x30u8, 0x0du8, 0x0au8];
    assert(r@ =~= pdu_mode_cmd());
    r
}

fn data_mode_command() -> (r: Vec<u8>)
    ensures
        r@ == data_mode_cmd(),
{
    let r = vec![
        0x41u8, 0x54u8, 0x2bu8, 0x43u8, 0x42u8, 0x53u8, 0x54u8, 0x3du8,
        0x37u8, 0x31u8, 0x2cu8, 0x30u8, 0x2cu8, 0x31u8,
        0x0du8, 0x0au8,
    ];
    assert(r@ =~= data_mode_cmd());
    r
}

fn sim_status_command() -> (r: Vec<u8>)
    ensures
        r@ == sim_status_cmd(),
{
    let r = vec![0x41u8, 0x54u8, 0x2bu8, 0x43u8, 0x50u8, 0x49u8, 0x4eu8, 0x3fu8, 0x0du8, 0x0au8];
    assert(r@ =~= sim_status_cmd());
    r
}

/// Appends the decimal digits of `n`.
fn push_decimal(out: &mut Vec<u8>, n: usize)
    ensures
        final(out)@ == old(out)@ + decimal(n as nat),
    decreases n,
{
    if n >= 10 {
        push_decimal(out, n / 10);
    }
    out.push(0x30u8 + (n % 10) as u8);
    assert(final(out)@ =~= old(out)@ + decimal(n as nat));
}

/// The header that announces a PDU message of `n` octets.
pub fn sms_header_command(n: usize) -> (r: Vec<u8>)
    ensures
        r@ == sms_header_cmd(n as nat),
{
    let mut r = vec![0x41u8, 0x54u8, 0x2bu8, 0x43u8, 0x4du8, 0x47u8, 0x53u8, 0x3du8];
    push_decimal(&mut r, n);
    r.push(0x0du8);
    assert(r@ =~= sms_header_cmd(n as nat));
    r
}

/// What the caller is to do next for the operation in progress.
#[derive(Debug)]
pub enum ModemAction {
    /// Write `command`, then wait up to `timeout_ms` for a reply line and hand
    /// back what arrived (`None` when nothing did).
    Request { command: Vec<u8>, timeout_ms: u16 },
    /// Pulse the modem's power-control line: high, a settle time, low.
    TogglePower,
    /// Wait `ms` milliseconds.
    Wait { ms: u16 },
    /// The operation is over, with this outcome.
    Finished(Result<(), RequestError>),
}

/// Where the driver stands within an operation.
#[derive(Clone, Copy, Debug, PartialEq, Eq, Structural)]
pub enum ModemPhase {
    /// No operation in progress.
    Ready,
    /// Awaiting the reply to a lone probe.
    OnlineProbe,
    /// Power-on: awaiting the reply to the first probe.
    PowerOnProbe,
    /// Power-on: the power toggle is under way.
    PowerOnToggle,
    /// Power-on: waiting for the modem to settle.
    PowerOnSettle,
    /// Power-on: awaiting the reply to the second probe.
    PowerOnReprobe,
    /// Configure: awaiting the reply to the message-mode command.
    SetupPdu,
    /// Configure: awaiting the reply to the link-rate command.
    SetupData,
    /// Configure: awaiting the reply to the SIM status query.
    SetupSim,
    /// Power-off: awaiting the reply to the probe.
    PowerOffProbe,
    /// Power-off: the power toggle is under way.
    PowerOffToggle,
    /// Sending: awaiting the reply to the header.
    SendHeader,
    /// Sending: awaiting the reply to the message body.
    SendPayload,
}

/// The bytes of a reply as the driver receives it.
pub open spec fn reply_bytes(reply: Option<&[u8]>) -> Option<Seq<u8>> {
    match reply {
        Some(b) => Some(b@),
        None => None,
    }
}

/// `a` asks to send `cmd` and wait up to `timeout` for the reply.
pub open spec fn requests(a: ModemAction, cmd: Seq<u8>, timeout: u16) -> bool {
    a matches ModemAction::Request { command, timeout_ms } && command@ == cmd && timeout_ms == timeout
}

/// `a` ends the operation with the classification of `reply`, keeping the
/// text of an unknown reply.
pub open spec fn finishes_with(a: ModemAction, reply: Option<Seq<u8>>) -> bool {
    &&& a matches ModemAction::Finished(r)
    &&& reply_of(r) == reply_class(reply)
    &&& r matches Err(RequestError::EAnswerUnknown(t)) ==> reply == Some(t@)
}

/// One step of the operation in progress: from phase `ph` and status `st`,
/// with the message body `payload` prepared and the reply `reply` to the
/// step just performed, the driver moves to phase `nph` and status `nst` and
/// asks for action `a`.
pub open spec fn modem_step(
    ph: ModemPhase,
    st: Sim900State,
    payload: Option<Seq<u8>>,
    reply: Option<Seq<u8>>,
    nph: ModemPhase,
    nst: Sim900State,
    a: ModemAction,
) -> bool {
    let c = reply_class(reply);
    match ph {
        ModemPhase::Ready => false,
        ModemPhase::OnlineProbe => nst == status_after(c) && nph == ModemPhase::Ready
            && finishes_with(a, reply),
        ModemPhase::PowerOnProbe => nst == status_after(c) && if c == Reply::Success {
            nph == ModemPhase::Ready && finishes_with(a, reply)
        } else {
            nph == ModemPhase::PowerOnToggle && a is TogglePower
        },
        ModemPhase::PowerOnToggle => nst == st && nph == ModemPhase::PowerOnSettle
            && (a matches ModemAction::Wait { ms } && ms == POWER_SETTLE_MS),
        ModemPhase::PowerOnSettle => nst == st && nph == ModemPhase::PowerOnReprobe
            && requests(a, probe_cmd(), REQUEST_TIMEOUT_MS),
        ModemPhase::PowerOnReprobe => nst == status_after(c) && nph == ModemPhase::Ready
            && finishes_with(a, reply),
        ModemPhase::SetupPdu => nst == status_after(c) && if c == Reply::Success {
            nph == ModemPhase::SetupData && requests(a, data_mode_cmd(), REQUEST_TIMEOUT_MS)
        } else {
            nph == ModemPhase::Ready && finishes_with(a, reply)
        },
        ModemPhase::SetupData => nst == status_after(c) && if c == Reply::Success {
            nph == ModemPhase::SetupSim && requests(a, sim_status_cmd(), SIM_TIMEOUT_MS)
        } else {
            nph == ModemPhase::Ready && finishes_with(a, reply)
        },
        ModemPhase::SetupSim => nst == (if c == Reply::AnswerError {
            Sim900State::NoSim
        } else {
            status_after(c)
        }) && nph == ModemPhase::Ready && finishes_with(a, reply),
        ModemPhase::PowerOffProbe => nst == st && if c == Reply::Success {
            nph == ModemPhase::PowerOffToggle && a is TogglePower
        } else {
            nph == ModemPhase::Ready && finishes_with(a, reply)
        },
        ModemPhase::PowerOffToggle => nst == st && nph == ModemPhase::Ready
            && (a matches ModemAction::Finished(Ok(()))),
        ModemPhase::SendHeader => match payload {
            None => nst == Sim900State::BadAnswer && nph == ModemPhase::Ready
                && (a matches ModemAction::Finished(Err(RequestError::EBadRequest))),
            Some(p) => nst == st && nph == ModemPhase::SendPayload
                && requests(a, p, REQUEST_TIMEOUT_MS),
        },
        ModemPhase::SendPayload => nst == status_after(c) && nph == ModemPhase::Ready
            && finishes_with(a, reply),
    }
}

/// The driver of a SIM900-style GSM modem.
pub struct Sim900 {
    state: Sim900State,
    phase: ModemPhase,
    payload: Option<Vec<u8>>,
}

impl Sim900 {
    /// The modem's status as last classified.
    pub closed spec fn status(&self) -> Sim900State {
        self.state
    }

    /// The step of the operation in progress.
    pub closed spec fn phase(&self) -> ModemPhase {
        self.phase
    }

    /// The message body prepared by the last send, if it fit.
    pub closed spec fn payload(&self) -> Option<Seq<u8>> {
        match self.payload {
            Some(p) => Some(p@),
            None => None,
        }
    }

    /// A driver that knows nothing of the modem yet.
    pub fn new() -> (r: Sim900)
        ensures
            r.status() == Sim900State::Unknown,
            r.phase() == ModemPhase::Ready,
    {
        Sim900 { state: Sim900State::Unknown, phase: ModemPhase::Ready, payload: None }
    }

    /// The modem's status as last classified.
    pub fn get_state(&self) -> (r: Sim900State)
        ensures
            r == self.status(),
    {
        self.state
    }

    /// Whether no operation is in progress.
    pub fn is_ready(&self) -> (r: bool)
        ensures
            r == (self.phase() == ModemPhase::Ready),
    {
        self.phase == ModemPhase::Ready
    }

    /// Records the outcome of an exchange in the modem's status.
    fn handle_request(&mut self, x: Result<(), RequestError>) -> (r: Result<(), RequestError>)
        ensures
            final(self).state == status_after(reply_of(x)),
            final(self).phase == old(self).phase,
            final(self).payload == old(self).payload,
            r == x,
    {
        match x {
            Ok(_) => self.state = Sim900State::Good,
            Err(RequestError::EBadRequest) => self.state = Sim900State::BadAnswer,
            Err(RequestError::EAnswerError) => self.state = Sim900State::BadAnswer,
            Err(RequestError::EAnswerUnknown(_)) => self.state = Sim900State::BadAnswer,
            Err(RequestError::ENoDevice)
            | Err(RequestError::ENoAnswer)
            | Err(RequestError::ETimeout) => self.state = Sim900State::NoAnswer,
        }
        x
    }

    /// Starts a lone probe: whether the modem answers at all.
    pub fn is_online(&mut self) -> (a: ModemAction)
        requires
            old(self).phase() == ModemPhase::Ready,
        ensures
            final(self).phase() == ModemPhase::OnlineProbe,
            final(self).status() == old(self).status(),
            requests(a, probe_cmd(), REQUEST_TIMEOUT_MS),
    {
        self.phase = ModemPhase::OnlineProbe;
        ModemAction::Request { command: probe_command(), timeout_ms: REQUEST_TIMEOUT_MS }
    }

    /// Starts powering the modem on: done at once if it answers a probe,
    /// else after a power toggle, a settle time and a second probe.
    pub fn power_on(&mut self) -> (a: ModemAction)
        requires
            old(self).phase() == ModemPhase::Ready,
        ensures
            final(self).phase() == ModemPhase::PowerOnProbe,
            final(self).status() == old(self).status(),
            requests(a, probe_cmd(), REQUEST_TIMEOUT_MS),
    {
        self.phase = ModemPhase::PowerOnProbe;
        ModemAction::Request { command: probe_command(), timeout_ms: REQUEST_TIMEOUT_MS }
    }

    /// Starts configuring the modem: message mode, link rate, then the SIM
    /// status; an error marker at that last step means the SIM is missing.
    pub fn setup(&mut self) -> (a: ModemAction)
        requires
            old(self).phase() == ModemPhase::Ready,
        ensures
            final(self).phase() == ModemPhase::SetupPdu,
            final(self).status() == old(self).status(),
            requests(a, pdu_mode_cmd(), REQUEST_TIMEOUT_MS),
    {
        self.phase = ModemPhase::SetupPdu;
        ModemAction::Request { command: pdu_mode_command(), timeout_ms: REQUEST_TIMEOUT_MS }
    }

    /// Starts powering the modem off: a probe, and a power toggle if it answered.
    pub fn power_off(&mut self) -> (a: ModemAction)
        requires
            old(self).phase() == ModemPhase::Ready,
        ensures
            final(self).phase() == ModemPhase::PowerOffProbe,
            final(self).status() == old(self).status(),
            requests(a, probe_cmd(), REQUEST_TIMEOUT_MS),
    {
        self.phase = ModemPhase::PowerOffProbe;
        ModemAction::Request { command: probe_command(), timeout_ms: REQUEST_TIMEOUT_MS }
    }

    /// Starts sending the hex-encoded PDU message `msg`. Only a modem whose
    /// last status is good is asked to send: otherwise `None`, and nothing
    /// changes. A message too short to hold a PDU ends the operation at once
    /// with `EBadRequest`. The header's reply is not judged, as some modems do
    /// not echo it reliably; the message body must fit its buffer, else the
    /// operation ends with `EBadRequest` after the header.
    pub fn send_pdu_sms(&mut self, msg: &str) -> (a: Option<ModemAction>)
        requires
            old(self).phase() == ModemPhase::Ready,
        ensures
            old(self).status() != Sim900State::Good ==> a is None && *final(self) == *old(self),
            old(self).status() == Sim900State::Good && (msg.spec_bytes().len() as usize) < 2 ==> {
                &&& (a matches Some(ModemAction::Finished(Err(RequestError::EBadRequest))))
                &&& final(self).phase() == ModemPhase::Ready
                &&& final(self).status() == Sim900State::BadAnswer
            },
            old(self).status() == Sim900State::Good && (msg.spec_bytes().len() as usize) >= 2 ==> {
                &&& (a matches Some(x) && requests(
                    x,
                    sms_header_cmd(pdu_octets((msg.spec_bytes().len() as usize) as nat)),
                    REQUEST_TIMEOUT_MS,
                ))
                &&& final(self).phase() == ModemPhase::SendHeader
                &&& final(self).status() == old(self).status()
                &&& final(self).payload() == payload_for(msg.spec_bytes())
            },
    {
        if self.state != Sim900State::Good {
            return None;
        }
        let len = msg.len();
        if len < 2 {
            let r = self.handle_request(Err(RequestError::EBadRequest));
            return Some(ModemAction::Finished(r));
        }
        let header = sms_header_command((len - 2) / 2);
        let mut body = empty_message();
        let suffix = "\x1a\r";
        proof {
            reveal_strlit("\x1a\r");
            vstd::utf8::is_ascii_chars_encode_utf8(suffix@);
            assert(suffix.spec_bytes() =~= submit_suffix());
        }
        let pushed = push_message(&mut body, msg);
        let payload = if pushed.is_ok() && push_message(&mut body, suffix).is_ok() {
            Some(message_to_vec(&body))
        } else {
            None
        };
        assert(payload matches Some(p) ==> p@ =~= msg.spec_bytes() + submit_suffix());
        self.phase = ModemPhase::SendHeader;
        self.payload = payload;
        Some(ModemAction::Request { command: header, timeout_ms: REQUEST_TIMEOUT_MS })
    }

    /// Starts sending the text message `msg` to `telephone`. The header must
    /// fit its buffer, else the operation ends at once with `EBadRequest`.
    /// The header's reply is not judged; the message body must fit its
    /// buffer, else the operation ends with `EBadRequest` after the header.
    pub fn send_sms(&mut self, telephone: &str, msg: &str) -> (a: ModemAction)
        requires
            old(self).phase() == ModemPhase::Ready,
        ensures
            match text_header_for(telephone.spec_bytes()) {
                None => {
                    &&& a matches ModemAction::Finished(Err(RequestError::EBadRequest))
                    &&& final(self).phase() == ModemPhase::Ready
                    &&& final(self).status() == Sim900State::BadAnswer
                },
                Some(h) => {
                    &&& requests(a, h, REQUEST_TIMEOUT_MS)
                    &&& final(self).phase() == ModemPhase::SendHeader
                    &&& final(self).status() == old(self).status()
                    &&& final(self).payload() == text_payload_for(msg.spec_bytes())
                },
            },
    {
        let prefix = "AT+CMGS=\"";
        let quote = "\"";
        let crlf = "\r\n";
        let suffix = "\x1a\r";
        proof {
            reveal_strlit("AT+CMGS=\"");
            reveal_strlit("\"");
            reveal_strlit("\r\n");
            reveal_strlit("\x1a\r");
            vstd::utf8::is_ascii_chars_encode_utf8(prefix@);
            vstd::utf8::is_ascii_chars_encode_utf8(quote@);
            vstd::utf8::is_ascii_chars_encode_utf8(crlf@);
            vstd::utf8::is_ascii_chars_encode_utf8(suffix@);
            assert(prefix.spec_bytes() =~= text_send_prefix());
            assert(quote.spec_bytes() =~= seq![0x22u8]);
            assert(crlf.spec_bytes() =~= seq![0x0du8, 0x0au8]);
            assert(suffix.spec_bytes() =~= submit_suffix());
        }
        let mut header = empty_header();
        let fits = push_header(&mut header, prefix).is_ok() && push_header(&mut header, telephone).is_ok()
            && push_header(&mut header, quote).is_ok() && push_header(&mut header, crlf).is_ok();
        if !fits {
            let r = self.handle_request(Err(RequestError::EBadRequest));
            return ModemAction::Finished(r);
        }
        let command = header_to_vec(&header);
        assert(command@ =~= text_send_prefix() + telephone.spec_bytes() + seq![0x22u8, 0x0du8, 0x0au8]);
        let mut body = empty_text();
        let payload = if push_text(&mut body, msg).is_ok() && push_text(&mut body, suffix).is_ok() {
            Some(text_to_vec(&body))
        } else {
            None
        };
        assert(payload matches Some(p) ==> p@ =~= msg.spec_bytes() + submit_suffix());
        self.phase = ModemPhase::SendHeader;
        self.payload = payload;
        ModemAction::Request { command, timeout_ms: REQUEST_TIMEOUT_MS }
    }

    /// Continues the operation in progress, given the reply to the request
    /// just performed (ignored after a toggle or a wait), and says what to do
    /// next.
    pub fn advance(&mut self, reply: Option<&[u8]>) -> (a: ModemAction)
        requires
            old(self).phase() != ModemPhase::Ready,
        ensures
            modem_step(
                old(self).phase(),
                old(self).status(),
                old(self).payload(),
                reply_bytes(reply),
                final(self).phase(),
                final(self).status(),
                a,
            ),
            final(self).payload() == old(self).payload(),
    {
        match self.phase {
            ModemPhase::Ready => ModemAction::Finished(Ok(())),
            ModemPhase::OnlineProbe | ModemPhase::PowerOnReprobe | ModemPhase::SendPayload => {
                let r = self.handle_request(classify_reply(reply));
                self.phase = ModemPhase::Ready;
                ModemAction::Finished(r)
            },
            ModemPhase::PowerOnProbe => {
                let r = self.handle_request(classify_reply(reply));
                if r.is_ok() {
                    self.phase = ModemPhase::Ready;
                    ModemAction::Finished(r)
                } else {
                    self.phase = ModemPhase::PowerOnToggle;
                    ModemAction::TogglePower
                }
            },
            ModemPhase::PowerOnToggle => {
                self.phase = ModemPhase::PowerOnSettle;
                ModemAction::Wait { ms: POWER_SETTLE_MS }
            },
            ModemPhase::PowerOnSettle => {
                self.phase = ModemPhase::PowerOnReprobe;
                ModemAction::Request { command: probe_command(), timeout_ms: REQUEST_TIMEOUT_MS }
            },
            ModemPhase::SetupPdu => {
                let r = self.handle_request(classify_reply(reply));
                if r.is_ok() {
                    self.phase = ModemPhase::SetupData;
                    ModemAction::Request {
                        command: data_mode_command(),
                        timeout_ms: REQUEST_TIMEOUT_MS,
                    }
                } else {
                    self.phase = ModemPhase::Ready;
                    ModemAction::Finished(r)
                }
            },
            ModemPhase::SetupData => {
                let r = self.handle_request(classify_reply(reply));
                if r.is_ok() {
                    self.phase = ModemPhase::SetupSim;
                    ModemAction::Request { command: sim_status_command(), timeout_ms: SIM_TIMEOUT_MS }
                } else {
                    self.phase = ModemPhase::Ready;
                    ModemAction::Finished(r)
                }
            },
            ModemPhase::SetupSim => {
                let res = classify_reply(reply);
                self.phase = ModemPhase::Ready;
                if let Err(RequestError::EAnswerError) = res {
                    self.state = Sim900State::NoSim;
                    ModemAction::Finished(res)
                } else {
                    let r = self.handle_request(res);
                    ModemAction::Finished(r)
                }
            },
            ModemPhase::PowerOffProbe => {
                let res = classify_reply(reply);
                if res.is_ok() {
                    self.phase = ModemPhase::PowerOffToggle;
                    ModemAction::TogglePower
                } else {
                    self.phase = ModemPhase::Ready;
                    ModemAction::Finished(res)
                }
            },
            ModemPhase::PowerOffToggle => {
                self.phase = ModemPhase::Ready;
                ModemAction::Finished(Ok(()))
            },
            ModemPhase::SendHeader => {
                match &self.payload {
                    Some(p) => {
                        let command = p.clone();
                        self.phase = ModemPhase::SendPayload;
                        ModemAction::Request { command, timeout_ms: REQUEST_TIMEOUT_MS }
                    },
                    None => {
                        let r = self.handle_request(Err(RequestError::EBadRequest));
                        self.phase = ModemPhase::Ready;
                        ModemAction::Finished(r)
                    },
                }
            },
        }
    }
}

} // verus!
