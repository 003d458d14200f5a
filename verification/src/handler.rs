//! The datagram handler: socket lifecycle, send throttling, destination
//! tracking and the last sender seen.
//!
//! The handler owns no socket itself: each operation decides what the
//! surrounding program must do (bind, transmit, read) and which log lines
//! it must print, and the program reports the outcome of the socket call
//! back through the `*_succeeded` / `*_failed` transitions. That keeps the
//! decisions and the state they act on fully specified, while the blocking
//! datagram calls stay outside.

use vstd::prelude::*;
use vstd::slice::slice_to_vec;
use vstd::string::StringExecFns;

use crate::digits::{dec_spec, u64_to_dec};
use crate::log::{elapsed_secs, line_text, LogLevel, Logger};
use crate::throttle::{send_due, transmit_count};

verus! {

/// Number of bytes a single receive reads at most: a datagram longer than
/// this is truncated by the transport.
pub const RECV_BUFFER_LEN: usize = 1024;

/// What `String::from_utf8_lossy` makes of a byte sequence. The result
/// depends on the bytes alone; beyond the facts stated at the call site it
/// is left unspecified here.
pub uninterp spec fn lossy_utf8(bytes: Seq<u8>) -> Seq<char>;

/// Whether every byte is in the ASCII range.
pub open spec fn all_ascii(bytes: Seq<u8>) -> bool {
    forall|i: int| 0 <= i < bytes.len() ==> bytes[i] < 0x80
}

/// The bytes read one-for-one as characters (meaningful for ASCII input).
pub open spec fn ascii_chars(bytes: Seq<u8>) -> Seq<char> {
    bytes.map_values(|b: u8| b as char)
}

/// Relies on `String::from_utf8_lossy`: the result is a function of the
/// bytes alone; an empty input gives an empty string; ASCII bytes are valid
/// UTF-8 and come through unchanged, one character per byte.
#[verifier::external_body]
fn utf8_lossy(bytes: &[u8]) -> (r: String)
    ensures
        r@ == lossy_utf8(bytes@),
        bytes@.len() == 0 ==> r@.len() == 0,
        all_ascii(bytes@) ==> r@ == ascii_chars(bytes@),
{
    String::from_utf8_lossy(bytes).into_owned()
}

/// Whether the handler's single socket slot has been filled.
#[derive(Clone, Copy, Debug, PartialEq, Eq, Structural)]
pub enum SocketState {
    Unopened,
    Open,
}

/// A log line the surrounding program should print: a bare message with its
/// severity. `UdpHandler::format_line` turns it into the full printed text.
pub struct LogLine {
    pub level: LogLevel,
    pub text: String,
}

/// A bind the surrounding program should perform: create a datagram socket
/// bound to `bind_addr`, optionally issue a connect to `connect_probe`
/// (used only to let the system pick the outbound local address; no data
/// flows to it), and set the socket's read timeout to `timeout_ms`
/// milliseconds.
pub struct BindRequest {
    pub bind_addr: String,
    pub connect_probe: Option<String>,
    pub timeout_ms: u64,
}

/// Outcome of an open operation's precondition check.
pub enum OpenAction {
    /// The socket slot is already filled: print the warning and do nothing
    /// else; the existing socket stays as it is.
    AlreadyOpen { warn: LogLine },
    /// The slot is free: perform the bind, then report back through
    /// `open_succeeded` or `open_failed`.
    Bind { request: BindRequest },
}

/// Outcome of a send decision.
pub enum SendAction {
    /// The rate-limit period has not yet elapsed: nothing is sent, nothing
    /// is logged, nothing changes.
    Throttled,
    /// The period elapsed but no socket is open: print the warning only.
    NotOpen { warn: LogLine },
    /// The period elapsed: transmit `payload` to `dest`, then report back
    /// through `send_succeeded` or `send_failed`.
    Transmit { dest: String, payload: Vec<u8> },
}

/// Outcome of a receive decision.
pub enum RecvAction {
    /// No socket is open: print the warning; `sentinel` is the handler's
    /// result for this receive.
    NotOpen { sentinel: String, warn: LogLine },
    /// Read one datagram of at most `max_len` bytes (blocking up to the
    /// socket's read timeout), then report back through `recv_succeeded`
    /// or `recv_failed`.
    Read { max_len: usize },
}

/// State of one datagram endpoint: at most one socket for the handler's
/// lifetime, a throttle window for sends, the current destination and the
/// address of the last peer a receive succeeded from.
pub struct UdpHandler {
    /// Label used in every log line.
    pub name: String,
    /// Whether the single socket slot has been filled.
    pub socket: SocketState,
    /// Whether info-level log lines are emitted (warnings and errors
    /// always are).
    pub enable_debug_log: bool,
    /// Formats this handler's log lines.
    pub logger: Logger,
    /// Start of the last rate-limit window, in milliseconds.
    pub last_send_ms: u64,
    /// Minimum milliseconds between transmissions.
    pub period_ms: u64,
    /// Where sends go, as `host:port` text; `"None"` while unset.
    pub destination_addr: String,
    /// Address of the peer of the most recent successful receive.
    pub recv_destination_addr: Option<String>,
}

impl UdpHandler {
    /// A fresh handler at time `now_ms`: no socket, placeholder
    /// destination, one-millisecond send period, debug logging as asked.
    pub fn new(name: &str, enable_debug: bool, now_ms: u64) -> (r: Self)
        ensures
            r.name@ == name@,
            r.socket == SocketState::Unopened,
            r.enable_debug_log == enable_debug,
            r.logger.start_ms == now_ms,
            r.last_send_ms == now_ms,
            r.period_ms == 1,
            r.destination_addr@ == "None"@,
            r.recv_destination_addr is None,
    {
        UdpHandler {
            name: name.to_owned(),
            socket: SocketState::Unopened,
            enable_debug_log: enable_debug,
            logger: Logger::new_at(now_ms),
            last_send_ms: now_ms,
            period_ms: 1,
            destination_addr: "None".to_owned(),
            recv_destination_addr: None,
        }
    }

    /// Asks for a socket bound to the loopback address at `port_num`, with
    /// a read timeout of `timeout_ms` milliseconds — unless the slot is
    /// already filled, in which case nothing happens but a warning.
    pub fn open_localhost(&self, port_num: u16, timeout_ms: u64) -> (r: OpenAction)
        ensures
            self.socket == SocketState::Open ==> (r matches OpenAction::AlreadyOpen { warn }
                && warn.level == LogLevel::Warn && warn.text@ == "socket have already opened."@),
            self.socket == SocketState::Unopened ==> (r matches OpenAction::Bind { request }
                && request.bind_addr@ == "127.0.0.1:"@ + dec_spec(port_num as nat)
                && request.connect_probe is None && request.timeout_ms == timeout_ms),
    {
        match self.socket {
            SocketState::Open => OpenAction::AlreadyOpen { warn: already_open_warning() },
            SocketState::Unopened => {
                let bind_addr = "127.0.0.1:".to_owned().concat(
                    u64_to_dec(port_num as u64).as_str(),
                );
                OpenAction::Bind {
                    request: BindRequest { bind_addr, connect_probe: None, timeout_ms },
                }
            },
        }
    }

    /// Asks for a socket bound to an unspecified address and ephemeral
    /// port, probing a well-known external address so the system resolves
    /// the outbound interface; read timeout as given. A filled slot again
    /// yields only the warning.
    pub fn open_auto_address(&self, timeout_ms: u64) -> (r: OpenAction)
        ensures
            self.socket == SocketState::Open ==> (r matches OpenAction::AlreadyOpen { warn }
                && warn.level == LogLevel::Warn && warn.text@ == "socket have already opened."@),
            self.socket == SocketState::Unopened ==> (r matches OpenAction::Bind { request }
                && request.bind_addr@ == "0.0.0.0:0"@ && (request.connect_probe matches Some(probe)
                && probe@ == "8.8.8.8:80"@) && request.timeout_ms == timeout_ms),
    {
        match self.socket {
            SocketState::Open => OpenAction::AlreadyOpen { warn: already_open_warning() },
            SocketState::Unopened => OpenAction::Bind {
                request: BindRequest {
                    bind_addr: "0.0.0.0:0".to_owned(),
                    connect_probe: Some("8.8.8.8:80".to_owned()),
                    timeout_ms,
                },
            },
        }
    }

    /// Asks for a socket bound to the caller-supplied `host:port` address,
    /// with the given read timeout. A filled slot again yields only the
    /// warning.
    pub fn open_set_address(&self, addr: &str, timeout_ms: u64) -> (r: OpenAction)
        ensures
            self.socket == SocketState::Open ==> (r matches OpenAction::AlreadyOpen { warn }
                && warn.level == LogLevel::Warn && warn.text@ == "socket have already opened."@),
            self.socket == SocketState::Unopened ==> (r matches OpenAction::Bind { request }
                && request.bind_addr@ == addr@ && request.connect_probe is None
                && request.timeout_ms == timeout_ms),
    {
        match self.socket {
            SocketState::Open => OpenAction::AlreadyOpen { warn: already_open_warning() },
            SocketState::Unopened => OpenAction::Bind {
                request: BindRequest {
                    bind_addr: addr.to_owned(),
                    connect_probe: None,
                    timeout_ms,
                },
            },
        }
    }

    /// Fills the socket slot after a bind succeeded on `local_addr`; the
    /// info line naming the bound address is returned when debug logging
    /// is enabled.
    pub fn open_succeeded(&mut self, local_addr: &str) -> (logs: Vec<LogLine>)
        requires
            old(self).socket == SocketState::Unopened,
        ensures
            final(self).socket == SocketState::Open,
            final(self).name == old(self).name,
            final(self).enable_debug_log == old(self).enable_debug_log,
            final(self).logger == old(self).logger,
            final(self).last_send_ms == old(self).last_send_ms,
            final(self).period_ms == old(self).period_ms,
            final(self).destination_addr == old(self).destination_addr,
            final(self).recv_destination_addr == old(self).recv_destination_addr,
            old(self).enable_debug_log ==> logs@.len() == 1 && logs@[0].level == LogLevel::Info
                && logs@[0].text@ == "Open new socket on "@ + local_addr@,
            !old(self).enable_debug_log ==> logs@.len() == 0,
    {
        self.socket = SocketState::Open;
        let mut logs: Vec<LogLine> = Vec::new();
        if self.enable_debug_log {
            let text = "Open new socket on ".to_owned().concat(local_addr);
            logs.push(LogLine { level: LogLevel::Info, text });
        }
        logs
    }

    /// The error lines for a failed bind (or failed timeout
    /// configuration): the handler keeps its state, so a later open may
    /// still succeed.
    pub fn open_failed(&self, error_text: &str) -> (logs: Vec<LogLine>)
        ensures
            logs@.len() == 2,
            logs@[0].level == LogLevel::Error,
            logs@[0].text@ == "Failed to open socket"@,
            logs@[1].level == LogLevel::Error,
            logs@[1].text@ == error_text@,
    {
        let mut logs: Vec<LogLine> = Vec::new();
        logs.push(LogLine { level: LogLevel::Error, text: "Failed to open socket".to_owned() });
        logs.push(LogLine { level: LogLevel::Error, text: error_text.to_owned() });
        logs
    }

    /// Overwrites the destination unconditionally; the address is not
    /// validated here — a bad one surfaces as a send error later.
    pub fn set_destination(&mut self, addr: &str) -> (logs: Vec<LogLine>)
        ensures
            final(self).destination_addr@ == addr@,
            final(self).name == old(self).name,
            final(self).socket == old(self).socket,
            final(self).enable_debug_log == old(self).enable_debug_log,
            final(self).logger == old(self).logger,
            final(self).last_send_ms == old(self).last_send_ms,
            final(self).period_ms == old(self).period_ms,
            final(self).recv_destination_addr == old(self).recv_destination_addr,
            old(self).enable_debug_log ==> logs@.len() == 1 && logs@[0].level == LogLevel::Info
                && logs@[0].text@ == "Set destination address : "@ + addr@,
            !old(self).enable_debug_log ==> logs@.len() == 0,
    {
        let mut logs: Vec<LogLine> = Vec::new();
        if self.enable_debug_log {
            let text = "Set destination address : ".to_owned().concat(addr);
            logs.push(LogLine { level: LogLevel::Info, text });
        }
        self.destination_addr = addr.to_owned();
        logs
    }

    /// Overwrites the send period; the next send decision uses it.
    pub fn set_send_period(&mut self, period: u64) -> (logs: Vec<LogLine>)
        ensures
            final(self).period_ms == period,
            final(self).name == old(self).name,
            final(self).socket == old(self).socket,
            final(self).enable_debug_log == old(self).enable_debug_log,
            final(self).logger == old(self).logger,
            final(self).last_send_ms == old(self).last_send_ms,
            final(self).destination_addr == old(self).destination_addr,
            final(self).recv_destination_addr == old(self).recv_destination_addr,
            old(self).enable_debug_log ==> logs@.len() == 1 && logs@[0].level == LogLevel::Info
                && logs@[0].text@ == "Set send period : "@ + dec_spec(period as nat) + "ms"@,
            !old(self).enable_debug_log ==> logs@.len() == 0,
    {
        let mut logs: Vec<LogLine> = Vec::new();
        if self.enable_debug_log {
            let text = "Set send period : ".to_owned().concat(u64_to_dec(period).as_str()).concat(
                "ms",
            );
            logs.push(LogLine { level: LogLevel::Info, text });
        }
        self.period_ms = period;
        logs
    }

    /// The send decision at time `now_ms`. Before the period has elapsed
    /// the call is a complete no-op: no transmission, no log line, no state
    /// change — the payload is dropped, not queued. Once the period has
    /// elapsed the rate-limit window restarts at `now_ms` whatever follows:
    /// with no socket only a warning results, otherwise `payload` (the
    /// bytes as given) is to be transmitted to the current destination.
    pub fn send(&mut self, buf: &[u8], now_ms: u64) -> (r: SendAction)
        ensures
            !send_due(old(self).last_send_ms as int, old(self).period_ms as int, now_ms as int)
                ==> *final(self) == *old(self) && r is Throttled,
            send_due(old(self).last_send_ms as int, old(self).period_ms as int, now_ms as int)
                ==> final(self).last_send_ms == now_ms && !(r is Throttled),
            send_due(old(self).last_send_ms as int, old(self).period_ms as int, now_ms as int)
                && old(self).socket == SocketState::Unopened ==> (r matches SendAction::NotOpen {
                warn,
            } && warn.level == LogLevel::Warn && warn.text@ == "Socket is not opened."@),
            send_due(old(self).last_send_ms as int, old(self).period_ms as int, now_ms as int)
                && old(self).socket == SocketState::Open ==> (r matches SendAction::Transmit {
                dest,
                payload,
            } && dest@ == old(self).destination_addr@ && payload@ == buf@),
            final(self).name == old(self).name,
            final(self).socket == old(self).socket,
            final(self).enable_debug_log == old(self).enable_debug_log,
            final(self).logger == old(self).logger,
            final(self).period_ms == old(self).period_ms,
            final(self).destination_addr == old(self).destination_addr,
            final(self).recv_destination_addr == old(self).recv_destination_addr,
            transmit_count(
                old(self).last_send_ms as int,
                old(self).period_ms as int,
                seq![now_ms as int],
            ) == if r is Throttled {
                0int
            } else {
                1int
            },
    {
        proof {
            reveal_with_fuel(transmit_count, 2);
        }
        let due: bool = now_ms >= self.last_send_ms && now_ms - self.last_send_ms
            >= self.period_ms;
        if !due {
            return SendAction::Throttled;
        }
        self.last_send_ms = now_ms;
        match self.socket {
            SocketState::Unopened => SendAction::NotOpen { warn: not_opened_warning() },
            SocketState::Open => SendAction::Transmit {
                dest: self.destination_addr.clone(),
                payload: slice_to_vec(buf),
            },
        }
    }

    /// The log lines after a transmission went out: when debug logging is
    /// enabled, the transmitted bytes read as text (lossily decoded).
    pub fn send_succeeded(&self, buf: &[u8]) -> (logs: Vec<LogLine>)
        ensures
            self.enable_debug_log ==> logs@.len() == 1 && logs@[0].level == LogLevel::Info
                && logs@[0].text@ == "Send buffer : "@ + lossy_utf8(buf@),
            !self.enable_debug_log ==> logs@.len() == 0,
    {
        let mut logs: Vec<LogLine> = Vec::new();
        if self.enable_debug_log {
            let text = "Send buffer : ".to_owned().concat(utf8_lossy(buf).as_str());
            logs.push(LogLine { level: LogLevel::Info, text });
        }
        logs
    }

    /// The error lines after a transmission failed; nothing is retried and
    /// nothing reaches the caller of `send` beyond these lines.
    pub fn send_failed(&self, error_text: &str) -> (logs: Vec<LogLine>)
        ensures
            logs@.len() == 2,
            logs@[0].level == LogLevel::Error,
            logs@[0].text@ == "Failed to send buffer."@,
            logs@[1].level == LogLevel::Error,
            logs@[1].text@ == error_text@,
    {
        let mut logs: Vec<LogLine> = Vec::new();
        logs.push(LogLine { level: LogLevel::Error, text: "Failed to send buffer.".to_owned() });
        logs.push(LogLine { level: LogLevel::Error, text: error_text.to_owned() });
        logs
    }

    /// The receive decision: with no socket the sentinel `"None"` is the
    /// result (indistinguishable from a datagram that carried that very
    /// text); otherwise one datagram of at most `RECV_BUFFER_LEN` bytes is
    /// to be read.
    pub fn recv(&self) -> (r: RecvAction)
        ensures
            self.socket == SocketState::Unopened ==> (r matches RecvAction::NotOpen {
                sentinel,
                warn,
            } && sentinel@ == "None"@ && warn.level == LogLevel::Warn && warn.text@
                == "Socket is not opened."@),
            self.socket == SocketState::Open ==> (r matches RecvAction::Read { max_len }
                && max_len == RECV_BUFFER_LEN),
    {
        match self.socket {
            SocketState::Unopened => RecvAction::NotOpen {
                sentinel: "None".to_owned(),
                warn: not_opened_warning(),
            },
            SocketState::Open => RecvAction::Read { max_len: RECV_BUFFER_LEN },
        }
    }

    /// Records the sender and decodes the datagram after a successful
    /// read: the returned text is the lossy decoding of the bytes, and the
    /// sender's address overwrites whatever `who` reported before.
    pub fn recv_succeeded(&mut self, data: &[u8], sender_addr: &str) -> (r: (String, Vec<LogLine>))
        requires
            old(self).socket == SocketState::Open,
        ensures
            r.0@ == lossy_utf8(data@),
            all_ascii(data@) ==> r.0@ == ascii_chars(data@),
            final(self).recv_destination_addr matches Some(a) && a@ == sender_addr@,
            final(self).name == old(self).name,
            final(self).socket == old(self).socket,
            final(self).enable_debug_log == old(self).enable_debug_log,
            final(self).logger == old(self).logger,
            final(self).last_send_ms == old(self).last_send_ms,
            final(self).period_ms == old(self).period_ms,
            final(self).destination_addr == old(self).destination_addr,
            old(self).enable_debug_log ==> r.1@.len() == 1 && r.1@[0].level == LogLevel::Info
                && r.1@[0].text@ == "Receive : "@ + lossy_utf8(data@),
            !old(self).enable_debug_log ==> r.1@.len() == 0,
    {
        self.recv_destination_addr = Some(sender_addr.to_owned());
        let text = utf8_lossy(data);
        let mut logs: Vec<LogLine> = Vec::new();
        if self.enable_debug_log {
            let line = "Receive : ".to_owned().concat(text.as_str());
            logs.push(LogLine { level: LogLevel::Info, text: line });
        }
        (text, logs)
    }

    /// The sentinel and error lines after a read failed or timed out; the
    /// last recorded sender is left exactly as it was.
    pub fn recv_failed(&self, error_text: &str) -> (r: (String, Vec<LogLine>))
        ensures
            r.0@ == "None"@,
            r.1@.len() == 2,
            r.1@[0].level == LogLevel::Error,
            r.1@[0].text@ == "Failed to recv value."@,
            r.1@[1].level == LogLevel::Error,
            r.1@[1].text@ == error_text@,
    {
        let mut logs: Vec<LogLine> = Vec::new();
        logs.push(LogLine { level: LogLevel::Error, text: "Failed to recv value.".to_owned() });
        logs.push(LogLine { level: LogLevel::Error, text: error_text.to_owned() });
        ("None".to_owned(), logs)
    }

    /// The address of the most recent successful receive's sender, or the
    /// sentinel `"None"` before any receive has succeeded. Pure accessor.
    pub fn who(&self) -> (r: String)
        ensures
            match self.recv_destination_addr {
                Some(a) => r@ == a@,
                None => r@ == "None"@,
            },
    {
        match &self.recv_destination_addr {
            Some(a) => a.clone(),
            None => "None".to_owned(),
        }
    }

    /// The full printed text for one of this handler's log lines at time
    /// `now_ms`, formatted by the handler's own logger under the handler's
    /// name.
    pub fn format_line(&self, line: &LogLine, now_ms: u64) -> (r: String)
        ensures
            r@ == line_text(
                line.level,
                elapsed_secs(self.logger.start_ms, now_ms),
                self.name@,
                line.text@,
            ),
    {
        self.logger.format(line.level, self.name.as_str(), line.text.as_str(), now_ms)
    }
}

/// The warning printed when an open finds the socket slot already filled.
fn already_open_warning() -> (r: LogLine)
    ensures
        r.level == LogLevel::Warn,
        r.text@ == "socket have already opened."@,
{
    LogLine { level: LogLevel::Warn, text: "socket have already opened.".to_owned() }
}

/// The warning printed when a due send or a receive finds no socket.
fn not_opened_warning() -> (r: LogLine)
    ensures
        r.level == LogLevel::Warn,
        r.text@ == "Socket is not opened."@,
{
    LogLine { level: LogLevel::Warn, text: "Socket is not opened.".to_owned() }
}

} // verus!
