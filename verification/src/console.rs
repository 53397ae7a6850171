use vstd::prelude::*;
use vstd::string::*;

use crate::messages::{
    failsafe_name, protocol_error_text, BackendEvent, GcsCommand, ProtocolError, UiCommand,
    VehicleEvent,
};
use crate::connection::{parse_connection, parse_connection_string};
use crate::text::{chars_equal, decimal, decimal_string};
use crate::types::{mode_name, mode_of_code, ConnectionType, FlightMode};

verus! {

/// The most log lines the console keeps.
pub const LOG_CAPACITY: usize = 200;

/// Severity of a console log line.
#[derive(Debug, Clone, Copy, PartialEq, Eq, Structural)]
pub enum LogSeverity {
    Info,
    Warning,
    Error,
}

/// A console log line.
#[derive(Debug, Clone)]
pub struct LogEntry {
    pub timestamp: String,
    pub severity: LogSeverity,
    pub message: String,
}

/// A console log line with its texts as sequences.
pub struct LogLine {
    pub timestamp: Seq<char>,
    pub severity: LogSeverity,
    pub message: Seq<char>,
}

impl View for LogEntry {
    type V = LogLine;

    open spec fn view(&self) -> LogLine {
        LogLine { timestamp: self.timestamp@, severity: self.severity, message: self.message@ }
    }
}

/// The log after a line is added: the line goes last, and the oldest line
/// is dropped once there are more than 200.
pub open spec fn append_log(log: Seq<LogLine>, line: LogLine) -> Seq<LogLine> {
    let l = log.push(line);
    if l.len() > LOG_CAPACITY {
        l.drop_first()
    } else {
        l
    }
}

/// The console severity of a MAVLink status-text severity: emergency to
/// error (0-3) are errors, warning and notice (4-5) warnings, the rest info.
pub open spec fn status_severity(severity: u8) -> LogSeverity {
    if severity <= 3 {
        LogSeverity::Error
    } else if severity <= 5 {
        LogSeverity::Warning
    } else {
        LogSeverity::Info
    }
}

/// The log line that an event from the link task adds, if any.
pub open spec fn event_log_line(evt: BackendEvent) -> Option<(LogSeverity, Seq<char>)> {
    match evt {
        BackendEvent::Connected => Some((LogSeverity::Info, "Connected to flight controller"@)),
        BackendEvent::Disconnected(reason) => Some((LogSeverity::Info, "Disconnected: "@ + reason@)),
        BackendEvent::Error(msg) => Some((LogSeverity::Error, msg@)),
        BackendEvent::TelemetryUpdated => None,
        BackendEvent::Vehicle(event) => match event {
            VehicleEvent::StatusText { severity, text } => Some(
                (status_severity(severity), "[FC] "@ + text@),
            ),
            VehicleEvent::HeartbeatTimeout { last_seen_ms } => Some(
                (
                    LogSeverity::Warning,
                    "Heartbeat timeout! Last: "@ + decimal(last_seen_ms as nat) + "ms ago"@,
                ),
            ),
            VehicleEvent::Failsafe { reason } => Some(
                (LogSeverity::Error, "FAILSAFE: "@ + failsafe_name(reason)),
            ),
            VehicleEvent::MissionAck { result } => Some(
                (LogSeverity::Info, "Mission ACK: result="@ + decimal(result as nat)),
            ),
            _ => None,
        },
    }
}

/// Whether the console shows the link as up after an event, given whether
/// it did before.
pub open spec fn connected_after(connected: bool, evt: BackendEvent) -> bool {
    match evt {
        BackendEvent::Connected => true,
        BackendEvent::Disconnected(_) => false,
        _ => connected,
    }
}

/// The console's view of the station: whether the link is up, and the log.
pub struct OperatorConsole {
    connected: bool,
    log_messages: Vec<LogEntry>,
}

impl OperatorConsole {
    pub closed spec fn spec_connected(&self) -> bool {
        self.connected
    }

    pub closed spec fn log_lines(&self) -> Seq<LogLine> {
        self.log_messages@.map_values(|e: LogEntry| e@)
    }

    /// A console with the link down and one line saying that the station
    /// started, stamped with `timestamp`.
    pub fn new(timestamp: String) -> (res: OperatorConsole)
        ensures
            !res.spec_connected(),
            res.log_lines() == seq![
                LogLine {
                    timestamp: timestamp@,
                    severity: LogSeverity::Info,
                    message: "UAV Ground Control Station initialized"@,
                },
            ],
    {
        let mut log_messages: Vec<LogEntry> = Vec::new();
        log_messages.push(
            LogEntry {
                timestamp,
                severity: LogSeverity::Info,
                message: "UAV Ground Control Station initialized".to_owned(),
            },
        );
        let res = OperatorConsole { connected: false, log_messages };
        assert(res.log_lines() =~= seq![res.log_messages@[0]@]);
        res
    }

    /// Whether the console shows the link as up.
    pub fn is_connected(&self) -> (res: bool)
        ensures
            res == self.spec_connected(),
    {
        self.connected
    }

    /// The log lines, oldest first.
    pub fn log(&self) -> (res: &Vec<LogEntry>)
        ensures
            res@.map_values(|e: LogEntry| e@) == self.log_lines(),
    {
        &self.log_messages
    }

    /// Add a log line; only the last 200 lines are kept.
    pub fn add_log(&mut self, severity: LogSeverity, timestamp: String, message: String)
        ensures
            final(self).spec_connected() == old(self).spec_connected(),
            final(self).log_lines() == append_log(
                old(self).log_lines(),
                LogLine { timestamp: timestamp@, severity, message: message@ },
            ),
    {
        let entry = LogEntry { timestamp, severity, message };
        let ghost line = entry@;
        let ghost before = self.log_lines();
        self.log_messages.push(entry);
        assert(self.log_lines() =~= before.push(line));
        if self.log_messages.len() > LOG_CAPACITY {
            let ghost pushed = self.log_messages@;
            self.log_messages.remove(0);
            assert(self.log_messages@ =~= pushed.drop_first());
            assert(self.log_lines() =~= before.push(line).drop_first());
        }
    }

    /// Take an event from the link task: follow the link state and log what
    /// the operator needs to see, stamped with `timestamp`.
    pub fn handle_backend_event(&mut self, evt: BackendEvent, timestamp: String)
        ensures
            final(self).spec_connected() == connected_after(old(self).spec_connected(), evt),
            final(self).log_lines() == match event_log_line(evt) {
                Some((severity, message)) => append_log(
                    old(self).log_lines(),
                    LogLine { timestamp: timestamp@, severity, message },
                ),
                None => old(self).log_lines(),
            },
    {
        match evt {
            BackendEvent::Connected => {
                self.connected = true;
                self.add_log(LogSeverity::Info, timestamp, "Connected to flight controller".to_owned());
            },
            BackendEvent::Disconnected(reason) => {
                self.connected = false;
                let mut message = "Disconnected: ".to_owned();
                message.append(reason.as_str());
                self.add_log(LogSeverity::Info, timestamp, message);
            },
            BackendEvent::Error(msg) => {
                self.add_log(LogSeverity::Error, timestamp, msg);
            },
            BackendEvent::TelemetryUpdated => {},
            BackendEvent::Vehicle(event) => match event {
                VehicleEvent::StatusText { severity, text } => {
                    let mut message = "[FC] ".to_owned();
                    message.append(text.as_str());
                    self.add_log(status_log_severity(severity), timestamp, message);
                },
                VehicleEvent::HeartbeatTimeout { last_seen_ms } => {
                    let mut message = "Heartbeat timeout! Last: ".to_owned();
                    let digits = decimal_string(last_seen_ms);
                    message.append(digits.as_str());
                    message.append("ms ago");
                    self.add_log(LogSeverity::Warning, timestamp, message);
                },
                VehicleEvent::Failsafe { reason } => {
                    let mut message = "FAILSAFE: ".to_owned();
                    message.append(reason.name());
                    self.add_log(LogSeverity::Error, timestamp, message);
                },
                VehicleEvent::MissionAck { result } => {
                    let mut message = "Mission ACK: result=".to_owned();
                    let digits = decimal_string(result as u64);
                    message.append(digits.as_str());
                    self.add_log(LogSeverity::Info, timestamp, message);
                },
                _ => {},
            },
        }
    }
}

/// The console severity of a MAVLink status-text severity.
pub fn status_log_severity(severity: u8) -> (res: LogSeverity)
    ensures
        res == status_severity(severity),
{
    if severity <= 3 {
        LogSeverity::Error
    } else if severity <= 5 {
        LogSeverity::Warning
    } else {
        LogSeverity::Info
    }
}

/// The console never holds more than 200 lines, and a new line is always
/// the last one.
pub proof fn lemma_log_bounded(log: Seq<LogLine>, line: LogLine)
    requires
        log.len() <= LOG_CAPACITY,
    ensures
        append_log(log, line).len() <= LOG_CAPACITY,
        append_log(log, line).last() == line,
        log.len() < LOG_CAPACITY ==> append_log(log, line) == log.push(line),
        log.len() == LOG_CAPACITY ==> append_log(log, line) == log.drop_first().push(line),
{
    if log.len() == LOG_CAPACITY {
        assert(log.push(line).drop_first() =~= log.drop_first().push(line));
    }
}

/// What the link task does for a command from the user interface.
#[derive(Debug, Clone)]
pub enum LinkAction {
    /// Close the current link and stop its tasks.
    Disconnect,
    /// Open a link with a setting.
    Connect(ConnectionType),
    /// Hand a command to the current link.
    Forward(GcsCommand),
    /// Tell the user interface.
    Report(BackendEvent),
}

/// The actions for a command from the user interface, given whether a link
/// is open: connecting closes an open link first; disconnecting closes an
/// open link and reports it (and does nothing otherwise); a vehicle command
/// goes to the open link, or is refused with "Not connected".
pub fn plan_ui_command(link_open: bool, cmd: UiCommand) -> (res: Vec<LinkAction>)
    ensures
        match cmd {
            UiCommand::Connect(c) => {
                &&& res@.len() == if link_open { 2int } else { 1int }
                &&& link_open ==> res@[0] is Disconnect
                &&& res@.last() matches LinkAction::Connect(d) && d@ == c@
            },
            UiCommand::Disconnect => if link_open {
                &&& res@.len() == 2
                &&& res@[0] is Disconnect
                &&& res@[1] matches LinkAction::Report(BackendEvent::Disconnected(r))
                &&& r@ == "User disconnected"@
            } else {
                res@.len() == 0
            },
            UiCommand::SendCommand(command) => if link_open {
                res@ == seq![LinkAction::Forward(command)]
            } else {
                &&& res@.len() == 1
                &&& res@[0] matches LinkAction::Report(BackendEvent::Error(m))
                &&& m@ == "Not connected"@
            },
        },
{
    let mut actions: Vec<LinkAction> = Vec::new();
    match cmd {
        UiCommand::Connect(c) => {
            if link_open {
                actions.push(LinkAction::Disconnect);
            }
            actions.push(LinkAction::Connect(c));
        },
        UiCommand::Disconnect => {
            if link_open {
                actions.push(LinkAction::Disconnect);
                actions.push(
                    LinkAction::Report(BackendEvent::Disconnected("User disconnected".to_owned())),
                );
            }
        },
        UiCommand::SendCommand(command) => {
            if link_open {
                actions.push(LinkAction::Forward(command));
                assert(actions@ =~= seq![LinkAction::Forward(command)]);
            } else {
                actions.push(LinkAction::Report(BackendEvent::Error("Not connected".to_owned())));
            }
        },
    }
    actions
}

/// The event that reports the outcome of opening a link.
pub fn connect_outcome(result: Result<(), ProtocolError>) -> (res: BackendEvent)
    ensures
        match result {
            Ok(_) => res is Connected,
            Err(e) => res matches BackendEvent::Error(m) && m@ == "Connection failed: "@
                + protocol_error_text(e),
        },
{
    match result {
        Ok(()) => BackendEvent::Connected,
        Err(e) => {
            let mut m = "Connection failed: ".to_owned();
            let text = e.message();
            m.append(text.as_str());
            BackendEvent::Error(m)
        },
    }
}

/// The event that reports a command the link could not take.
pub fn send_failure(detail: String) -> (res: BackendEvent)
    ensures
        res matches BackendEvent::Error(m) && m@ == "Failed to send command: "@ + detail@,
{
    let mut m = "Failed to send command: ".to_owned();
    m.append(detail.as_str());
    BackendEvent::Error(m)
}

/// The flight-mode buttons of the control panel, in display order: each
/// label with the ArduPlane custom mode that the button selects.
pub open spec fn mode_button_table() -> Seq<(Seq<char>, u32)> {
    seq![
        ("MANUAL"@, 0u32),
        ("STAB"@, 2u32),
        ("FBWA"@, 5u32),
        ("FBWB"@, 6u32),
        ("AUTO"@, 10u32),
        ("RTL"@, 11u32),
        ("LOITER"@, 12u32),
        ("CRUISE"@, 7u32),
    ]
}

/// The flight-mode buttons of the control panel.
pub fn mode_buttons() -> (res: Vec<(&'static str, u32)>)
    ensures
        res@.map_values(|b: (&'static str, u32)| (b.0@, b.1)) == mode_button_table(),
{
    let mut buttons: Vec<(&'static str, u32)> = Vec::new();
    buttons.push(("MANUAL", 0));
    buttons.push(("STAB", 2));
    buttons.push(("FBWA", 5));
    buttons.push(("FBWB", 6));
    buttons.push(("AUTO", 10));
    buttons.push(("RTL", 11));
    buttons.push(("LOITER", 12));
    buttons.push(("CRUISE", 7));
    assert(buttons@.map_values(|b: (&'static str, u32)| (b.0@, b.1)) =~= mode_button_table());
    buttons
}

/// Whether a mode button shows as selected: when the name of the current
/// flight mode is the button's label. The Stabilize mode is named
/// "STABILIZE", so the "STAB" button does not show as selected.
pub fn mode_button_selected(mode: &FlightMode, label: &str) -> (res: bool)
    ensures
        res == (mode_name(*mode) == label@),
{
    chars_equal(mode.name(), label)
}

/// What a click on the connect button does.
#[derive(Debug)]
pub enum ConnectClick {
    /// Close the open link.
    Disconnect,
    /// Open a link with this setting.
    Connect(ConnectionType),
    /// Refuse the connection string, with this log message.
    Invalid(String),
}

/// What a click on the connect button does: while connected, it
/// disconnects; otherwise it connects with the setting that the connection
/// string gives, or reports "Invalid connection string: " and the string.
pub fn connect_click(connected: bool, input: &str) -> (res: ConnectClick)
    ensures
        connected ==> res is Disconnect,
        !connected ==> match parse_connection(input@) {
            Some(v) => res matches ConnectClick::Connect(c) && c@ == v,
            None => res matches ConnectClick::Invalid(m) && m@ == "Invalid connection string: "@
                + input@,
        },
{
    if connected {
        return ConnectClick::Disconnect;
    }
    match parse_connection_string(input) {
        Some(c) => ConnectClick::Connect(c),
        None => {
            let mut m = "Invalid connection string: ".to_owned();
            m.append(input);
            ConnectClick::Invalid(m)
        },
    }
}

/// The log keeps the newest 200 lines: a line is always added last, and
/// the oldest line leaves only when 200 are already kept.
pub proof fn lemma_log_keeps_newest_lines(log: Seq<LogLine>, line: LogLine)
    requires
        log.len() <= 200,
    ensures
        append_log(log, line).len() == if log.len() == 200 {
            200
        } else {
            log.len() + 1
        },
        append_log(log, line).last() == line,
        forall|i: int|
            0 <= i < append_log(log, line).len() - 1 ==> #[trigger] append_log(log, line)[i] == log[i
                + log.len() + 1 - append_log(log, line).len()],
{
}

/// MAVLink status severities in the console: emergency, alert, critical and
/// error (0 to 3) log as errors, warning and notice (4, 5) as warnings,
/// info and debug (6 and up) as info.
pub proof fn lemma_status_severities(severity: u8)
    ensures
        (status_severity(severity) == LogSeverity::Error) == (severity < 4),
        (status_severity(severity) == LogSeverity::Warning) == (severity == 4 || severity == 5),
        (status_severity(severity) == LogSeverity::Info) == (severity > 5),
{
}

/// The link shows as up after a connection and down after a disconnection;
/// no other event changes it. A connection and an error log as info and
/// error lines, a disconnection logs its reason after "Disconnected: ", and
/// a telemetry update logs nothing.
pub proof fn lemma_link_events(connected: bool, evt: BackendEvent)
    ensures
        connected_after(connected, evt) == match evt {
            BackendEvent::Connected => true,
            BackendEvent::Disconnected(_) => false,
            _ => connected,
        },
        evt is Connected ==> event_log_line(evt) == Some(
            (LogSeverity::Info, "Connected to flight controller"@),
        ),
        (evt matches BackendEvent::Disconnected(r) ==> event_log_line(evt) == Some(
            (LogSeverity::Info, "Disconnected: "@ + r@),
        )),
        (evt matches BackendEvent::Error(m) ==> event_log_line(evt) == Some((LogSeverity::Error, m@))),
        evt is TelemetryUpdated ==> event_log_line(evt) is None,
{
}

/// Each mode button selects the ArduPlane mode whose name its label
/// abbreviates: the label starts the name of the mode with the button's
/// number, and that number is a named mode.
pub proof fn lemma_mode_buttons_select_their_modes()
    ensures
        mode_button_table().len() == 8,
        forall|i: int|
            0 <= i < 8 ==> {
                let (label, code) = #[trigger] mode_button_table()[i];
                &&& !(mode_of_code(code) is Unknown)
                &&& label.len() <= mode_name(mode_of_code(code)).len()
                &&& label == mode_name(mode_of_code(code)).take(label.len() as int)
            },
{
    reveal_strlit("MANUAL");
    reveal_strlit("STAB");
    reveal_strlit("STABILIZE");
    reveal_strlit("FBWA");
    reveal_strlit("FBWB");
    reveal_strlit("AUTO");
    reveal_strlit("RTL");
    reveal_strlit("LOITER");
    reveal_strlit("CRUISE");
    let t = mode_button_table();
    assert("MANUAL"@ =~= "MANUAL"@.take(6));
    assert("STAB"@ =~= "STABILIZE"@.take(4));
    assert("FBWA"@ =~= "FBWA"@.take(4));
    assert("FBWB"@ =~= "FBWB"@.take(4));
    assert("AUTO"@ =~= "AUTO"@.take(4));
    assert("RTL"@ =~= "RTL"@.take(3));
    assert("LOITER"@ =~= "LOITER"@.take(6));
    assert("CRUISE"@ =~= "CRUISE"@.take(6));
    assert(t[0] == ("MANUAL"@, 0u32));
    assert(t[1] == ("STAB"@, 2u32));
    assert(t[2] == ("FBWA"@, 5u32));
    assert(t[3] == ("FBWB"@, 6u32));
    assert(t[4] == ("AUTO"@, 10u32));
    assert(t[5] == ("RTL"@, 11u32));
    assert(t[6] == ("LOITER"@, 12u32));
    assert(t[7] == ("CRUISE"@, 7u32));
}

} // verus!
