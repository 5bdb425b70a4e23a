use vstd::prelude::*;
use vstd::string::*;

use crate::error::AppError;
use crate::model::{AppEvent, PortId};

verus! {

/// What the user interface asks of a serial worker.
#[derive(Debug)]
pub enum SerialCommand {
    Write(Vec<u8>),
    Close,
}

/// Number of data bits per character.
#[derive(Debug, Clone, Copy, PartialEq, Eq, Structural)]
pub enum DataBitsSetting {
    Five,
    Six,
    Seven,
    Eight,
}

/// The data bits of a configuration: five to seven as given, eight otherwise.
pub fn data_bits_setting(bits: u8) -> (d: DataBitsSetting)
    ensures
        bits == 5 ==> d == DataBitsSetting::Five,
        bits == 6 ==> d == DataBitsSetting::Six,
        bits == 7 ==> d == DataBitsSetting::Seven,
        bits != 5 && bits != 6 && bits != 7 ==> d == DataBitsSetting::Eight,
{
    match bits {
        5 => DataBitsSetting::Five,
        6 => DataBitsSetting::Six,
        7 => DataBitsSetting::Seven,
        _ => DataBitsSetting::Eight,
    }
}

/// `prefix` followed by `detail`.
pub(crate) fn prefixed(prefix: &str, detail: &str) -> (s: String)
    ensures
        s@ == prefix@ + detail@,
{
    let mut s = prefix.to_owned();
    s.append(detail);
    s
}

/// The error for a port that could not be opened:
/// `Failed to open <port>: <detail>`.
pub fn open_failure(port_name: &str, detail: &str) -> (e: AppError)
    ensures
        e matches AppError::Serial(m) && m@ == "Failed to open "@ + port_name@ + ": "@ + detail@,
{
    let mut m = "Failed to open ".to_owned();
    m.append(port_name);
    m.append(": ");
    m.append(detail);
    AppError::Serial(m)
}

/// The outcome of one read from a serial port: the bytes read (none when the
/// read returned zero bytes), a timeout, or a failure with its description.
pub enum ReadOutcome {
    Data(Vec<u8>),
    TimedOut,
    Failed(String),
}

/// What a serial worker does with a command from the user interface: write
/// bytes to the port, or stop after reporting the event.
pub enum CommandAction {
    Write(Vec<u8>),
    Stop(AppEvent),
}

/// A worker writes what it is asked to write, and on `Close` reports the port
/// closed and stops.
pub fn worker_on_command(port_id: PortId, cmd: SerialCommand) -> (a: CommandAction)
    ensures
        cmd matches SerialCommand::Write(data) ==> (a matches CommandAction::Write(d) && d@ == data@),
        cmd is Close ==> (a matches CommandAction::Stop(AppEvent::PortClosed { port_id: p }) && p == port_id),
{
    match cmd {
        SerialCommand::Write(data) => CommandAction::Write(data),
        SerialCommand::Close => CommandAction::Stop(AppEvent::PortClosed { port_id }),
    }
}

/// The event for a failed write: `write error: <detail>`.
pub fn write_failure(port_id: PortId, detail: &str) -> (ev: AppEvent)
    ensures
        ev matches AppEvent::SerialError { port_id: p, error } && p == port_id && error@ == "write error: "@
            + detail@,
{
    AppEvent::SerialError { port_id, error: prefixed("write error: ", detail) }
}

/// What a worker reports after a read, and whether it keeps running.
pub struct WorkerStep {
    pub events: Vec<AppEvent>,
    pub keep_running: bool,
}

/// Data read is reported; an empty read or a timeout reports nothing; any
/// other failure reports `read error: <detail>`, then the port closed, and
/// stops the worker.
pub fn worker_after_read(port_id: PortId, outcome: ReadOutcome) -> (step: WorkerStep)
    ensures
        outcome matches ReadOutcome::Data(data) ==> {
            &&& step.keep_running
            &&& data@.len() == 0 ==> step.events@.len() == 0
            &&& data@.len() > 0 ==> {
                &&& step.events@.len() == 1
                &&& step.events@[0] matches AppEvent::SerialData { port_id: p, data: d } && p == port_id
                    && d@ == data@
            }
        },
        outcome is TimedOut ==> step.keep_running && step.events@.len() == 0,
        outcome matches ReadOutcome::Failed(detail) ==> {
            &&& !step.keep_running
            &&& step.events@.len() == 2
            &&& step.events@[0] matches AppEvent::SerialError { port_id: p, error } && p == port_id
                && error@ == "read error: "@ + detail@
            &&& step.events@[1] matches AppEvent::PortClosed { port_id: p } && p == port_id
        },
{
    let mut events: Vec<AppEvent> = Vec::new();
    match outcome {
        ReadOutcome::Data(data) => {
            if data.len() > 0 {
                events.push(AppEvent::SerialData { port_id, data });
            }
            WorkerStep { events, keep_running: true }
        },
        ReadOutcome::TimedOut => WorkerStep { events, keep_running: true },
        ReadOutcome::Failed(detail) => {
            events.push(AppEvent::SerialError { port_id, error: prefixed("read error: ", detail.as_str()) });
            events.push(AppEvent::PortClosed { port_id });
            WorkerStep { events, keep_running: false }
        },
    }
}

} // verus!
