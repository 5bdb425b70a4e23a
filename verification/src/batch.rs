use vstd::prelude::*;
use vstd::string::*;

use crate::cli::Cli;
use crate::error::AppError;
use crate::model::{FlowControl, Parity, SerialConfig, StopBits};
use crate::serial::{prefixed, ReadOutcome};
use crate::text::decode_lossy;

verus! {

/// A validated batch run.
pub struct BatchPlan {
    pub batch_file: String,
    pub port_name: String,
    pub baud: u32,
    /// Pause after each command, in milliseconds (0 for none).
    pub delay_ms: u64,
}

/// Checks the options of batch mode: a batch file and a port are required;
/// the delay defaults to none.
pub fn plan_batch(cli: &Cli) -> (r: Result<BatchPlan, AppError>)
    ensures
        cli.batch is None ==> (r matches Err(AppError::Other(m)) && m@ == "batch file path is required"@),
        cli.batch is Some && cli.port is None ==> (r matches Err(AppError::Other(m))
            && m@ == "serial port is required for batch mode (--port)"@),
        cli.batch is Some && cli.port is Some ==> (r matches Ok(plan) && plan.batch_file@
            == cli.batch->0@ && plan.port_name@ == cli.port->0@ && plan.baud == cli.baud && plan.delay_ms
            == (match cli.delay_ms {
            Some(d) => d,
            None => 0,
        })),
{
    let batch_file = match &cli.batch {
        Some(b) => b.clone(),
        None => {
            return Err(AppError::Other("batch file path is required".to_owned()));
        },
    };
    let port_name = match &cli.port {
        Some(p) => p.clone(),
        None => {
            return Err(AppError::Other("serial port is required for batch mode (--port)".to_owned()));
        },
    };
    let delay_ms = match cli.delay_ms {
        Some(d) => d,
        None => 0,
    };
    Ok(BatchPlan { batch_file, port_name, baud: cli.baud, delay_ms })
}

/// How batch mode opens its port: the plan's port and baud rate, 8 data
/// bits, one stop bit, no parity, no flow control and a 200 ms read timeout.
pub fn batch_port_config(plan: &BatchPlan) -> (c: SerialConfig)
    ensures
        c.port_name@ == plan.port_name@,
        c.baud_rate == plan.baud,
        c.data_bits == 8,
        c.stop_bits == StopBits::One,
        c.parity == Parity::NoParity,
        c.flow_control == FlowControl::NoFlow,
        c.timeout_ms == 200,
        !c.echo,
        c.commands_log_path is None,
        c.responses_log_path is None,
        c.profile_name is None,
{
    SerialConfig {
        port_name: plan.port_name.clone(),
        baud_rate: plan.baud,
        data_bits: 8,
        stop_bits: StopBits::One,
        parity: Parity::NoParity,
        flow_control: FlowControl::NoFlow,
        timeout_ms: 200,
        echo: false,
        commands_log_path: None,
        responses_log_path: None,
        profile_name: None,
    }
}

/// The bytes sent for a command: its UTF-8 encoding followed by CR LF.
pub fn frame_command(cmd: &str) -> (bytes: Vec<u8>)
    ensures
        bytes@ == cmd.spec_bytes() + seq![13u8, 10u8],
{
    let mut bytes = cmd.as_bytes_vec();
    bytes.push(13u8);
    bytes.push(10u8);
    bytes
}

/// One line of a batch file, ready to run.
pub struct BatchCommand {
    /// The command as logged.
    pub text: String,
    /// The bytes written to the port.
    pub bytes: Vec<u8>,
}

/// A line of a batch file: empty lines are skipped, any other is logged as
/// it is and sent framed with CR LF.
pub fn batch_command(line: &str) -> (c: Option<BatchCommand>)
    ensures
        line@.len() == 0 ==> c is None,
        line@.len() > 0 ==> (c matches Some(bc) && bc.text@ == line@ && bc.bytes@ == line.spec_bytes()
            + seq![13u8, 10u8]),
{
    if line.is_empty() {
        None
    } else {
        Some(BatchCommand { text: line.to_owned(), bytes: frame_command(line) })
    }
}

/// What batch mode does after a read while collecting a response.
pub enum BatchStep {
    /// Log and print this text, then read again.
    Response(String),
    /// Read again.
    Continue,
    /// The device is silent: go on with the next command.
    Finished,
    /// Stop the batch with this error.
    Fail(AppError),
}

/// Data read is decoded (invalid UTF-8 replaced) and shown; an empty read
/// reads again; a timeout ends the response; any other failure stops the
/// batch with `read error: <detail>`.
pub fn batch_after_read(outcome: ReadOutcome) -> (step: BatchStep)
    ensures
        outcome matches ReadOutcome::Data(data) ==> {
            &&& data@.len() > 0 ==> (step matches BatchStep::Response(t) && t@ == crate::text::lossy_utf8(
                data@,
            ))
            &&& data@.len() == 0 ==> step is Continue
        },
        outcome is TimedOut ==> step is Finished,
        outcome matches ReadOutcome::Failed(detail) ==> (step matches BatchStep::Fail(AppError::Serial(m))
            && m@ == "read error: "@ + detail@),
{
    match outcome {
        ReadOutcome::Data(data) => {
            if data.len() > 0 {
                BatchStep::Response(decode_lossy(data.as_slice()))
            } else {
                BatchStep::Continue
            }
        },
        ReadOutcome::TimedOut => BatchStep::Finished,
        ReadOutcome::Failed(detail) => BatchStep::Fail(
            AppError::Serial(prefixed("read error: ", detail.as_str())),
        ),
    }
}

} // verus!
