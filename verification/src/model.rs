use vstd::prelude::*;

verus! {

/// Identifier of an open serial port.
pub type PortId = u32;

/// Identifier of a chat tab.
pub type TabId = u32;

/// Flow control of a serial line.
#[derive(Debug, Clone, Copy, PartialEq, Eq, Structural)]
pub enum FlowControl {
    /// No flow control (`None` in configuration files).
    NoFlow,
    Hardware,
    Software,
}

/// Parity of a serial line.
#[derive(Debug, Clone, Copy, PartialEq, Eq, Structural)]
pub enum Parity {
    /// No parity bit (`None` in configuration files).
    NoParity,
    Even,
    Odd,
}

/// Stop bits of a serial line.
#[derive(Debug, Clone, Copy, PartialEq, Eq, Structural)]
pub enum StopBits {
    One,
    Two,
}

/// How to open a serial port.
#[derive(Debug, Clone)]
pub struct SerialConfig {
    pub port_name: String,
    pub baud_rate: u32,
    pub data_bits: u8,
    pub stop_bits: StopBits,
    pub parity: Parity,
    pub flow_control: FlowControl,
    pub timeout_ms: u64,
    pub echo: bool,
    pub commands_log_path: Option<String>,
    pub responses_log_path: Option<String>,
    pub profile_name: Option<String>,
}

impl Default for SerialConfig {
    /// 115200 baud, 8 data bits, one stop bit, no parity, no flow control,
    /// 100 ms read timeout, echo off, no port name, no log paths, no profile.
    fn default() -> (c: Self)
        ensures
            c.port_name@ == Seq::<char>::empty(),
            c.baud_rate == 115_200,
            c.data_bits == 8,
            c.stop_bits == StopBits::One,
            c.parity == Parity::NoParity,
            c.flow_control == FlowControl::NoFlow,
            c.timeout_ms == 100,
            !c.echo,
            c.commands_log_path is None,
            c.responses_log_path is None,
            c.profile_name is None,
    {
        SerialConfig {
            port_name: String::new(),
            baud_rate: 115_200,
            data_bits: 8,
            stop_bits: StopBits::One,
            parity: Parity::NoParity,
            flow_control: FlowControl::NoFlow,
            timeout_ms: 100,
            echo: false,
            commands_log_path: None,
            responses_log_path: None,
            profile_name: None,
        }
    }
}

/// Who a chat line comes from.
#[derive(Debug, Clone, Copy, PartialEq, Eq, Structural)]
pub enum MessageKind {
    UserCommand,
    DeviceResponse,
    SystemInfo,
    Error,
}

/// One line of a chat.
#[derive(Debug, Clone)]
pub struct ChatMessage {
    /// Milliseconds since the UNIX epoch.
    pub timestamp: u64,
    pub port_id: Option<PortId>,
    pub kind: MessageKind,
    pub text: String,
}

/// A chat line as a mathematical value.
pub struct MessageView {
    pub timestamp: u64,
    pub port_id: Option<PortId>,
    pub kind: MessageKind,
    pub text: Seq<char>,
}

impl DeepView for ChatMessage {
    type V = MessageView;

    open spec fn deep_view(&self) -> MessageView {
        MessageView {
            timestamp: self.timestamp,
            port_id: self.port_id,
            kind: self.kind,
            text: self.text@,
        }
    }
}

/// What a serial worker reports to the user interface.
#[derive(Debug, Clone)]
pub enum AppEvent {
    SerialData { port_id: PortId, data: Vec<u8> },
    SerialError { port_id: PortId, error: String },
    PortClosed { port_id: PortId },
}

} // verus!
