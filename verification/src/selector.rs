use vstd::prelude::*;

use crate::config::{law_upsert_then_lookup, profile_index, upserted, AppConfig, PortProfile};
use crate::model::{FlowControl, Parity, SerialConfig, StopBits};

verus! {

/// A port offered by the port selector: its system name and the label shown.
pub struct PortChoice {
    pub name: String,
    pub label: String,
}

/// The serial settings the port selector edits.
#[derive(Debug, Clone, Copy, PartialEq, Eq, Structural)]
pub struct PortSettings {
    pub baud_rate: u32,
    pub parity: Parity,
    pub stop_bits: StopBits,
    pub flow_control: FlowControl,
}

/// The port selector: the ports offered, the settings saved for each, the one
/// selected, and the serial settings to open it with.
pub struct PortSelectorState {
    pub ports: Vec<PortChoice>,
    pub presets: Vec<PortSettings>,
    pub selected: usize,
    pub baud_rate: u32,
    pub parity: Parity,
    pub stop_bits: StopBits,
    pub flow_control: FlowControl,
}

/// The port selector as a mathematical value; each port as (name, label).
pub struct SelectorView {
    pub ports: Seq<(Seq<char>, Seq<char>)>,
    pub presets: Seq<PortSettings>,
    pub selected: int,
    pub baud_rate: u32,
    pub parity: Parity,
    pub stop_bits: StopBits,
    pub flow_control: FlowControl,
}

impl DeepView for PortSelectorState {
    type V = SelectorView;

    open spec fn deep_view(&self) -> SelectorView {
        SelectorView {
            ports: self.ports@.map_values(|c: PortChoice| (c.name@, c.label@)),
            presets: self.presets@,
            selected: self.selected as int,
            baud_rate: self.baud_rate,
            parity: self.parity,
            stop_bits: self.stop_bits,
            flow_control: self.flow_control,
        }
    }
}

impl SelectorView {
    /// Each offered port has its saved settings, and the selection is on an
    /// offered port, or at 0 when none is offered.
    pub open spec fn wf(self) -> bool {
        &&& self.presets.len() == self.ports.len()
        &&& if self.ports.len() == 0 {
            self.selected == 0
        } else {
            0 <= self.selected < self.ports.len()
        }
    }

    /// The selector with the settings shown replaced.
    pub open spec fn with_settings(self, p: PortSettings) -> SelectorView {
        SelectorView {
            baud_rate: p.baud_rate,
            parity: p.parity,
            stop_bits: p.stop_bits,
            flow_control: p.flow_control,
            ..self
        }
    }

    /// The selection moved to `i`: when it changes, the settings saved for
    /// the newly selected port are shown; otherwise nothing changes.
    pub open spec fn moved_to(self, i: int) -> SelectorView {
        if i == self.selected {
            self
        } else {
            SelectorView { selected: i, ..self }.with_settings(self.presets[i])
        }
    }

    /// Up: the previous port, staying at the first.
    pub open spec fn moved_up(self) -> SelectorView {
        self.moved_to(if self.selected > 0 { self.selected - 1 } else { self.selected })
    }

    /// Down: the next port, staying at the last.
    pub open spec fn moved_down(self) -> SelectorView {
        self.moved_to(if self.selected + 1 < self.ports.len() { self.selected + 1 } else { self.selected })
    }
}

/// The baud rate after `+`: the next of 9600, 19200, 38400, 57600, 115200
/// and 230400 above the current one, wrapping around to 9600.
pub open spec fn next_baud(b: u32) -> u32 {
    if b < 9600 {
        9600
    } else if b < 19200 {
        19200
    } else if b < 38400 {
        38400
    } else if b < 57600 {
        57600
    } else if b < 115200 {
        115200
    } else if b < 230400 {
        230400
    } else {
        9600
    }
}

/// The baud rate after `-`: the previous of the rates offered below the
/// current one, wrapping around to 230400.
pub open spec fn previous_baud(b: u32) -> u32 {
    if b > 230400 {
        230400
    } else if b > 115200 {
        115200
    } else if b > 57600 {
        57600
    } else if b > 38400 {
        38400
    } else if b > 19200 {
        19200
    } else if b > 9600 {
        9600
    } else {
        230400
    }
}

/// Parity after `P`: none, even, odd, and none again.
pub open spec fn next_parity(p: Parity) -> Parity {
    match p {
        Parity::NoParity => Parity::Even,
        Parity::Even => Parity::Odd,
        Parity::Odd => Parity::NoParity,
    }
}

/// Stop bits after `S`: one and two alternate.
pub open spec fn next_stop_bits(s: StopBits) -> StopBits {
    match s {
        StopBits::One => StopBits::Two,
        StopBits::Two => StopBits::One,
    }
}

/// Flow control after `F`: none, hardware, software, and none again.
pub open spec fn next_flow_control(f: FlowControl) -> FlowControl {
    match f {
        FlowControl::NoFlow => FlowControl::Hardware,
        FlowControl::Hardware => FlowControl::Software,
        FlowControl::Software => FlowControl::NoFlow,
    }
}

/// `+`: the next baud rate.
pub fn baud_up(b: u32) -> (r: u32)
    ensures
        r == next_baud(b),
{
    if b < 9600 {
        9600
    } else if b < 19200 {
        19200
    } else if b < 38400 {
        38400
    } else if b < 57600 {
        57600
    } else if b < 115200 {
        115200
    } else if b < 230400 {
        230400
    } else {
        9600
    }
}

/// `-`: the previous baud rate.
pub fn baud_down(b: u32) -> (r: u32)
    ensures
        r == previous_baud(b),
{
    if b > 230400 {
        230400
    } else if b > 115200 {
        115200
    } else if b > 57600 {
        57600
    } else if b > 38400 {
        38400
    } else if b > 19200 {
        19200
    } else if b > 9600 {
        9600
    } else {
        230400
    }
}

/// `P`: the next parity.
pub fn parity_cycle(p: Parity) -> (r: Parity)
    ensures
        r == next_parity(p),
{
    match p {
        Parity::NoParity => Parity::Even,
        Parity::Even => Parity::Odd,
        Parity::Odd => Parity::NoParity,
    }
}

/// `S`: the other stop-bit setting.
pub fn stop_bits_cycle(s: StopBits) -> (r: StopBits)
    ensures
        r == next_stop_bits(s),
{
    match s {
        StopBits::One => StopBits::Two,
        StopBits::Two => StopBits::One,
    }
}

/// `F`: the next flow control.
pub fn flow_control_cycle(f: FlowControl) -> (r: FlowControl)
    ensures
        r == next_flow_control(f),
{
    match f {
        FlowControl::NoFlow => FlowControl::Hardware,
        FlowControl::Hardware => FlowControl::Software,
        FlowControl::Software => FlowControl::NoFlow,
    }
}

/// Pressing `+` six times, or `-` six times, comes back to a rate offered.
pub proof fn law_baud_cycles(b: u32)
    requires
        b == 9600 || b == 19200 || b == 38400 || b == 57600 || b == 115200 || b == 230400,
    ensures
        next_baud(next_baud(next_baud(next_baud(next_baud(next_baud(b)))))) == b,
        previous_baud(previous_baud(previous_baud(previous_baud(previous_baud(previous_baud(b)))))) == b,
        previous_baud(next_baud(b)) == b,
        next_baud(previous_baud(b)) == b,
{
}

/// Parity and flow control come back after three presses, stop bits after two.
pub proof fn law_settings_cycle(p: Parity, s: StopBits, f: FlowControl)
    ensures
        next_parity(next_parity(next_parity(p))) == p,
        next_stop_bits(next_stop_bits(s)) == s,
        next_flow_control(next_flow_control(next_flow_control(f))) == f,
{
}

/// The settings the selector shows for a port: those of its saved profile,
/// or 115200 baud, no parity, one stop bit and no flow control.
pub open spec fn settings_for(profiles: Seq<PortProfile>, name: Seq<char>) -> PortSettings {
    match profile_index(profiles, name) {
        Some(i) => PortSettings {
            baud_rate: profiles[i].baud_rate,
            parity: profiles[i].parity,
            stop_bits: profiles[i].stop_bits,
            flow_control: profiles[i].flow_control,
        },
        None => default_settings(),
    }
}

/// 115200 baud, no parity, one stop bit and no flow control.
pub open spec fn default_settings() -> PortSettings {
    PortSettings {
        baud_rate: 115_200,
        parity: Parity::NoParity,
        stop_bits: StopBits::One,
        flow_control: FlowControl::NoFlow,
    }
}

/// The settings shown for a port (see [`settings_for`]).
fn settings_of(cfg: &AppConfig, name: &str) -> (p: PortSettings)
    ensures
        p == settings_for(cfg.profiles@, name@),
{
    match cfg.profile_for_port(name) {
        Some(pr) => PortSettings {
            baud_rate: pr.baud_rate,
            parity: pr.parity,
            stop_bits: pr.stop_bits,
            flow_control: pr.flow_control,
        },
        None => PortSettings {
            baud_rate: 115_200,
            parity: Parity::NoParity,
            stop_bits: StopBits::One,
            flow_control: FlowControl::NoFlow,
        },
    }
}

/// The selector shows all four saved settings of a port's profile, and the
/// defaults (115200 baud, no parity, one stop bit, no flow control) for a
/// port without one.
pub proof fn law_saved_settings_shown(ps: Seq<PortProfile>, name: Seq<char>)
    ensures
        profile_index(ps, name) matches Some(i) ==> {
            &&& settings_for(ps, name).baud_rate == ps[i].baud_rate
            &&& settings_for(ps, name).parity == ps[i].parity
            &&& settings_for(ps, name).stop_bits == ps[i].stop_bits
            &&& settings_for(ps, name).flow_control == ps[i].flow_control
        },
        profile_index(ps, name) is None ==> {
            &&& settings_for(ps, name).baud_rate == 115_200
            &&& settings_for(ps, name).parity == Parity::NoParity
            &&& settings_for(ps, name).stop_bits == StopBits::One
            &&& settings_for(ps, name).flow_control == FlowControl::NoFlow
        },
{
}

/// After a profile is saved for a port, the selector pre-fills that port
/// with exactly the saved baud rate, parity, stop bits and flow control.
pub proof fn law_saved_profile_prefills(ps: Seq<PortProfile>, p: PortProfile)
    ensures
        settings_for(upserted(ps, p), p.port_name@).baud_rate == p.baud_rate,
        settings_for(upserted(ps, p), p.port_name@).parity == p.parity,
        settings_for(upserted(ps, p), p.port_name@).stop_bits == p.stop_bits,
        settings_for(upserted(ps, p), p.port_name@).flow_control == p.flow_control,
{
    law_upsert_then_lookup(ps, p);
}

impl PortSelectorState {
    /// Shows the given settings.
    fn show(&mut self, p: PortSettings)
        ensures
            final(self).deep_view() == old(self).deep_view().with_settings(p),
    {
        self.baud_rate = p.baud_rate;
        self.parity = p.parity;
        self.stop_bits = p.stop_bits;
        self.flow_control = p.flow_control;
    }

    /// The selector over `ports`, each with the settings saved for it (see
    /// [`settings_for`]), the first one selected and its settings shown.
    pub fn open(ports: Vec<PortChoice>, cfg: &AppConfig) -> (s: Self)
        ensures
            s.deep_view().wf(),
            s.deep_view().ports == ports@.map_values(|c: PortChoice| (c.name@, c.label@)),
            s.deep_view().presets == Seq::new(
                ports@.len(),
                |i: int| settings_for(cfg.profiles@, ports@[i].name@),
            ),
            s.selected == 0,
            ports@.len() > 0 ==> s.deep_view() == s.deep_view().with_settings(
                settings_for(cfg.profiles@, ports@[0].name@),
            ),
            ports@.len() == 0 ==> s.deep_view() == s.deep_view().with_settings(default_settings()),
    {
        let mut presets: Vec<PortSettings> = Vec::new();
        let mut i: usize = 0;
        while i < ports.len()
            invariant
                0 <= i <= ports@.len(),
                presets@ == Seq::new(i as nat, |j: int| settings_for(cfg.profiles@, ports@[j].name@)),
            decreases ports.len() - i,
        {
            let p = settings_of(cfg, ports[i].name.as_str());
            presets.push(p);
            assert(presets@ =~= Seq::new((i + 1) as nat, |j: int| settings_for(cfg.profiles@, ports@[j].name@)));
            i = i + 1;
        }
        let first = if ports.len() > 0 {
            presets[0]
        } else {
            PortSettings {
                baud_rate: 115_200,
                parity: Parity::NoParity,
                stop_bits: StopBits::One,
                flow_control: FlowControl::NoFlow,
            }
        };
        PortSelectorState {
            ports,
            presets,
            selected: 0,
            baud_rate: first.baud_rate,
            parity: first.parity,
            stop_bits: first.stop_bits,
            flow_control: first.flow_control,
        }
    }

    /// Up (see [`SelectorView::moved_up`]).
    pub fn select_previous(&mut self)
        requires
            old(self).deep_view().wf(),
        ensures
            final(self).deep_view() == old(self).deep_view().moved_up(),
            final(self).deep_view().wf(),
    {
        if self.selected > 0 {
            self.selected = self.selected - 1;
            let p = self.presets[self.selected];
            self.show(p);
        }
    }

    /// Down (see [`SelectorView::moved_down`]).
    pub fn select_next(&mut self)
        requires
            old(self).deep_view().wf(),
        ensures
            final(self).deep_view() == old(self).deep_view().moved_down(),
            final(self).deep_view().wf(),
    {
        if self.ports.len() > 0 && self.selected < self.ports.len() - 1 {
            self.selected = self.selected + 1;
            let p = self.presets[self.selected];
            self.show(p);
        }
    }

    /// Enter: the configuration to open the selected port with (8 data bits,
    /// 100 ms timeout, no logs, the selector's settings and the given echo);
    /// none when no port is offered.
    pub fn chosen_config(&self, echo: bool) -> (c: Option<SerialConfig>)
        requires
            self.deep_view().wf(),
        ensures
            self.ports@.len() == 0 ==> c is None,
            self.ports@.len() > 0 ==> (c matches Some(cfg) && {
                &&& cfg.port_name@ == self.ports@[self.selected as int].name@
                &&& cfg.baud_rate == self.baud_rate
                &&& cfg.data_bits == 8
                &&& cfg.stop_bits == self.stop_bits
                &&& cfg.parity == self.parity
                &&& cfg.flow_control == self.flow_control
                &&& cfg.timeout_ms == 100
                &&& cfg.echo == echo
                &&& cfg.commands_log_path is None
                &&& cfg.responses_log_path is None
                &&& cfg.profile_name is None
            }),
    {
        if self.ports.len() == 0 {
            return None;
        }
        Some(SerialConfig {
            port_name: self.ports[self.selected].name.clone(),
            baud_rate: self.baud_rate,
            data_bits: 8,
            stop_bits: self.stop_bits,
            parity: self.parity,
            flow_control: self.flow_control,
            timeout_ms: 100,
            echo,
            commands_log_path: None,
            responses_log_path: None,
            profile_name: None,
        })
    }
}

} // verus!
