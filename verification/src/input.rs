use vstd::prelude::*;

use crate::app::{submission_matches, App, AppView, ModeView, Submission, UiMode};
use crate::model::SerialConfig;
use crate::selector::{
    baud_up, baud_down, flow_control_cycle, next_baud, next_flow_control, next_parity, next_stop_bits,
    parity_cycle, previous_baud, stop_bits_cycle, PortSelectorState, SelectorView,
};

verus! {

/// A key press, as the user interface distinguishes them.
pub enum Key {
    Char(char),
    Backspace,
    Enter,
    Esc,
    Up,
    Down,
    Left,
    Right,
    Tab,
    BackTab,
    CtrlE,
    CtrlP,
    Other,
}

/// Whether the application goes on after a key press.
#[derive(Debug, Clone, Copy, PartialEq, Eq, Structural)]
pub enum InputOutcome {
    Continue,
    Quit,
}

/// Work a key press hands to the rest of the application.
pub enum UiAction {
    /// Log, record and send a submitted command.
    Send(Submission),
    /// Offer the available ports in the port selector.
    ListPorts,
    /// Open a port with this configuration for the active tab.
    OpenPort(SerialConfig),
}

/// The result of a key press.
pub struct KeyResult {
    pub outcome: InputOutcome,
    pub action: Option<UiAction>,
}

/// The port selector after a key other than Enter and Esc: Up/Down move the
/// selection (showing the newly selected port's saved settings), `+`/Right and `-`/Left change the baud rate, `P`, `S` and `F`
/// cycle parity, stop bits and flow control; other keys do nothing.
pub open spec fn selector_key(s: SelectorView, key: Key) -> SelectorView {
    match key {
        Key::Up => s.moved_up(),
        Key::Down => s.moved_down(),
        Key::Right => SelectorView { baud_rate: next_baud(s.baud_rate), ..s },
        Key::Left => SelectorView { baud_rate: previous_baud(s.baud_rate), ..s },
        Key::Char(c) => if c == '+' {
            SelectorView { baud_rate: next_baud(s.baud_rate), ..s }
        } else if c == '-' {
            SelectorView { baud_rate: previous_baud(s.baud_rate), ..s }
        } else if c == 'p' || c == 'P' {
            SelectorView { parity: next_parity(s.parity), ..s }
        } else if c == 's' || c == 'S' {
            SelectorView { stop_bits: next_stop_bits(s.stop_bits), ..s }
        } else if c == 'f' || c == 'F' {
            SelectorView { flow_control: next_flow_control(s.flow_control), ..s }
        } else {
            s
        },
        _ => s,
    }
}

/// The state after a key press. In the chat: characters and Backspace edit
/// the command, Enter submits it, Up/Down browse the history, Tab/Shift+Tab
/// switch tabs, Ctrl+E toggles echo; Esc, Ctrl+P and other keys change
/// nothing here. In the port selector: Enter and Esc close it, other keys
/// act as [`selector_key`] says.
pub open spec fn key_handled(a: AppView, key: Key, now: u64) -> AppView {
    match a.mode {
        ModeView::Normal => match key {
            Key::Char(c) => a.typed(c),
            Key::Backspace => a.backspaced(),
            Key::Enter => a.submitted(now),
            Key::Up => a.history_up(),
            Key::Down => a.history_down(),
            Key::Tab => a.tab_forward(),
            Key::BackTab => a.tab_backward(),
            Key::CtrlE => a.echo_toggled(),
            _ => a,
        },
        ModeView::PortSelector(s) => match key {
            Key::Enter => a.with_mode(ModeView::Normal),
            Key::Esc => a.with_mode(ModeView::Normal),
            _ => a.with_mode(ModeView::PortSelector(selector_key(s, key))),
        },
    }
}

/// In the port selector, Left acts as `-` and Right as `+`: Left lowers the
/// baud rate (wrapping from the lowest offered rate to the highest), Right
/// raises it (wrapping from the highest to the lowest), and for an offered
/// rate Left then Right, or Right then Left, comes back to it.
pub proof fn law_arrows_change_baud(a: AppView, now: u64)
    requires
        a.mode is PortSelector,
    ensures
        ({
            let b = a.mode->PortSelector_0.baud_rate;
            let left = key_handled(a, Key::Left, now);
            let right = key_handled(a, Key::Right, now);
            &&& left == key_handled(a, Key::Char('-'), now)
            &&& right == key_handled(a, Key::Char('+'), now)
            &&& b > 9600 ==> left.mode->PortSelector_0.baud_rate < b
            &&& b <= 9600 ==> left.mode->PortSelector_0.baud_rate == 230400
            &&& b < 230400 ==> right.mode->PortSelector_0.baud_rate > b
            &&& b >= 230400 ==> right.mode->PortSelector_0.baud_rate == 9600
            &&& (b == 9600 || b == 19200 || b == 38400 || b == 57600 || b == 115200 || b == 230400) ==> {
                &&& key_handled(left, Key::Right, now) == a
                &&& key_handled(right, Key::Left, now) == a
            }
        }),
{
}

/// Handles a key press (see [`key_handled`]). Esc in the chat quits. Enter in
/// the chat hands on the submitted command, if one was typed; Ctrl+P asks for
/// the port list; Enter in the port selector hands on the configuration for
/// the selected port, if any is offered.
pub fn handle_key(app: &mut App, key: Key, now: u64) -> (r: KeyResult)
    requires
        old(app).wf(),
    ensures
        final(app).wf(),
        final(app).view() == key_handled(old(app).view(), key, now),
        (r.outcome == InputOutcome::Quit) == (old(app).view().mode is Normal && key is Esc),
        old(app).view().mode is Normal ==> {
            &&& key is Enter && old(app).view().active().input.len() > 0 ==> (r.action matches Some(
                UiAction::Send(sub),
            ) && submission_matches(old(app).view(), sub))
            &&& key is CtrlP ==> (r.action matches Some(UiAction::ListPorts))
            &&& !(key is CtrlP) && !(key is Enter && old(app).view().active().input.len() > 0)
                ==> r.action is None
        },
        old(app).mode matches UiMode::PortSelector(st) ==> {
            &&& key is Enter && st.ports@.len() > 0 ==> (r.action matches Some(UiAction::OpenPort(cfg)) && {
                &&& cfg.port_name@ == st.ports@[st.selected as int].name@
                &&& cfg.baud_rate == st.baud_rate
                &&& cfg.data_bits == 8
                &&& cfg.stop_bits == st.stop_bits
                &&& cfg.parity == st.parity
                &&& cfg.flow_control == st.flow_control
                &&& cfg.timeout_ms == 100
                &&& cfg.echo == old(app).echo
                &&& cfg.commands_log_path is None
                &&& cfg.responses_log_path is None
                &&& cfg.profile_name is None
            })
            &&& !(key is Enter && st.ports@.len() > 0) ==> r.action is None
        },
{
    let in_selector = match &app.mode {
        UiMode::PortSelector(_) => true,
        UiMode::Normal => false,
    };
    if !in_selector {
        let mut action: Option<UiAction> = None;
        let mut outcome = InputOutcome::Continue;
        match key {
            Key::Char(c) => app.type_char(c),
            Key::Backspace => app.backspace(),
            Key::Enter => {
                match app.submit_input(now) {
                    Some(sub) => {
                        action = Some(UiAction::Send(sub));
                    },
                    None => {},
                }
            },
            Key::Esc => {
                outcome = InputOutcome::Quit;
            },
            Key::Up => app.history_up(),
            Key::Down => app.history_down(),
            Key::Tab => app.next_tab(),
            Key::BackTab => app.previous_tab(),
            Key::CtrlE => app.toggle_echo(),
            Key::CtrlP => {
                action = Some(UiAction::ListPorts);
            },
            _ => {},
        }
        KeyResult { outcome, action }
    } else {
        let mut mode = UiMode::Normal;
        std::mem::swap(&mut mode, &mut app.mode);
        match mode {
            UiMode::PortSelector(mut st) => {
                let mut action: Option<UiAction> = None;
                match key {
                    Key::Enter => {
                        match st.chosen_config(app.echo) {
                            Some(cfg) => {
                                action = Some(UiAction::OpenPort(cfg));
                            },
                            None => {},
                        }
                    },
                    Key::Esc => {},
                    _ => {
                        apply_selector_key(&mut st, key);
                        app.mode = UiMode::PortSelector(st);
                    },
                }
                KeyResult { outcome: InputOutcome::Continue, action }
            },
            UiMode::Normal => {
                KeyResult { outcome: InputOutcome::Continue, action: None }
            },
        }
    }
}

/// Applies a key to the port selector (see [`selector_key`]).
fn apply_selector_key(st: &mut PortSelectorState, key: Key)
    requires
        old(st).deep_view().wf(),
    ensures
        final(st).deep_view() == selector_key(old(st).deep_view(), key),
        final(st).deep_view().wf(),
{
    match key {
        Key::Up => st.select_previous(),
        Key::Down => st.select_next(),
        Key::Right => {
            st.baud_rate = baud_up(st.baud_rate);
        },
        Key::Left => {
            st.baud_rate = baud_down(st.baud_rate);
        },
        Key::Char(c) => {
            if c == '+' {
                st.baud_rate = baud_up(st.baud_rate);
            } else if c == '-' {
                st.baud_rate = baud_down(st.baud_rate);
            } else if c == 'p' || c == 'P' {
                st.parity = parity_cycle(st.parity);
            } else if c == 's' || c == 'S' {
                st.stop_bits = stop_bits_cycle(st.stop_bits);
            } else if c == 'f' || c == 'F' {
                st.flow_control = flow_control_cycle(st.flow_control);
            }
        },
        _ => {},
    }
}

} // verus!
