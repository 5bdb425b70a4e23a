use vstd::prelude::*;
use vstd::string::*;

use crate::app::{App, AppView};
use crate::model::{ChatMessage, FlowControl, MessageKind, Parity, StopBits};
use crate::selector::{PortSelectorState, SelectorView};
use crate::text::{decimal, decimal_string};

verus! {

/// The mark before a chat line: `>` sent, `<` received, `i` information,
/// `!` error.
pub open spec fn prefix_of(kind: MessageKind) -> Seq<char> {
    match kind {
        MessageKind::UserCommand => ">"@,
        MessageKind::DeviceResponse => "<"@,
        MessageKind::SystemInfo => "i"@,
        MessageKind::Error => "!"@,
    }
}

/// Each kind of message has its own one-character mark: `>` for sent
/// commands, `<` for device responses, `i` for information and `!` for
/// errors, so no two kinds look alike.
pub proof fn law_marks_distinct(k1: MessageKind, k2: MessageKind)
    ensures
        prefix_of(MessageKind::UserCommand) == seq!['>'],
        prefix_of(MessageKind::DeviceResponse) == seq!['<'],
        prefix_of(MessageKind::SystemInfo) == seq!['i'],
        prefix_of(MessageKind::Error) == seq!['!'],
        k1 != k2 ==> prefix_of(k1) != prefix_of(k2),
{
    reveal_strlit(">");
    reveal_strlit("<");
    reveal_strlit("i");
    reveal_strlit("!");
    assert(prefix_of(MessageKind::UserCommand) =~= seq!['>']);
    assert(prefix_of(MessageKind::DeviceResponse) =~= seq!['<']);
    assert(prefix_of(MessageKind::SystemInfo) =~= seq!['i']);
    assert(prefix_of(MessageKind::Error) =~= seq!['!']);
    if k1 != k2 {
        assert(prefix_of(k1)[0] != prefix_of(k2)[0]);
    }
}

/// The mark before a chat line (see [`prefix_of`]).
pub fn message_prefix(kind: MessageKind) -> (p: &'static str)
    ensures
        p@ == prefix_of(kind),
{
    match kind {
        MessageKind::UserCommand => ">",
        MessageKind::DeviceResponse => "<",
        MessageKind::SystemInfo => "i",
        MessageKind::Error => "!",
    }
}

/// A chat line as shown: `[<time>] <mark> <text>`, where `time` is the
/// message's time of day as `HH:MM:SS`.
pub fn format_message(time: &str, msg: &ChatMessage) -> (line: String)
    ensures
        line@ == "["@ + time@ + "] "@ + prefix_of(msg.kind) + " "@ + msg.text@,
{
    let mut line = "[".to_owned();
    line.append(time);
    line.append("] ");
    line.append(message_prefix(msg.kind));
    line.append(" ");
    line.append(msg.text.as_str());
    line
}

/// The status bar: the active tab's title when it has a port (`No Port`
/// otherwise), the echo state and the key bindings.
pub open spec fn status_text(a: AppView) -> Seq<char> {
    let port_label = if a.active().port_id is Some { a.active().title } else { "No Port"@ };
    "COMChat | Port: "@ + port_label + " | Echo: "@ + (if a.echo { "On"@ } else { "Off"@ })
        + " | Esc: quit, Ctrl+E: echo, Ctrl+P: ports, Tab/Shift+Tab: switch tab"@
}

/// The status bar (see [`status_text`]).
pub fn status_line(app: &App) -> (s: String)
    requires
        app.wf(),
    ensures
        s@ == status_text(app.view()),
{
    let tab = &app.tabs[app.active_tab];
    let mut s = "COMChat | Port: ".to_owned();
    match tab.port_id {
        Some(_) => s.append(tab.title.as_str()),
        None => s.append("No Port"),
    }
    s.append(" | Echo: ");
    if app.echo {
        s.append("On");
    } else {
        s.append("Off");
    }
    s.append(" | Esc: quit, Ctrl+E: echo, Ctrl+P: ports, Tab/Shift+Tab: switch tab");
    s
}

/// The titles shown in the tab bar, in tab order.
pub fn tab_titles(app: &App) -> (titles: Vec<String>)
    ensures
        titles.deep_view() == app.view().tabs.map_values(|t: crate::app::TabView| t.title),
{
    let ghost tabs = app.view().tabs;
    let mut titles: Vec<String> = Vec::new();
    let mut i: usize = 0;
    while i < app.tabs.len()
        invariant
            tabs == app.view().tabs,
            0 <= i <= app.tabs@.len(),
            titles.deep_view() == tabs.take(i as int).map_values(|t: crate::app::TabView| t.title),
        decreases app.tabs.len() - i,
    {
        let ghost before = titles.deep_view();
        let t = app.tabs[i].title.clone();
        assert(tabs[i as int].title == t@);
        let ghost tv = t@;
        titles.push(t);
        assert(titles.deep_view() =~= before.push(tv));
        assert(titles.deep_view() =~= tabs.take(i + 1).map_values(|t: crate::app::TabView| t.title));
        i = i + 1;
    }
    assert(tabs.take(tabs.len() as int) =~= tabs);
    titles
}

/// Names of the settings as the selector shows them.
pub open spec fn parity_name(p: Parity) -> Seq<char> {
    match p {
        Parity::NoParity => "None"@,
        Parity::Even => "Even"@,
        Parity::Odd => "Odd"@,
    }
}

pub open spec fn stop_bits_name(s: StopBits) -> Seq<char> {
    match s {
        StopBits::One => "One"@,
        StopBits::Two => "Two"@,
    }
}

pub open spec fn flow_control_name(f: FlowControl) -> Seq<char> {
    match f {
        FlowControl::NoFlow => "None"@,
        FlowControl::Hardware => "Hardware"@,
        FlowControl::Software => "Software"@,
    }
}

/// The settings line of the port selector:
/// `Baud: <rate> | Parity: <p> | Stop: <s> | Flow: <f>`.
pub open spec fn settings_text(s: SelectorView) -> Seq<char> {
    "Baud: "@ + decimal(s.baud_rate as nat) + " | Parity: "@ + parity_name(s.parity) + " | Stop: "@
        + stop_bits_name(s.stop_bits) + " | Flow: "@ + flow_control_name(s.flow_control)
}

/// The lines of the port selector: each port's label after `>` when it is
/// selected and a space otherwise, an empty line, and the settings line.
pub open spec fn selector_text(s: SelectorView) -> Seq<Seq<char>> {
    Seq::new(
        s.ports.len(),
        |i: int| (if i == s.selected { ">"@ } else { " "@ }) + " "@ + s.ports[i].1,
    ).push(Seq::empty()).push(settings_text(s))
}

/// The lines of the port selector (see [`selector_text`]).
pub fn selector_lines(st: &PortSelectorState) -> (lines: Vec<String>)
    ensures
        lines.deep_view() == selector_text(st.deep_view()),
{
    let ghost sv = st.deep_view();
    let mut lines: Vec<String> = Vec::new();
    let mut i: usize = 0;
    while i < st.ports.len()
        invariant
            sv == st.deep_view(),
            0 <= i <= st.ports@.len(),
            lines.deep_view() == Seq::new(
                i as nat,
                |j: int| (if j == sv.selected { ">"@ } else { " "@ }) + " "@ + sv.ports[j].1,
            ),
        decreases st.ports.len() - i,
    {
        let mut line = if i == st.selected {
            ">".to_owned()
        } else {
            " ".to_owned()
        };
        line.append(" ");
        line.append(st.ports[i].label.as_str());
        let ghost before = lines.deep_view();
        let ghost lv = line@;
        assert(sv.ports[i as int].1 == st.ports@[i as int].label@);
        lines.push(line);
        assert(lines.deep_view() =~= before.push(lv));
        assert(lines.deep_view() =~= Seq::new(
            (i + 1) as nat,
            |j: int| (if j == sv.selected { ">"@ } else { " "@ }) + " "@ + sv.ports[j].1,
        ));
        i = i + 1;
    }
    lines.push(String::new());
    let mut settings = "Baud: ".to_owned();
    let digits = decimal_string(st.baud_rate as u64);
    settings.append(digits.as_str());
    settings.append(" | Parity: ");
    settings.append(
        match st.parity {
            Parity::NoParity => "None",
            Parity::Even => "Even",
            Parity::Odd => "Odd",
        },
    );
    settings.append(" | Stop: ");
    settings.append(
        match st.stop_bits {
            StopBits::One => "One",
            StopBits::Two => "Two",
        },
    );
    settings.append(" | Flow: ");
    settings.append(
        match st.flow_control {
            FlowControl::NoFlow => "None",
            FlowControl::Hardware => "Hardware",
            FlowControl::Software => "Software",
        },
    );
    let ghost before = lines.deep_view();
    lines.push(settings);
    assert(lines.deep_view() =~= selector_text(sv));
    lines
}

} // verus!
