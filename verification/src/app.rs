use vstd::prelude::*;

use vstd::string::*;
use vstd::utf8::encode_utf8;

use crate::batch::frame_command;
use crate::history::history_line;
use crate::logging::{opt_text, spec_log_record, LogHandles, LogRecord, LogTargets};
use crate::model::{AppEvent, ChatMessage, MessageKind, MessageView, PortId, TabId};
use crate::config::AppConfig;
use crate::selector::{default_settings, settings_for, PortChoice, PortSelectorState, SelectorView};
use crate::text::{
    decimal, decimal_string, decode_lossy, lossy_utf8, pop_char, push_char, str_eq, strip_cr, strip_trailing_cr,
};

verus! {

/// The commands sent so far, oldest first, and the position of the entry
/// being browsed with Up/Down, if any.
pub struct CommandHistory {
    entries: Vec<String>,
    cursor: Option<usize>,
}

/// A command history as a mathematical value.
pub struct HistoryState {
    pub entries: Seq<Seq<char>>,
    pub cursor: Option<int>,
}

impl HistoryState {
    /// The cursor, when there is one, points at an entry.
    pub open spec fn wf(self) -> bool {
        self.cursor matches Some(i) ==> 0 <= i < self.entries.len()
    }

    /// Recording a command: an empty one is ignored; any other is appended
    /// and browsing starts again from the newest entry.
    pub open spec fn pushed(self, cmd: Seq<char>) -> HistoryState {
        if cmd.len() == 0 {
            self
        } else {
            HistoryState { entries: self.entries.push(cmd), cursor: None }
        }
    }

    /// The entry that Up moves to: the one before the cursor, the oldest one
    /// again when the cursor is already there, the newest one when nothing is
    /// browsed; none when the history is empty.
    pub open spec fn previous_index(self) -> Option<int> {
        if self.entries.len() == 0 {
            None
        } else {
            match self.cursor {
                Some(i) => if i > 0 { Some(i - 1) } else { Some(i) },
                None => Some(self.entries.len() - 1),
            }
        }
    }

    /// Up: the state afterwards and the entry shown.
    pub open spec fn previous(self) -> (HistoryState, Option<Seq<char>>) {
        match self.previous_index() {
            Some(i) => (HistoryState { entries: self.entries, cursor: Some(i) }, Some(self.entries[i])),
            None => (self, None),
        }
    }

    /// Down: the entry after the cursor, when there is one; otherwise browsing
    /// ends and nothing is shown.
    pub open spec fn next(self) -> (HistoryState, Option<Seq<char>>) {
        if self.entries.len() == 0 {
            (self, None)
        } else {
            match self.cursor {
                Some(i) => if i + 1 < self.entries.len() {
                    (HistoryState { entries: self.entries, cursor: Some(i + 1) }, Some(self.entries[i + 1]))
                } else {
                    (HistoryState { entries: self.entries, cursor: None }, None)
                },
                None => (HistoryState { entries: self.entries, cursor: None }, None),
            }
        }
    }
}

/// After a non-empty command is recorded, Up shows that command.
pub proof fn law_push_then_previous(h: HistoryState, cmd: Seq<char>)
    requires
        h.wf(),
        cmd.len() > 0,
    ensures
        h.pushed(cmd).wf(),
        h.pushed(cmd).previous().1 == Some(cmd),
{
}

/// Browsing with Up and Down changes only the cursor, and keeps it on an entry.
pub proof fn law_browsing_keeps_entries(h: HistoryState)
    requires
        h.wf(),
    ensures
        h.previous().0.entries == h.entries,
        h.next().0.entries == h.entries,
        h.previous().0.wf(),
        h.next().0.wf(),
{
}

/// Down undoes Up: after Up and then Down the history is as before, and Down
/// shows the entry that was browsed before (nothing when none was); the one
/// exception is Up at the oldest entry, which stays there.
pub proof fn law_next_undoes_previous(h: HistoryState)
    requires
        h.wf(),
        h.entries.len() > 0,
        h.cursor != Some(0int),
    ensures
        h.previous().0.next().0 == h,
        h.previous().0.next().1 == (match h.cursor {
            Some(i) => Some(h.entries[i]),
            None => None,
        }),
{
}

/// Up at the oldest entry stays there and shows it again.
pub proof fn law_previous_stops_at_oldest(h: HistoryState)
    requires
        h.wf(),
        h.cursor == Some(0int),
    ensures
        h.previous() == (h, Some(h.entries[0])),
{
}

/// Down at the newest entry ends browsing and shows nothing.
pub proof fn law_next_past_newest_ends_browsing(h: HistoryState)
    requires
        h.wf(),
        h.entries.len() > 0,
        h.cursor == Some(h.entries.len() - 1),
    ensures
        h.next() == (HistoryState { entries: h.entries, cursor: None }, None::<Seq<char>>),
{
}

/// The history after pressing Up `k` times.
pub open spec fn previous_times(h: HistoryState, k: nat) -> HistoryState
    decreases k,
{
    if k == 0 {
        h
    } else {
        previous_times(h, (k - 1) as nat).previous().0
    }
}

/// Pressing Up `k` times when nothing is browsed reaches the `k`-th newest
/// entry, or the oldest one when there are fewer.
pub proof fn law_up_walks_back(h: HistoryState, k: nat)
    requires
        h.wf(),
        h.cursor is None,
        h.entries.len() > 0,
        k > 0,
    ensures
        previous_times(h, k).entries == h.entries,
        previous_times(h, k).cursor == Some(
            if k <= h.entries.len() { h.entries.len() - k } else { 0int },
        ),
    decreases k,
{
    let prev = previous_times(h, (k - 1) as nat);
    assert(previous_times(h, k) == prev.previous().0);
    if k > 1 {
        law_up_walks_back(h, (k - 1) as nat);
    } else {
        assert(prev == h);
    }
}

impl View for CommandHistory {
    type V = HistoryState;

    closed spec fn view(&self) -> HistoryState {
        HistoryState {
            entries: self.entries.deep_view(),
            cursor: match self.cursor {
                Some(i) => Some(i as int),
                None => None,
            },
        }
    }
}

impl CommandHistory {
    /// The history is consistent: its cursor points at an entry.
    pub open spec fn wf(&self) -> bool {
        self@.wf()
    }

    /// An empty history that is not being browsed.
    pub fn new() -> (h: Self)
        ensures
            h.wf(),
            h@.entries.len() == 0,
            h@.cursor is None,
    {
        CommandHistory { entries: Vec::new(), cursor: None }
    }

    /// A history holding the given commands, oldest first, not being browsed.
    pub fn from_entries(entries: Vec<String>) -> (h: Self)
        ensures
            h.wf(),
            h@.entries == entries.deep_view(),
            h@.cursor is None,
    {
        CommandHistory { entries, cursor: None }
    }

    /// Records a sent command (see [`HistoryState::pushed`]).
    pub fn push(&mut self, cmd: String)
        requires
            old(self).wf(),
        ensures
            final(self).wf(),
            final(self)@ == old(self)@.pushed(cmd@),
    {
        if !cmd.as_str().is_empty() {
            let ghost before = self.entries.deep_view();
            self.entries.push(cmd);
            assert(self.entries.deep_view() =~= before.push(cmd@));
            self.cursor = None;
        }
    }

    /// The newest command, if any.
    pub fn last(&self) -> (r: Option<&str>)
        ensures
            r matches Some(c) ==> last_command(self@) == Some(c@),
            r is None ==> last_command(self@) is None,
    {
        if self.entries.len() == 0 {
            None
        } else {
            Some(self.entries[self.entries.len() - 1].as_str())
        }
    }

    /// Up (see [`HistoryState::previous`]).
    pub fn previous(&mut self) -> (shown: Option<&str>)
        requires
            old(self).wf(),
        ensures
            final(self).wf(),
            final(self)@ == old(self)@.previous().0,
            shown matches Some(s) ==> old(self)@.previous().1 == Some(s@),
            shown is None ==> old(self)@.previous().1 is None,
    {
        if self.entries.len() == 0 {
            return None;
        }
        let idx = match self.cursor {
            Some(i) => if i > 0 { i - 1 } else { i },
            None => self.entries.len() - 1,
        };
        self.cursor = Some(idx);
        Some(self.entries[idx].as_str())
    }

    /// Down (see [`HistoryState::next`]).
    pub fn next(&mut self) -> (shown: Option<&str>)
        requires
            old(self).wf(),
        ensures
            final(self).wf(),
            final(self)@ == old(self)@.next().0,
            shown matches Some(s) ==> old(self)@.next().1 == Some(s@),
            shown is None ==> old(self)@.next().1 is None,
    {
        if self.entries.len() == 0 {
            return None;
        }
        let idx = match self.cursor {
            Some(i) => {
                if i + 1 < self.entries.len() {
                    i + 1
                } else {
                    self.cursor = None;
                    return None;
                }
            },
            None => {
                self.cursor = None;
                return None;
            },
        };
        self.cursor = Some(idx);
        Some(self.entries[idx].as_str())
    }
}

/// A chat tab: its title, the port it is attached to, its messages and the
/// command being typed.
pub struct Tab {
    pub id: TabId,
    pub title: String,
    pub port_id: Option<PortId>,
    pub messages: Vec<ChatMessage>,
    pub input: String,
}

/// A tab as a mathematical value.
pub struct TabView {
    pub id: TabId,
    pub title: Seq<char>,
    pub port_id: Option<PortId>,
    pub messages: Seq<MessageView>,
    pub input: Seq<char>,
}

impl DeepView for Tab {
    type V = TabView;

    open spec fn deep_view(&self) -> TabView {
        TabView {
            id: self.id,
            title: self.title@,
            port_id: self.port_id,
            messages: self.messages.deep_view(),
            input: self.input@,
        }
    }
}

impl TabView {
    /// The tab with another command being typed.
    pub open spec fn with_input(self, input: Seq<char>) -> TabView {
        TabView { input, ..self }
    }

    /// The tab with one more message at the end.
    pub open spec fn with_message(self, m: MessageView) -> TabView {
        TabView { messages: self.messages.push(m), ..self }
    }
}

/// What the keyboard drives: the chat, or the port selector over it.
pub enum UiMode {
    Normal,
    PortSelector(PortSelectorState),
}

/// The user-interface mode as a mathematical value.
pub enum ModeView {
    Normal,
    PortSelector(SelectorView),
}

impl DeepView for UiMode {
    type V = ModeView;

    open spec fn deep_view(&self) -> ModeView {
        match self {
            UiMode::Normal => ModeView::Normal,
            UiMode::PortSelector(s) => ModeView::PortSelector(s.deep_view()),
        }
    }
}

/// The state of the chat user interface.
pub struct App {
    pub tabs: Vec<Tab>,
    pub active_tab: usize,
    pub history: CommandHistory,
    pub echo: bool,
    pub logger: LogHandles,
    pub mode: UiMode,
}

/// The user interface as a mathematical value.
pub struct AppView {
    pub tabs: Seq<TabView>,
    pub active_tab: int,
    pub history: HistoryState,
    pub echo: bool,
    pub logger: LogTargets,
    pub mode: ModeView,
}

impl AppView {
    /// There is a tab, the active one exists, the history cursor points at
    /// an entry and the port selector's selection at an offered port.
    pub open spec fn wf(self) -> bool {
        &&& self.tabs.len() > 0
        &&& 0 <= self.active_tab < self.tabs.len()
        &&& self.history.wf()
        &&& self.mode matches ModeView::PortSelector(s) ==> s.wf()
    }

    /// The active tab.
    pub open spec fn active(self) -> TabView {
        self.tabs[self.active_tab]
    }

    /// The state with the active tab replaced.
    pub open spec fn with_active(self, t: TabView) -> AppView {
        AppView { tabs: self.tabs.update(self.active_tab, t), ..self }
    }

    /// A character typed: it is added to the active tab's command.
    pub open spec fn typed(self, c: char) -> AppView {
        self.with_active(self.active().with_input(self.active().input.push(c)))
    }

    /// Backspace: the last character of the active tab's command is removed.
    pub open spec fn backspaced(self) -> AppView {
        let input = self.active().input;
        if input.len() == 0 {
            self
        } else {
            self.with_active(self.active().with_input(input.drop_last()))
        }
    }

    /// Up: the previous command from the history replaces the one typed;
    /// when the history is empty nothing changes.
    pub open spec fn history_up(self) -> AppView {
        let (h, shown) = self.history.previous();
        match shown {
            Some(e) => AppView { history: h, ..self.with_active(self.active().with_input(e)) },
            None => AppView { history: h, ..self },
        }
    }

    /// Down: the next command from the history replaces the one typed, or
    /// the command line is cleared when there is none.
    pub open spec fn history_down(self) -> AppView {
        let (h, shown) = self.history.next();
        let e = match shown {
            Some(e) => e,
            None => Seq::empty(),
        };
        AppView { history: h, ..self.with_active(self.active().with_input(e)) }
    }

    /// Tab: the next tab becomes active, after the last one the first.
    pub open spec fn tab_forward(self) -> AppView {
        AppView {
            active_tab: if self.active_tab + 1 < self.tabs.len() { self.active_tab + 1 } else { 0 },
            ..self
        }
    }

    /// Shift+Tab: the previous tab becomes active, before the first the last.
    pub open spec fn tab_backward(self) -> AppView {
        AppView {
            active_tab: if self.active_tab == 0 { self.tabs.len() - 1 } else { self.active_tab - 1 },
            ..self
        }
    }

    /// Ctrl+E: echo of sent commands switched on or off.
    pub open spec fn echo_toggled(self) -> AppView {
        AppView { echo: !self.echo, ..self }
    }
}

/// A serial-worker event as a mathematical value.
pub enum EventView {
    SerialData { port_id: PortId, data: Seq<u8> },
    SerialError { port_id: PortId, error: Seq<char> },
    PortClosed { port_id: PortId },
}

impl DeepView for AppEvent {
    type V = EventView;

    open spec fn deep_view(&self) -> EventView {
        match self {
            AppEvent::SerialData { port_id, data } => EventView::SerialData { port_id: *port_id, data: data@ },
            AppEvent::SerialError { port_id, error } => EventView::SerialError {
                port_id: *port_id,
                error: error@,
            },
            AppEvent::PortClosed { port_id } => EventView::PortClosed { port_id: *port_id },
        }
    }
}

/// The position of the first tab attached to the port, if any.
pub open spec fn tab_for_port(tabs: Seq<TabView>, id: PortId) -> Option<int>
    decreases tabs.len(),
{
    if tabs.len() == 0 {
        None
    } else if tabs[0].port_id == Some(id) {
        Some(0)
    } else {
        match tab_for_port(tabs.drop_first(), id) {
            Some(i) => Some(i + 1),
            None => None,
        }
    }
}

proof fn lemma_tab_for_port_scan(tabs: Seq<TabView>, id: PortId, i: int)
    requires
        0 <= i <= tabs.len(),
        forall|j: int| 0 <= j < i ==> (#[trigger] tabs[j]).port_id != Some(id),
    ensures
        i < tabs.len() && tabs[i].port_id == Some(id) ==> tab_for_port(tabs, id) == Some(i),
        i == tabs.len() ==> tab_for_port(tabs, id) is None,
    decreases i,
{
    if i > 0 {
        let rest = tabs.drop_first();
        assert forall|j: int| 0 <= j < i - 1 implies (#[trigger] rest[j]).port_id != Some(id) by {
            assert(rest[j] == tabs[j + 1]);
        }
        lemma_tab_for_port_scan(rest, id, i - 1);
        assert(tabs[0].port_id != Some(id));
        if i < tabs.len() {
            assert(rest[i - 1] == tabs[i]);
        }
    } else if tabs.len() > 0 {
        assert(tabs[0] == tabs[i]);
    }
}

proof fn lemma_tab_for_port_bounds(tabs: Seq<TabView>, id: PortId)
    ensures
        tab_for_port(tabs, id) matches Some(i) ==> 0 <= i < tabs.len() && tabs[i].port_id == Some(id),
    decreases tabs.len(),
{
    if tabs.len() > 0 {
        lemma_tab_for_port_bounds(tabs.drop_first(), id);
    }
}

/// Reading a text from the start: its first line (without the line feed),
/// the text after the first line feed, and whether a line feed was met.
pub open spec fn split_first_line(s: Seq<char>) -> (Seq<char>, Seq<char>, bool)
    decreases s.len(),
{
    if s.len() == 0 {
        (Seq::empty(), Seq::empty(), false)
    } else {
        let p = split_first_line(s.drop_last());
        let c = s.last();
        if p.2 {
            (p.0, p.1.push(c), true)
        } else if c == '\n' {
            (p.0, p.1, true)
        } else {
            (p.0.push(c), p.1, false)
        }
    }
}

/// The device's echo of the last command: non-empty output whose first line
/// (a carriage return before the line feed ignored) is exactly the last
/// command sent.
pub open spec fn is_device_echo(text: Seq<char>, last: Option<Seq<char>>) -> bool {
    &&& text.len() > 0
    &&& last matches Some(cmd) && strip_cr(split_first_line(text).0) == cmd
}

/// What is shown of device output: for the device's echo of the last
/// command, what follows the echo line, or nothing when nothing follows; any
/// other output, the empty one included, in full.
pub open spec fn shown_text(text: Seq<char>, last: Option<Seq<char>>) -> Option<Seq<char>> {
    if is_device_echo(text, last) {
        let rest = split_first_line(text).1;
        if rest.len() == 0 {
            None
        } else {
            Some(rest)
        }
    } else {
        Some(text)
    }
}

/// The newest command of a history, if any.
pub open spec fn last_command(h: HistoryState) -> Option<Seq<char>> {
    if h.entries.len() == 0 {
        None
    } else {
        Some(h.entries.last())
    }
}

/// Text shown when a command is submitted in a tab without a port.
pub open spec fn no_port_text() -> Seq<char> {
    "No port attached to this tab"@
}

impl AppView {
    /// A message added to the first tab attached to the port; dropped when no
    /// tab is attached to it.
    pub open spec fn with_port_message(self, id: PortId, kind: MessageKind, text: Seq<char>, now: u64) -> AppView {
        match tab_for_port(self.tabs, id) {
            Some(i) => AppView {
                tabs: self.tabs.update(
                    i,
                    self.tabs[i].with_message(MessageView { timestamp: now, port_id: Some(id), kind, text }),
                ),
                ..self
            },
            None => self,
        }
    }

    /// Enter: the typed command leaves the command line and enters the
    /// history; it is echoed into the chat when echo is on; a tab without a
    /// port says so. Nothing happens when no command is typed.
    pub open spec fn submitted(self, now: u64) -> AppView {
        let t = self.active();
        let cmd = t.input;
        if cmd.len() == 0 {
            self
        } else {
            let t1 = t.with_input(Seq::empty());
            let t2 = if self.echo {
                t1.with_message(
                    MessageView { timestamp: now, port_id: t.port_id, kind: MessageKind::UserCommand, text: cmd },
                )
            } else {
                t1
            };
            let t3 = match t.port_id {
                Some(_) => t2,
                None => t2.with_message(
                    MessageView { timestamp: now, port_id: None, kind: MessageKind::SystemInfo, text: no_port_text() },
                ),
            };
            AppView { history: self.history.pushed(cmd), ..self.with_active(t3) }
        }
    }

    /// An error shown in the active tab.
    pub open spec fn with_error(self, text: Seq<char>, now: u64) -> AppView {
        self.with_active(
            self.active().with_message(
                MessageView { timestamp: now, port_id: self.active().port_id, kind: MessageKind::Error, text },
            ),
        )
    }

    /// Device output shown as one message in the tab of its port, without
    /// the device's echo of the last command (see [`shown_text`]).
    pub open spec fn device_text_shown(self, port_id: PortId, text: Seq<char>, now: u64) -> AppView {
        match shown_text(text, last_command(self.history)) {
            Some(shown) => self.with_port_message(port_id, MessageKind::DeviceResponse, shown, now),
            None => self,
        }
    }

    /// A serial-worker event routed to the tab of its port: device output
    /// (decoded, invalid UTF-8 replaced, the echo of the last command
    /// removed, nothing when no text remains), errors, and the closing of the
    /// port, which also detaches the tab and marks its title `(closed)`.
    pub open spec fn event_handled(self, e: EventView, now: u64) -> AppView {
        match e {
            EventView::SerialData { port_id, data } => self.device_text_shown(port_id, lossy_utf8(data), now),
            EventView::SerialError { port_id, error } => self.with_port_message(
                port_id,
                MessageKind::Error,
                error,
                now,
            ),
            EventView::PortClosed { port_id } => {
                let a = self.with_port_message(port_id, MessageKind::SystemInfo, "Port closed"@, now);
                match tab_for_port(a.tabs, port_id) {
                    Some(i) => AppView {
                        tabs: a.tabs.update(
                            i,
                            TabView { port_id: None, title: a.tabs[i].title + " (closed)"@, ..a.tabs[i] },
                        ),
                        ..a
                    },
                    None => a,
                }
            },
        }
    }

    /// The active tab attached to a newly opened port, named after it, with a
    /// message saying so.
    pub open spec fn attached(self, id: PortId, name: Seq<char>, baud: u32, now: u64) -> AppView {
        let t = TabView { port_id: Some(id), title: name, ..self.active() };
        self.with_active(
            t.with_message(
                MessageView {
                    timestamp: now,
                    port_id: Some(id),
                    kind: MessageKind::SystemInfo,
                    text: "Opened port "@ + name + " at "@ + decimal(baud as nat) + " baud"@,
                },
            ),
        )
    }
}

/// Splits off the first line of a text (see [`split_first_line`]).
fn first_line_of(text: &str) -> (r: (String, String, bool))
    ensures
        (r.0@, r.1@, r.2) == split_first_line(text@),
{
    let mut line = String::new();
    let mut rest = String::new();
    let mut seen = false;
    for ch in it: text.chars()
        invariant
            it.seq() == text@,
            (line@, rest@, seen) == split_first_line(text@.take(it.index() as int)),
    {
        let ghost pre = text@.take(it.index() as int);
        assert(text@.take(it.index() + 1).drop_last() =~= pre);
        if seen {
            push_char(&mut rest, ch);
        } else if ch == '\n' {
            seen = true;
        } else {
            push_char(&mut line, ch);
        }
    }
    assert(text@.take(text@.len() as int) =~= text@);
    (line, rest, seen)
}

/// What is shown of device output (see [`shown_text`]).
fn echo_filtered(text: String, last: Option<&str>) -> (r: Option<String>)
    ensures
        opt_text(r) == shown_text(
            text@,
            match last {
                Some(c) => Some(c@),
                None => None,
            },
        ),
{
    if text.as_str().is_empty() {
        return Some(text);
    }
    match last {
        None => Some(text),
        Some(cmd) => {
            let (mut line, rest, _) = first_line_of(text.as_str());
            strip_trailing_cr(&mut line);
            if str_eq(line.as_str(), cmd) {
                if rest.as_str().is_empty() {
                    None
                } else {
                    Some(rest)
                }
            } else {
                Some(text)
            }
        },
    }
}

/// Sending a command from a tab without a port always ends with the notice
/// `No port attached to this tab` as the tab's last message, after the echo
/// of the command when echo is on; a tab with a port gets only the echo, and
/// only when echo is on.
pub proof fn law_submit_reports_missing_port(a: AppView, now: u64)
    requires
        a.wf(),
        a.active().input.len() > 0,
    ensures
        ({
            let before = a.tabs[a.active_tab].messages;
            let after = a.submitted(now).tabs[a.active_tab].messages;
            let echo_line = MessageView {
                timestamp: now,
                port_id: a.active().port_id,
                kind: MessageKind::UserCommand,
                text: a.active().input,
            };
            let notice = MessageView {
                timestamp: now,
                port_id: None,
                kind: MessageKind::SystemInfo,
                text: "No port attached to this tab"@,
            };
            &&& a.submitted(now).active_tab == a.active_tab
            &&& (a.active().port_id is None && a.echo) ==> after == before.push(echo_line).push(notice)
            &&& (a.active().port_id is None && !a.echo) ==> after == before.push(notice)
            &&& (a.active().port_id is Some && a.echo) ==> after == before.push(echo_line)
            &&& (a.active().port_id is Some && !a.echo) ==> after == before
            &&& a.active().port_id is None ==> after.len() > 0 && after.last() == notice
        }),
{
}

/// Up right after sending a command brings that command back.
pub proof fn law_up_recalls_sent_command(a: AppView, now: u64)
    requires
        a.wf(),
        a.active().input.len() > 0,
    ensures
        a.submitted(now).wf(),
        a.submitted(now).history_up().active().input == a.active().input,
{
}

/// Serial events never touch what is being typed, the active tab, the
/// history, echo, logging or the mode, and keep the state consistent.
pub proof fn law_events_keep_typing(a: AppView, e: EventView, now: u64)
    requires
        a.wf(),
    ensures
        a.event_handled(e, now).wf(),
        a.event_handled(e, now).tabs.len() == a.tabs.len(),
        forall|i: int| 0 <= i < a.tabs.len() ==> (#[trigger] a.event_handled(e, now).tabs[i]).input == a.tabs[i].input,
        a.event_handled(e, now).active_tab == a.active_tab,
        a.event_handled(e, now).history == a.history,
        a.event_handled(e, now).echo == a.echo,
        a.event_handled(e, now).logger == a.logger,
        a.event_handled(e, now).mode == a.mode,
{
    match e {
        EventView::SerialData { port_id, .. } => {
            lemma_tab_for_port_bounds(a.tabs, port_id);
        },
        EventView::SerialError { port_id, .. } => {
            lemma_tab_for_port_bounds(a.tabs, port_id);
        },
        EventView::PortClosed { port_id } => {
            lemma_tab_for_port_bounds(a.tabs, port_id);
            let b = a.with_port_message(port_id, MessageKind::SystemInfo, "Port closed"@, now);
            lemma_tab_for_port_bounds(b.tabs, port_id);
        },
    }
}

/// When a port closes, the first tab attached to it is detached, its title
/// marked `(closed)`, and `Port closed` is its last message.
pub proof fn law_port_closed_detaches_tab(a: AppView, id: PortId, now: u64)
    requires
        a.wf(),
        tab_for_port(a.tabs, id) is Some,
    ensures
        ({
            let i = tab_for_port(a.tabs, id)->0;
            let t = a.event_handled(EventView::PortClosed { port_id: id }, now).tabs[i];
            &&& t.port_id is None
            &&& t.title == a.tabs[i].title + " (closed)"@
            &&& t.messages == a.tabs[i].messages.push(
                MessageView { timestamp: now, port_id: Some(id), kind: MessageKind::SystemInfo, text: "Port closed"@ },
            )
        }),
{
    lemma_tab_for_port_bounds(a.tabs, id);
    let i = tab_for_port(a.tabs, id)->0;
    let b = a.with_port_message(id, MessageKind::SystemInfo, "Port closed"@, now);
    assert(b.tabs[i].port_id == Some(id));
    assert forall|j: int| 0 <= j < i implies (#[trigger] b.tabs[j]).port_id != Some(id) by {
        lemma_tab_for_port_char(a.tabs, id, j);
    }
    lemma_tab_for_port_scan(b.tabs, id, i);
}

/// A tab before the first one attached to a port is not attached to it.
proof fn lemma_tab_for_port_char(tabs: Seq<TabView>, id: PortId, j: int)
    requires
        tab_for_port(tabs, id) matches Some(i) && 0 <= j < i,
    ensures
        tabs[j].port_id != Some(id),
    decreases tabs.len(),
{
    lemma_tab_for_port_bounds(tabs, id);
    assert(tabs[0].port_id != Some(id));
    if j > 0 {
        lemma_tab_for_port_char(tabs.drop_first(), id, j - 1);
        assert(tabs.drop_first()[j - 1] == tabs[j]);
    }
}

/// Tab then Shift+Tab, or Shift+Tab then Tab, comes back to the same tab.
pub proof fn law_tab_switch_roundtrip(a: AppView)
    requires
        a.wf(),
    ensures
        a.tab_forward().tab_backward() == a,
        a.tab_backward().tab_forward() == a,
{
}

/// Toggling echo twice leaves it as it was.
pub proof fn law_echo_toggle_twice(a: AppView)
    ensures
        a.echo_toggled().echo_toggled() == a,
{
}

proof fn lemma_first_line_plain(c: Seq<char>)
    requires
        forall|i: int| 0 <= i < c.len() ==> #[trigger] c[i] != '\n',
    ensures
        split_first_line(c) == (c, Seq::<char>::empty(), false),
    decreases c.len(),
{
    if c.len() > 0 {
        lemma_first_line_plain(c.drop_last());
        assert(c.drop_last().push(c.last()) =~= c);
    }
}

/// The device's echo of the last command is not shown: alone (with or
/// without CR LF) nothing is shown, and before a response only the response
/// is shown.
pub proof fn law_device_echo_hidden(cmd: Seq<char>, response: Seq<char>)
    requires
        cmd.len() > 0,
        forall|i: int| 0 <= i < cmd.len() ==> #[trigger] cmd[i] != '\n',
        cmd.last() != '\r',
    ensures
        shown_text(cmd, Some(cmd)) is None,
        shown_text(cmd + "\r\n"@, Some(cmd)) is None,
        response.len() > 0 ==> shown_text(cmd + "\r\n"@ + response, Some(cmd)) == Some(response),
{
    reveal_strlit("\r\n");
    lemma_first_line_plain(cmd);
    assert(cmd.drop_last().push(cmd.last()) =~= cmd);
    let cr = cmd.push('\r');
    assert forall|i: int| 0 <= i < cr.len() implies #[trigger] cr[i] != '\n' by {
        if i < cmd.len() {
            assert(cr[i] == cmd[i]);
        }
    }
    lemma_first_line_plain(cr);
    assert(cr.drop_last() =~= cmd);
    lemma_first_line_after(cr, response);
    lemma_first_line_after(cr, Seq::empty());
    assert(cmd + "\r\n"@ + response =~= cr.push('\n') + response);
    assert(cmd + "\r\n"@ =~= cr.push('\n') + Seq::<char>::empty());
}

/// The first line of a text is everything before its first line feed (all
/// of it when there is none), and the rest is everything after that line
/// feed.
proof fn lemma_first_line_at(text: Seq<char>, k: int)
    requires
        0 <= k <= text.len(),
        k == text.len() || text[k] == '\n',
        forall|j: int| 0 <= j < k ==> text[j] != '\n',
    ensures
        split_first_line(text).0 == text.take(k),
        split_first_line(text).1 == if k < text.len() { text.skip(k + 1) } else { Seq::<char>::empty() },
        split_first_line(text).2 == (k < text.len()),
{
    let line = text.take(k);
    assert forall|i: int| 0 <= i < line.len() implies #[trigger] line[i] != '\n' by {
        assert(line[i] == text[i]);
    }
    if k == text.len() {
        assert(line =~= text);
        lemma_first_line_plain(text);
    } else {
        let rest = text.skip(k + 1);
        lemma_first_line_after(line, rest);
        assert(line.push('\n') + rest =~= text);
    }
}

/// Device output is hidden only when its first line (everything before the
/// first line feed, without a carriage return at its end) is exactly the
/// last command: any other output, whether that line is longer, shorter or
/// merely starts like the command, is shown in full.
pub proof fn law_non_echo_shown_in_full(text: Seq<char>, cmd: Seq<char>, k: int)
    requires
        0 <= k <= text.len(),
        k == text.len() || text[k] == '\n',
        forall|j: int| 0 <= j < k ==> text[j] != '\n',
        text.take(k) != cmd,
        text.take(k) != cmd.push('\r'),
    ensures
        shown_text(text, Some(cmd)) == Some(text),
        shown_text(text, None) == Some(text),
{
    lemma_first_line_at(text, k);
    let line = text.take(k);
    if line.len() > 0 && line.last() == '\r' {
        assert(line.drop_last() != cmd) by {
            if line.drop_last() == cmd {
                assert(line =~= cmd.push('\r'));
            }
        }
    }
}

/// Device output whose first line is exactly the last command (optionally
/// followed by a carriage return) is the echo: only what follows the line
/// feed after it is shown, and nothing when nothing follows.
pub proof fn law_echo_line_removed(text: Seq<char>, cmd: Seq<char>, k: int)
    requires
        text.len() > 0,
        0 <= k <= text.len(),
        k == text.len() || text[k] == '\n',
        forall|j: int| 0 <= j < k ==> text[j] != '\n',
        text.take(k) == cmd || text.take(k) == cmd.push('\r'),
        cmd.len() == 0 || cmd.last() != '\r',
    ensures
        k + 1 >= text.len() ==> shown_text(text, Some(cmd)) is None,
        k + 1 < text.len() ==> shown_text(text, Some(cmd)) == Some(text.skip(k + 1)),
{
    lemma_first_line_at(text, k);
    let line = text.take(k);
    if line == cmd.push('\r') {
        assert(line.drop_last() =~= cmd);
    }
    if k + 1 == text.len() {
        assert(text.skip(k + 1).len() == 0);
    }
}

/// Any device output other than the echo of the last command, the empty one
/// included, adds exactly one device-response message, holding all of it, to
/// the first tab attached to the port, and changes nothing else.
pub proof fn law_device_output_shown_once(a: AppView, port_id: PortId, text: Seq<char>, now: u64)
    requires
        !is_device_echo(text, last_command(a.history)),
        tab_for_port(a.tabs, port_id) is Some,
    ensures
        ({
            let i = tab_for_port(a.tabs, port_id)->0;
            let b = a.device_text_shown(port_id, text, now);
            &&& b.tabs == a.tabs.update(
                i,
                a.tabs[i].with_message(
                    MessageView { timestamp: now, port_id: Some(port_id), kind: MessageKind::DeviceResponse, text },
                ),
            )
            &&& b.active_tab == a.active_tab
            &&& b.history == a.history
            &&& b.echo == a.echo
            &&& b.mode == a.mode
        }),
{
}

/// Text after the first line feed is collected unchanged.
proof fn lemma_first_line_after(line: Seq<char>, rest: Seq<char>)
    requires
        forall|i: int| 0 <= i < line.len() ==> #[trigger] line[i] != '\n',
    ensures
        split_first_line(line.push('\n') + rest) == (line, rest, true),
    decreases rest.len(),
{
    let s = line.push('\n') + rest;
    if rest.len() == 0 {
        assert(s =~= line.push('\n'));
        assert(s.drop_last() =~= line);
        lemma_first_line_plain(line);
    } else {
        lemma_first_line_after(line, rest.drop_last());
        assert(s.drop_last() =~= line.push('\n') + rest.drop_last());
        assert(rest.drop_last().push(rest.last()) =~= rest);
    }
}

/// What the rest of the application does with a submitted command: log it,
/// append it to the history file and, when the tab has a port, write it there.
pub struct Submission {
    pub command: String,
    pub port_id: Option<PortId>,
    pub bytes: Vec<u8>,
    pub log: Option<LogRecord>,
    pub history_line: String,
}

/// `sub` is what submitting the command typed in `a` hands on: the command,
/// its tab's port, the bytes to write (the command's UTF-8 and CR LF), the
/// command-log record and the history-file line.
pub open spec fn submission_matches(a: AppView, sub: Submission) -> bool {
    let cmd = a.active().input;
    &&& sub.command@ == cmd
    &&& sub.port_id == a.active().port_id
    &&& sub.bytes@ == encode_utf8(cmd) + seq![13u8, 10u8]
    &&& spec_log_record(a.logger.commands, cmd, sub.log)
    &&& sub.history_line@ == cmd.push('\n')
}

impl AppView {
    /// The state with another mode.
    pub open spec fn with_mode(self, mode: ModeView) -> AppView {
        AppView { mode, ..self }
    }
}

impl App {
    /// The state as a mathematical value.
    pub open spec fn view(&self) -> AppView {
        AppView {
            tabs: self.tabs.deep_view(),
            active_tab: self.active_tab as int,
            history: self.history@,
            echo: self.echo,
            logger: self.logger@,
            mode: self.mode.deep_view(),
        }
    }

    /// The state is consistent (see [`AppView::wf`]).
    pub open spec fn wf(&self) -> bool {
        &&& self.view().wf()
        &&& self.history.wf()
    }

    /// One tab titled `No Port`, attached to no port, active; an empty
    /// history; echo off; the chat shown.
    pub fn new(logger: LogHandles) -> (app: Self)
        ensures
            app.wf(),
            app.view().tabs.len() == 1,
            app.view().tabs[0] == (TabView {
                id: 0,
                title: "No Port"@,
                port_id: None,
                messages: Seq::empty(),
                input: Seq::empty(),
            }),
            app.view().active_tab == 0,
            app.view().history.entries.len() == 0,
            app.view().history.cursor is None,
            !app.view().echo,
            app.view().logger == logger@,
            app.view().mode == ModeView::Normal,
    {
        let default_tab = Tab {
            id: 0,
            title: "No Port".to_owned(),
            port_id: None,
            messages: Vec::new(),
            input: String::new(),
        };
        let mut tabs: Vec<Tab> = Vec::new();
        tabs.push(default_tab);
        let app = App {
            tabs,
            active_tab: 0,
            history: CommandHistory::new(),
            echo: false,
            logger,
            mode: UiMode::Normal,
        };
        assert(app.view().tabs[0].messages =~= Seq::<MessageView>::empty());
        app
    }

    /// The active tab.
    pub fn active_tab_mut(&mut self) -> (t: &mut Tab)
        requires
            old(self).wf(),
        ensures
            *t == old(self).tabs@[old(self).active_tab as int],
            final(self).tabs@ == old(self).tabs@.update(old(self).active_tab as int, *final(t)),
            final(self).active_tab == old(self).active_tab,
            final(self).history == old(self).history,
            final(self).echo == old(self).echo,
            final(self).logger == old(self).logger,
            final(self).mode == old(self).mode,
    {
        &mut self.tabs[self.active_tab]
    }

    /// Types a character into the active tab's command.
    pub fn type_char(&mut self, c: char)
        requires
            old(self).wf(),
        ensures
            final(self).wf(),
            final(self).view() == old(self).view().typed(c),
    {
        let i = self.active_tab;
        push_char(&mut self.tabs[i].input, c);
        assert(self.view().tabs =~= old(self).view().typed(c).tabs);
    }

    /// Removes the last character of the active tab's command.
    pub fn backspace(&mut self)
        requires
            old(self).wf(),
        ensures
            final(self).wf(),
            final(self).view() == old(self).view().backspaced(),
    {
        let i = self.active_tab;
        let _ = pop_char(&mut self.tabs[i].input);
        assert(self.view().tabs =~= old(self).view().backspaced().tabs);
    }

    /// Replaces the active tab's command with `text`.
    fn set_input(&mut self, text: &str)
        requires
            old(self).wf(),
        ensures
            final(self).wf(),
            final(self).view() == old(self).view().with_active(old(self).view().active().with_input(text@)),
    {
        let i = self.active_tab;
        self.tabs[i].input = text.to_owned();
        assert(self.view().tabs =~= old(self).view().with_active(
            old(self).view().active().with_input(text@),
        ).tabs);
    }

    /// Up: recalls the previous command from the history.
    pub fn history_up(&mut self)
        requires
            old(self).wf(),
        ensures
            final(self).wf(),
            final(self).view() == old(self).view().history_up(),
    {
        let shown = match self.history.previous() {
            Some(prev) => Some(prev.to_owned()),
            None => None,
        };
        match shown {
            Some(prev) => self.set_input(prev.as_str()),
            None => {},
        }
    }

    /// Down: recalls the next command from the history, or clears the
    /// command line.
    pub fn history_down(&mut self)
        requires
            old(self).wf(),
        ensures
            final(self).wf(),
            final(self).view() == old(self).view().history_down(),
    {
        let shown = match self.history.next() {
            Some(next) => next.to_owned(),
            None => String::new(),
        };
        self.set_input(shown.as_str());
    }

    /// Makes the next tab active, wrapping around.
    pub fn next_tab(&mut self)
        requires
            old(self).wf(),
        ensures
            final(self).wf(),
            final(self).view() == old(self).view().tab_forward(),
    {
        if self.active_tab < self.tabs.len() - 1 {
            self.active_tab = self.active_tab + 1;
        } else {
            self.active_tab = 0;
        }
    }

    /// Makes the previous tab active, wrapping around.
    pub fn previous_tab(&mut self)
        requires
            old(self).wf(),
        ensures
            final(self).wf(),
            final(self).view() == old(self).view().tab_backward(),
    {
        if self.active_tab == 0 {
            self.active_tab = self.tabs.len() - 1;
        } else {
            self.active_tab = self.active_tab - 1;
        }
    }

    /// Switches echo of sent commands on or off.
    pub fn toggle_echo(&mut self)
        requires
            old(self).wf(),
        ensures
            final(self).wf(),
            final(self).view() == old(self).view().echo_toggled(),
    {
        self.echo = !self.echo;
    }

    /// The position of the first tab attached to the port.
    fn find_tab(&self, id: PortId) -> (r: Option<usize>)
        ensures
            r matches Some(i) ==> tab_for_port(self.view().tabs, id) == Some(i as int),
            r is None ==> tab_for_port(self.view().tabs, id) is None,
    {
        let ghost tabs = self.view().tabs;
        let mut i: usize = 0;
        while i < self.tabs.len()
            invariant
                tabs == self.view().tabs,
                0 <= i <= self.tabs@.len(),
                forall|j: int| 0 <= j < i ==> (#[trigger] tabs[j]).port_id != Some(id),
            decreases self.tabs.len() - i,
        {
            if self.tabs[i].port_id == Some(id) {
                proof { lemma_tab_for_port_scan(tabs, id, i as int); }
                return Some(i);
            }
            i = i + 1;
        }
        proof { lemma_tab_for_port_scan(tabs, id, i as int); }
        None
    }

    /// Adds a message to the first tab attached to the port, if any.
    fn push_message_for_port(&mut self, port_id: PortId, kind: MessageKind, text: String, now: u64)
        ensures
            old(self).wf() ==> final(self).wf(),
            final(self).view() == old(self).view().with_port_message(port_id, kind, text@, now),
    {
        match self.find_tab(port_id) {
            Some(i) => {
                proof { lemma_tab_for_port_bounds(self.view().tabs, port_id); }
                let ghost before = self.view();
                let ghost msgs = self.tabs@[i as int].messages.deep_view();
                let m = ChatMessage { timestamp: now, port_id: Some(port_id), kind, text };
                let ghost dv = m.deep_view();
                self.tabs[i].messages.push(m);
                assert(self.tabs@[i as int].messages.deep_view() =~= msgs.push(dv));
                assert(self.view().tabs =~= before.with_port_message(port_id, kind, text@, now).tabs);
            },
            None => {},
        }
    }

    /// Adds a message to the active tab.
    fn push_to_active(&mut self, m: ChatMessage)
        requires
            old(self).wf(),
        ensures
            final(self).wf(),
            final(self).view() == old(self).view().with_active(old(self).view().active().with_message(m.deep_view())),
    {
        let i = self.active_tab;
        let ghost msgs = self.tabs@[i as int].messages.deep_view();
        let ghost dv = m.deep_view();
        self.tabs[i].messages.push(m);
        assert(self.tabs@[i as int].messages.deep_view() =~= msgs.push(dv));
        assert(self.view().tabs =~= old(self).view().with_active(
            old(self).view().active().with_message(m.deep_view()),
        ).tabs);
    }

    /// Enter: submits the typed command (see [`AppView::submitted`]) and
    /// says what to do with it: the command, its tab's port, the bytes to
    /// write there (the command and CR LF), the command-log record and the
    /// history-file line. Nothing when no command is typed.
    pub fn submit_input(&mut self, now: u64) -> (r: Option<Submission>)
        requires
            old(self).wf(),
        ensures
            final(self).wf(),
            final(self).view() == old(self).view().submitted(now),
            old(self).view().active().input.len() == 0 ==> r is None,
            old(self).view().active().input.len() > 0 ==> (r matches Some(sub) && submission_matches(
                old(self).view(),
                sub,
            )),
    {
        let i = self.active_tab;
        if self.tabs[i].input.as_str().is_empty() {
            return None;
        }
        let ghost a0 = self.view();
        let mut cmd = String::new();
        std::mem::swap(&mut cmd, &mut self.tabs[i].input);
        assert(self.view() == a0.with_active(a0.active().with_input(Seq::empty()))) by {
            assert(self.view().tabs =~= a0.with_active(a0.active().with_input(Seq::empty())).tabs);
        }
        self.history.push(cmd.clone());
        let port_id = self.tabs[i].port_id;
        if self.echo {
            self.push_to_active(
                ChatMessage { timestamp: now, port_id, kind: MessageKind::UserCommand, text: cmd.clone() },
            );
        }
        match port_id {
            Some(_) => {},
            None => {
                self.push_to_active(
                    ChatMessage {
                        timestamp: now,
                        port_id: None,
                        kind: MessageKind::SystemInfo,
                        text: "No port attached to this tab".to_owned(),
                    },
                );
            },
        }
        assert(self.view().tabs =~= a0.submitted(now).tabs);
        let bytes = frame_command(cmd.as_str());
        let log = self.logger.log_command(cmd.as_str());
        let line = history_line(cmd.as_str());
        Some(Submission { command: cmd, port_id, bytes, log, history_line: line })
    }

    /// Shows an error in the active tab, such as a command that could not be
    /// sent or a port that could not be opened.
    pub fn report_error(&mut self, text: String, now: u64)
        requires
            old(self).wf(),
        ensures
            final(self).wf(),
            final(self).view() == old(self).view().with_error(text@, now),
    {
        let port_id = self.tabs[self.active_tab].port_id;
        self.push_to_active(ChatMessage { timestamp: now, port_id, kind: MessageKind::Error, text });
    }

    /// Shows `Failed to send command: <detail>` in the active tab.
    pub fn report_send_failure(&mut self, detail: &str, now: u64)
        requires
            old(self).wf(),
        ensures
            final(self).wf(),
            final(self).view() == old(self).view().with_error("Failed to send command: "@ + detail@, now),
    {
        let mut text = "Failed to send command: ".to_owned();
        text.append(detail);
        self.report_error(text, now);
    }

    /// Attaches the active tab to a newly opened port (see
    /// [`AppView::attached`]).
    pub fn attach_port(&mut self, port_id: PortId, name: &str, baud: u32, now: u64)
        requires
            old(self).wf(),
        ensures
            final(self).wf(),
            final(self).view() == old(self).view().attached(port_id, name@, baud, now),
    {
        let i = self.active_tab;
        let ghost a0 = self.view();
        self.tabs[i].port_id = Some(port_id);
        self.tabs[i].title = name.to_owned();
        let mut text = "Opened port ".to_owned();
        text.append(name);
        text.append(" at ");
        let digits = decimal_string(baud as u64);
        text.append(digits.as_str());
        text.append(" baud");
        let m = ChatMessage { timestamp: now, port_id: Some(port_id), kind: MessageKind::SystemInfo, text };
        let ghost msgs = self.tabs@[i as int].messages.deep_view();
        let ghost dv = m.deep_view();
        self.tabs[i].messages.push(m);
        assert(self.tabs@[i as int].messages.deep_view() =~= msgs.push(dv));
        assert(self.view().tabs =~= a0.attached(port_id, name@, baud, now).tabs);
    }

    /// Routes a serial-worker event to the tab of its port (see
    /// [`AppView::event_handled`]) and, for device output, says how to log
    /// it: all of the decoded text goes to the response log.
    pub fn handle_serial_event(&mut self, event: AppEvent, now: u64) -> (r: Option<LogRecord>)
        ensures
            old(self).wf() ==> final(self).wf(),
            final(self).view() == old(self).view().event_handled(event.deep_view(), now),
            event matches AppEvent::SerialData { data, .. } ==> spec_log_record(
                old(self).view().logger.responses,
                lossy_utf8(data@),
                r,
            ),
            !(event is SerialData) ==> r is None,
    {
        match event {
            AppEvent::SerialData { port_id, data } => {
                let text = decode_lossy(data.as_slice());
                self.show_device_text(port_id, text, now)
            },
            AppEvent::SerialError { port_id, error } => {
                self.push_message_for_port(port_id, MessageKind::Error, error, now);
                None
            },
            AppEvent::PortClosed { port_id } => {
                self.push_message_for_port(port_id, MessageKind::SystemInfo, "Port closed".to_owned(), now);
                let ghost a = self.view();
                match self.find_tab(port_id) {
                    Some(i) => {
                        proof { lemma_tab_for_port_bounds(self.view().tabs, port_id); }
                        self.tabs[i].port_id = None;
                        self.tabs[i].title.append(" (closed)");
                        assert(self.view().tabs =~= a.tabs.update(
                            i as int,
                            TabView { port_id: None, title: a.tabs[i as int].title + " (closed)"@, ..a.tabs[i as int] },
                        ));
                    },
                    None => {},
                }
                None
            },
        }
    }

    /// Ctrl+P, once the ports are listed: the port selector opens over the
    /// chat with the settings saved for each port and the first port
    /// selected, its settings shown.
    pub fn open_port_selector(&mut self, ports: Vec<PortChoice>, cfg: &AppConfig)
        requires
            old(self).wf(),
        ensures
            final(self).wf(),
            final(self).view() == old(self).view().with_mode(final(self).view().mode),
            final(self).mode matches UiMode::PortSelector(st) && {
                &&& st.deep_view().ports == ports@.map_values(|c: PortChoice| (c.name@, c.label@))
                &&& st.selected == 0
                &&& st.deep_view().presets == Seq::new(
                    ports@.len(),
                    |i: int| settings_for(cfg.profiles@, ports@[i].name@),
                )
                &&& ports@.len() > 0 ==> st.deep_view() == st.deep_view().with_settings(
                    settings_for(cfg.profiles@, ports@[0].name@),
                )
                &&& ports@.len() == 0 ==> st.deep_view() == st.deep_view().with_settings(default_settings())
            },
    {
        let st = PortSelectorState::open(ports, cfg);
        self.mode = UiMode::PortSelector(st);
    }

    /// Shows decoded device output in the tab of its port (see
    /// [`AppView::device_text_shown`]) and says how to log all of it.
    pub fn show_device_text(&mut self, port_id: PortId, text: String, now: u64) -> (r: Option<LogRecord>)
        ensures
            old(self).wf() ==> final(self).wf(),
            final(self).view() == old(self).view().device_text_shown(port_id, text@, now),
            spec_log_record(old(self).view().logger.responses, text@, r),
    {
        let log = self.logger.log_response(text.as_str());
        match echo_filtered(text, self.history.last()) {
            Some(shown) => self.push_message_for_port(port_id, MessageKind::DeviceResponse, shown, now),
            None => {},
        }
        log
    }
}

} // verus!
