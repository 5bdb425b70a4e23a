use vstd::prelude::*;

use crate::text::{drop_empty, ends_with, has_verbatim_prefix, is_joined, nonempty_lines, path_join, push_char, scan_lines, split_nonempty_lines, strip_cr};

verus! {

/// The history file, `history.txt` in the configuration directory.
pub fn history_path(config_dir: &str) -> (p: String)
    ensures
        ends_with(p@, "history.txt"@),
        !has_verbatim_prefix(config_dir@) ==> is_joined(p@, config_dir@, "history.txt"@),
{
    proof { reveal_strlit("history.txt"); }
    path_join(config_dir, "history.txt")
}

/// The commands stored in a history file: its non-empty lines, in order.
pub fn parse_history(contents: &str) -> (entries: Vec<String>)
    ensures
        entries.deep_view() == nonempty_lines(contents@),
{
    split_nonempty_lines(contents)
}

/// The text appended to the history file for a sent command: the command and
/// a line feed.
pub fn history_line(cmd: &str) -> (line: String)
    ensures
        line@ == cmd@.push('\n'),
{
    let mut line = cmd.to_owned();
    push_char(&mut line, '\n');
    line
}

/// A history file holding the given commands, one per line.
pub open spec fn history_text(cmds: Seq<Seq<char>>) -> Seq<char>
    decreases cmds.len(),
{
    if cmds.len() == 0 {
        Seq::empty()
    } else {
        history_text(cmds.drop_last()) + cmds.last().push('\n')
    }
}

/// A command written as one line of the history file: without a line feed,
/// and not ending with a carriage return (which would be read as part of the
/// line ending).
pub open spec fn is_line(cmd: Seq<char>) -> bool {
    &&& forall|i: int| 0 <= i < cmd.len() ==> #[trigger] cmd[i] != '\n'
    &&& cmd.len() == 0 || cmd.last() != '\r'
}

/// A command that reads back unchanged from the history file: a non-empty
/// line.
pub open spec fn is_storable(cmd: Seq<char>) -> bool {
    &&& cmd.len() > 0
    &&& is_line(cmd)
}

proof fn lemma_scan_concat(a: Seq<char>, b: Seq<char>)
    requires
        scan_lines(a).1.len() == 0,
    ensures
        scan_lines(a + b) == (scan_lines(a).0 + scan_lines(b).0, scan_lines(b).1),
    decreases b.len(),
{
    if b.len() == 0 {
        assert(a + b =~= a);
        assert(scan_lines(a).1 =~= scan_lines(b).1);
        assert(scan_lines(a).0 + scan_lines(b).0 =~= scan_lines(a).0);
    } else {
        assert((a + b).drop_last() =~= a + b.drop_last());
        lemma_scan_concat(a, b.drop_last());
        let prev = scan_lines(b.drop_last());
        if b.last() == '\n' {
            assert((scan_lines(a).0 + prev.0).push(strip_cr(prev.1)) =~= scan_lines(a).0 + prev.0.push(
                strip_cr(prev.1),
            ));
        }
    }
}

proof fn lemma_scan_single_line(c: Seq<char>)
    requires
        forall|i: int| 0 <= i < c.len() ==> #[trigger] c[i] != '\n',
    ensures
        scan_lines(c) == (Seq::<Seq<char>>::empty(), c),
    decreases c.len(),
{
    if c.len() > 0 {
        lemma_scan_single_line(c.drop_last());
        assert(c.drop_last().push(c.last()) =~= c);
    }
}

proof fn lemma_drop_empty_concat(a: Seq<Seq<char>>, b: Seq<Seq<char>>)
    ensures
        drop_empty(a + b) == drop_empty(a) + drop_empty(b),
    decreases b.len(),
{
    if b.len() == 0 {
        assert(a + b =~= a);
        assert(drop_empty(a) + drop_empty(b) =~= drop_empty(a));
    } else {
        assert((a + b).drop_last() =~= a + b.drop_last());
        lemma_drop_empty_concat(a, b.drop_last());
        assert((drop_empty(a) + drop_empty(b.drop_last())).push(b.last()) =~= drop_empty(a) + drop_empty(
            b.drop_last(),
        ).push(b.last()));
    }
}

proof fn lemma_scan_history_text(cmds: Seq<Seq<char>>)
    requires
        forall|i: int| 0 <= i < cmds.len() ==> is_line(#[trigger] cmds[i]),
    ensures
        scan_lines(history_text(cmds)) == (cmds, Seq::<char>::empty()),
    decreases cmds.len(),
{
    if cmds.len() > 0 {
        let rest = cmds.drop_last();
        let c = cmds.last();
        assert forall|i: int| 0 <= i < rest.len() implies is_line(#[trigger] rest[i]) by {
            assert(rest[i] == cmds[i]);
        }
        lemma_scan_history_text(rest);
        assert(is_line(cmds[cmds.len() - 1]));
        lemma_scan_single_line(c);
        assert(c.push('\n').drop_last() =~= c);
        lemma_scan_concat(history_text(rest), c.push('\n'));
        assert(rest + seq![c] =~= cmds);
    }
}

proof fn lemma_drop_empty_keeps_nonempty(cmds: Seq<Seq<char>>)
    requires
        forall|i: int| 0 <= i < cmds.len() ==> (#[trigger] cmds[i]).len() > 0,
    ensures
        drop_empty(cmds) == cmds,
    decreases cmds.len(),
{
    if cmds.len() > 0 {
        let rest = cmds.drop_last();
        assert forall|i: int| 0 <= i < rest.len() implies (#[trigger] rest[i]).len() > 0 by {
            assert(rest[i] == cmds[i]);
        }
        lemma_drop_empty_keeps_nonempty(rest);
        assert(cmds[cmds.len() - 1].len() > 0);
        assert(rest.push(cmds.last()) =~= cmds);
    }
}

/// Writing commands to the history file one per line and reading the file
/// back gives the non-empty ones, in order; when none is empty, exactly the
/// commands written.
pub proof fn law_history_roundtrip(cmds: Seq<Seq<char>>)
    requires
        forall|i: int| 0 <= i < cmds.len() ==> is_line(#[trigger] cmds[i]),
    ensures
        nonempty_lines(history_text(cmds)) == drop_empty(cmds),
        (forall|i: int| 0 <= i < cmds.len() ==> (#[trigger] cmds[i]).len() > 0) ==> nonempty_lines(
            history_text(cmds),
        ) == cmds,
{
    lemma_scan_history_text(cmds);
    if forall|i: int| 0 <= i < cmds.len() ==> (#[trigger] cmds[i]).len() > 0 {
        lemma_drop_empty_keeps_nonempty(cmds);
    }
}

/// Appending a command's line to a history file that is empty or ends with a
/// line feed adds that command at the end of what is read back, or nothing
/// when the command is empty.
pub proof fn law_append_then_load(contents: Seq<char>, cmd: Seq<char>)
    requires
        contents.len() == 0 || contents.last() == '\n',
        is_line(cmd),
    ensures
        nonempty_lines(contents + cmd.push('\n')) == if cmd.len() > 0 {
            nonempty_lines(contents).push(cmd)
        } else {
            nonempty_lines(contents)
        },
{
    if contents.len() > 0 {
        assert(contents.drop_last().push(contents.last()) =~= contents);
    }
    assert(scan_lines(contents).1.len() == 0);
    lemma_scan_single_line(cmd);
    assert(cmd.push('\n').drop_last() =~= cmd);
    lemma_scan_concat(contents, cmd.push('\n'));
    let before = scan_lines(contents).0;
    assert(before + seq![cmd] =~= before.push(cmd));
    assert(before.push(cmd).drop_last() =~= before);
}

} // verus!
