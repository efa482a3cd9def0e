//! The command log: one line for each call of the backend, the newest kept,
//! with a cursor; and the history of the commands themselves.

use crate::clock::is_clock_stamp;
use crate::text::{
    find_text, first_occurrence, is_first_occurrence, lemma_first_occurrence_unique, occurs_at,
    push_text, text_of, to_chars, trim, trimmed,
};
use vstd::prelude::*;

verus! {

/// How many entries the log keeps.
pub const LOG_CAPACITY: usize = 200;

/// How many commands the history view shows.
pub const HISTORY_SHOWN: usize = 50;

/// The line for a call that succeeded.
pub open spec fn success_text(stamp: Seq<char>, command: Seq<char>) -> Seq<char> {
    "["@ + stamp + "] ✓ SUCCESS: "@ + command
}

/// The line for a call that failed.
pub open spec fn error_text(stamp: Seq<char>, command: Seq<char>, message: Seq<char>) -> Seq<
    char,
> {
    "["@ + stamp + "] ✗ ERROR: "@ + command + " - "@ + message
}

/// The line for a call that the cache made unnecessary.
pub open spec fn cached_text(stamp: Seq<char>, command: Seq<char>) -> Seq<char> {
    "["@ + stamp + "] ✓ CACHED: "@ + command
}

/// The newest entries that fit the log.
pub open spec fn capped(entries: Seq<Seq<char>>) -> Seq<Seq<char>> {
    if entries.len() > LOG_CAPACITY {
        entries.skip(entries.len() - LOG_CAPACITY)
    } else {
        entries
    }
}

/// The command of a log line: what follows the first `": "`, up to the first
/// `" - "` if there is one, without the white space around it. A line
/// without `": "` is its own command.
pub open spec fn command_of_entry(entry: Seq<char>) -> Seq<char> {
    match first_occurrence(entry, ": "@) {
        Some(i) => {
            let rest = entry.skip(i + 2);
            match first_occurrence(rest, " - "@) {
                Some(j) => trim(rest.take(j)),
                None => trim(rest),
            }
        },
        None => entry,
    }
}

/// The commands that the history view shows: the newest first, at most
/// `HISTORY_SHOWN` of them.
pub open spec fn shown_history(history: Seq<Seq<char>>) -> Seq<Seq<char>> {
    let n = if history.len() > HISTORY_SHOWN {
        HISTORY_SHOWN as int
    } else {
        history.len() as int
    };
    Seq::new(n as nat, |i: int| history[history.len() - 1 - i])
}

/// The log after each of `entries` was appended in turn.
pub open spec fn appended_all(log: Seq<Seq<char>>, entries: Seq<Seq<char>>) -> Seq<Seq<char>>
    decreases entries.len(),
{
    if entries.len() == 0 {
        log
    } else {
        capped(appended_all(log, entries.drop_last()).push(entries.last()))
    }
}

/// The line for a call that succeeded.
pub fn success_entry(stamp: &str, command: &str) -> (r: String)
    ensures
        r@ == success_text(stamp@, command@),
{
    let mut r = String::new();
    push_text(&mut r, "[");
    push_text(&mut r, stamp);
    push_text(&mut r, "] ✓ SUCCESS: ");
    push_text(&mut r, command);
    assert(r@ =~= success_text(stamp@, command@));
    r
}

/// The line for a call that failed.
pub fn error_entry(stamp: &str, command: &str, message: &str) -> (r: String)
    ensures
        r@ == error_text(stamp@, command@, message@),
{
    let mut r = String::new();
    push_text(&mut r, "[");
    push_text(&mut r, stamp);
    push_text(&mut r, "] ✗ ERROR: ");
    push_text(&mut r, command);
    push_text(&mut r, " - ");
    push_text(&mut r, message);
    assert(r@ =~= error_text(stamp@, command@, message@));
    r
}

/// The line for a call that the cache made unnecessary.
pub fn cached_entry(stamp: &str, command: &str) -> (r: String)
    ensures
        r@ == cached_text(stamp@, command@),
{
    let mut r = String::new();
    push_text(&mut r, "[");
    push_text(&mut r, stamp);
    push_text(&mut r, "] ✓ CACHED: ");
    push_text(&mut r, command);
    assert(r@ =~= cached_text(stamp@, command@));
    r
}

/// The command of a log line.
pub fn extract_command_from_log_entry(log_entry: &str) -> (r: String)
    ensures
        r@ == command_of_entry(log_entry@),
{
    let v = to_chars(log_entry);
    let n = v.len();
    let colon = to_chars(": ");
    let dash = to_chars(" - ");
    proof {
        reveal_strlit(": ");
        reveal_strlit(" - ");
        assert(v@.skip(0) =~= v@);
    }
    match find_text(&v, 0, &colon) {
        Some(i) => {
            let start = i + 2;
            let ghost rest = v@.skip(start as int);
            match find_text(&v, start, &dash) {
                Some(j) => {
                    assert(rest.take(j as int) =~= v@.subrange(start as int, start + j));
                    trimmed(&v, start, start + j)
                },
                None => {
                    assert(rest =~= v@.subrange(start as int, n as int));
                    trimmed(&v, start, n)
                },
            }
        },
        None => {
            let r = text_of(&v, 0, n);
            assert(v@.subrange(0, n as int) =~= v@);
            r
        },
    }
}

/// The command log and the command history.
#[derive(Debug)]
pub struct CommandLog {
    /// The log lines, oldest first; at most `LOG_CAPACITY`.
    pub log_entries: Vec<String>,
    /// The selected line.
    pub log_scroll_position: usize,
    /// How far the log view is panned to the right.
    pub log_horizontal_scroll: u16,
    /// Every command, oldest first.
    pub command_history: Vec<String>,
    pub last_executed_command: String,
}

/// The mathematical view of a `CommandLog`.
pub struct CommandLogView {
    pub entries: Seq<Seq<char>>,
    pub scroll_position: usize,
    pub horizontal_scroll: u16,
    pub history: Seq<Seq<char>>,
    pub last_command: Seq<char>,
}

impl View for CommandLog {
    type V = CommandLogView;

    open spec fn view(&self) -> CommandLogView {
        CommandLogView {
            entries: self.log_entries.deep_view(),
            scroll_position: self.log_scroll_position,
            horizontal_scroll: self.log_horizontal_scroll,
            history: self.command_history.deep_view(),
            last_command: self.last_executed_command@,
        }
    }
}

impl CommandLogView {
    /// No more entries than the log keeps, and the cursor on one of them (at
    /// 0 where there is none).
    pub open spec fn wf(self) -> bool {
        &&& self.entries.len() <= LOG_CAPACITY
        &&& self.scroll_position < self.entries.len() || (self.entries.len() == 0
            && self.scroll_position == 0)
    }

    /// The empty log.
    pub open spec fn fresh() -> CommandLogView {
        CommandLogView {
            entries: Seq::empty(),
            scroll_position: 0,
            horizontal_scroll: 0,
            history: Seq::empty(),
            last_command: Seq::empty(),
        }
    }

    /// The log after `command` was noted as the one being executed.
    pub open spec fn with_command(self, command: Seq<char>) -> CommandLogView {
        CommandLogView { history: self.history.push(command), last_command: command, ..self }
    }

    /// The log after `entry` was appended: the oldest entries make room, and
    /// the cursor stands on the new one.
    pub open spec fn with_entry(self, entry: Seq<char>) -> CommandLogView {
        let entries = capped(self.entries.push(entry));
        CommandLogView { entries, scroll_position: (entries.len() - 1) as usize, ..self }
    }

    /// The log with the cursor one line nearer to the oldest.
    pub open spec fn scrolled_up(self) -> CommandLogView {
        if self.scroll_position > 0 {
            CommandLogView { scroll_position: (self.scroll_position - 1) as usize, ..self }
        } else {
            self
        }
    }

    /// The log with the cursor one line nearer to the newest.
    pub open spec fn scrolled_down(self) -> CommandLogView {
        if self.scroll_position + 1 < self.entries.len() {
            CommandLogView { scroll_position: (self.scroll_position + 1) as usize, ..self }
        } else {
            self
        }
    }

    /// The log view panned one column back.
    pub open spec fn scrolled_left(self) -> CommandLogView {
        if self.horizontal_scroll > 0 {
            CommandLogView { horizontal_scroll: (self.horizontal_scroll - 1) as u16, ..self }
        } else {
            self
        }
    }

    /// Panning to the right has no limit but the largest number the offset
    /// can hold.
    pub open spec fn scrolled_right(self) -> CommandLogView {
        if self.horizontal_scroll < u16::MAX {
            CommandLogView { horizontal_scroll: (self.horizontal_scroll + 1) as u16, ..self }
        } else {
            self
        }
    }

    /// The selected line, if there is one.
    pub open spec fn selected(self) -> Option<Seq<char>> {
        if self.scroll_position < self.entries.len() {
            Some(self.entries[self.scroll_position as int])
        } else {
            None
        }
    }
}

impl CommandLog {
    /// Whether the log is well formed.
    pub open spec fn wf(&self) -> bool {
        self@.wf()
    }

    /// The empty log.
    pub fn new() -> (r: CommandLog)
        ensures
            r@ == CommandLogView::fresh(),
            r.wf(),
    {
        let r = CommandLog {
            log_entries: Vec::new(),
            log_scroll_position: 0,
            log_horizontal_scroll: 0,
            command_history: Vec::new(),
            last_executed_command: String::new(),
        };
        assert(r.log_entries.deep_view() =~= Seq::empty());
        assert(r.command_history.deep_view() =~= Seq::empty());
        r
    }

    /// Whether the log is well formed.
    pub fn is_well_formed(&self) -> (r: bool)
        ensures
            r == self.wf(),
    {
        let n = self.log_entries.len();
        n <= LOG_CAPACITY && (self.log_scroll_position < n || (n == 0 && self.log_scroll_position
            == 0))
    }

    /// Notes `command` as the one being executed, and appends it to the
    /// history.
    pub fn record_command(&mut self, command: String)
        ensures
            final(self)@ == old(self)@.with_command(command@),
    {
        let copy = command.clone();
        self.command_history.push(copy);
        self.last_executed_command = command;
        assert(self.command_history.deep_view() =~= old(self).command_history.deep_view().push(
            command@,
        ));
    }

    /// Appends a line. Beyond the capacity the oldest lines are dropped; the
    /// cursor moves to the new line.
    pub fn add_log_entry(&mut self, entry: String)
        ensures
            final(self)@ == old(self)@.with_entry(entry@),
            final(self)@.entries.len() >= 1,
            final(self)@.entries.len() <= LOG_CAPACITY,
            final(self)@.entries.last() == entry@,
            final(self).wf(),
    {
        let ghost pushed = old(self).log_entries.deep_view().push(entry@);
        self.log_entries.push(entry);
        assert(self.log_entries.deep_view() =~= pushed);
        while self.log_entries.len() > LOG_CAPACITY
            invariant
                self.log_entries.len() >= 1,
                self.log_entries.len() <= pushed.len(),
                self.log_entries.len() >= LOG_CAPACITY || self.log_entries.len() == pushed.len(),
                self.log_entries.deep_view() == pushed.skip(
                    pushed.len() - self.log_entries.len(),
                ),
                self.command_history == old(self).command_history,
                self.last_executed_command == old(self).last_executed_command,
                self.log_horizontal_scroll == old(self).log_horizontal_scroll,
            decreases self.log_entries.len(),
        {
            let ghost before = self.log_entries.deep_view();
            self.log_entries.remove(0);
            assert(self.log_entries.deep_view() =~= before.skip(1));
            assert(before.skip(1) =~= pushed.skip(pushed.len() - self.log_entries.len()));
        }
        assert(pushed.skip(0) =~= pushed);
        self.log_scroll_position = self.log_entries.len() - 1;
    }

    /// Moves the cursor one line up, if it is not on the oldest line.
    pub fn scroll_up(&mut self)
        ensures
            final(self)@ == old(self)@.scrolled_up(),
            old(self).wf() ==> final(self).wf(),
    {
        if self.log_scroll_position > 0 {
            self.log_scroll_position -= 1;
        }
    }

    /// Moves the cursor one line down, if it is not on the newest line.
    pub fn scroll_down(&mut self)
        ensures
            final(self)@ == old(self)@.scrolled_down(),
            old(self).wf() ==> final(self).wf(),
    {
        let n = self.log_entries.len();
        if n > 0 && self.log_scroll_position < n - 1 {
            self.log_scroll_position += 1;
        }
    }

    /// Pans the log view one column back, if it is panned.
    pub fn scroll_left(&mut self)
        ensures
            final(self)@ == old(self)@.scrolled_left(),
            old(self).wf() ==> final(self).wf(),
    {
        if self.log_horizontal_scroll > 0 {
            self.log_horizontal_scroll -= 1;
        }
    }

    /// Pans the log view one column further.
    pub fn scroll_right(&mut self)
        ensures
            final(self)@ == old(self)@.scrolled_right(),
            old(self).wf() ==> final(self).wf(),
    {
        if self.log_horizontal_scroll < u16::MAX {
            self.log_horizontal_scroll += 1;
        }
    }

    /// The selected line, if there is one.
    pub fn selected_entry(&self) -> (r: Option<String>)
        ensures
            match r {
                Some(e) => self@.selected() == Some(e@),
                None => self@.selected().is_none(),
            },
    {
        if self.log_scroll_position < self.log_entries.len() {
            Some(self.log_entries[self.log_scroll_position].clone())
        } else {
            None
        }
    }

    /// The commands that the history view shows, the newest first.
    pub fn recent_commands(&self) -> (r: Vec<String>)
        ensures
            r.deep_view() == shown_history(self@.history),
    {
        let n = self.command_history.len();
        let shown = if n > HISTORY_SHOWN {
            HISTORY_SHOWN
        } else {
            n
        };
        let mut r: Vec<String> = Vec::new();
        let mut i: usize = 0;
        while i < shown
            invariant
                n == self.command_history.len(),
                shown <= n,
                i <= shown,
                r.len() == i,
                forall|k: int|
                    0 <= k < i ==> (#[trigger] r[k])@ == self.command_history[n - 1 - k]@,
            decreases shown - i,
        {
            r.push(self.command_history[n - 1 - i].clone());
            i += 1;
        }
        assert(r.deep_view() =~= shown_history(self@.history));
        r
    }
}

/// Appending lines one by one keeps the newest `LOG_CAPACITY` of all that
/// were ever appended, in their order: the oldest are the ones dropped.
pub proof fn law_log_keeps_the_newest(log: Seq<Seq<char>>, entries: Seq<Seq<char>>)
    requires
        log.len() <= LOG_CAPACITY,
    ensures
        appended_all(log, entries) == capped(log + entries),
    decreases entries.len(),
{
    if entries.len() == 0 {
        assert(log + entries =~= log);
    } else {
        let front = entries.drop_last();
        law_log_keeps_the_newest(log, front);
        let all = log + entries;
        assert(all =~= (log + front).push(entries.last()));
        assert(capped(capped(log + front).push(entries.last())) =~= capped(all));
    }
}

/// The command part of what follows the tag of a line: what stands before
/// the first `" - "`, or all of it, without the white space around it.
pub open spec fn command_part(rest: Seq<char>) -> Seq<char> {
    match first_occurrence(rest, " - "@) {
        Some(j) => trim(rest.take(j)),
        None => trim(rest),
    }
}

/// In a line that begins with a clock stamp between brackets and a tag of
/// `tag_len` characters, none of them a colon, the first `": "` is the one
/// that ends the tag.
proof fn lemma_tag_ends_at(
    entry: Seq<char>,
    stamp: Seq<char>,
    tag: Seq<char>,
    rest: Seq<char>,
)
    requires
        is_clock_stamp(stamp),
        entry == seq!['['] + stamp + tag + seq![':', ' '] + rest,
        tag.len() >= 1,
        forall|i: int| 0 <= i < tag.len() ==> tag[i] != ':',
    ensures
        first_occurrence(entry, seq![':', ' ']) == Some(9 + tag.len() as int),
        entry.skip(9 + tag.len() as int + 2) == rest,
{
    let needle = seq![':', ' '];
    let at = 9 + tag.len() as int;
    assert(entry.subrange(at, at + 2) =~= needle);
    assert forall|j: int| 0 <= j < at implies !occurs_at(entry, needle, j) by {
        if occurs_at(entry, needle, j) {
            let piece = entry.subrange(j, j + 2);
            assert(piece[0] == ':');
            assert(piece[1] == ' ');
            assert(entry[j] == ':');
            assert(entry[j + 1] == ' ');
            if j == 0 {
            } else if j <= 8 {
                assert(entry[j] == stamp[j - 1]);
                if j < 8 {
                    assert(entry[j + 1] == stamp[j]);
                }
            } else {
                assert(entry[j] == tag[j - 9]);
            }
        }
    }
    lemma_first_occurrence_unique(entry, needle, at);
    assert(entry.skip(at + 2) =~= rest);
}

/// The command of a line that was written for a success is the command
/// part of the command that the line was written with: writing a line and
/// taking its command apart again gives the command back, as far as it has
/// one part only and no white space around it.
pub proof fn law_success_line_gives_its_command(stamp: Seq<char>, command: Seq<char>)
    requires
        is_clock_stamp(stamp),
    ensures
        command_of_entry(success_text(stamp, command)) == command_part(command),
{
    reveal_strlit("[");
    reveal_strlit("] ✓ SUCCESS: ");
    reveal_strlit(": ");
    let tag = seq![']', ' ', '✓', ' ', 'S', 'U', 'C', 'C', 'E', 'S', 'S'];
    let entry = success_text(stamp, command);
    assert("["@ =~= seq!['[']);
    assert(": "@ =~= seq![':', ' ']);
    assert("] ✓ SUCCESS: "@ =~= tag + seq![':', ' ']);
    assert(entry =~= seq!['['] + stamp + tag + seq![':', ' '] + command);
    lemma_tag_ends_at(entry, stamp, tag, command);
}

/// The command of a line that was written for a cache hit is the command
/// part of the command that the line was written with.
pub proof fn law_cached_line_gives_its_command(stamp: Seq<char>, command: Seq<char>)
    requires
        is_clock_stamp(stamp),
    ensures
        command_of_entry(cached_text(stamp, command)) == command_part(command),
{
    reveal_strlit("[");
    reveal_strlit("] ✓ CACHED: ");
    reveal_strlit(": ");
    let tag = seq![']', ' ', '✓', ' ', 'C', 'A', 'C', 'H', 'E', 'D'];
    let entry = cached_text(stamp, command);
    assert("["@ =~= seq!['[']);
    assert(": "@ =~= seq![':', ' ']);
    assert("] ✓ CACHED: "@ =~= tag + seq![':', ' ']);
    assert(entry =~= seq!['['] + stamp + tag + seq![':', ' '] + command);
    lemma_tag_ends_at(entry, stamp, tag, command);
}

/// The command of a line that was written for a failure is the command
/// part of the command followed by the failure: the text of the failure
/// never reaches the command.
pub proof fn law_error_line_gives_its_command(
    stamp: Seq<char>,
    command: Seq<char>,
    message: Seq<char>,
)
    requires
        is_clock_stamp(stamp),
    ensures
        command_of_entry(error_text(stamp, command, message)) == command_part(
            command + " - "@ + message,
        ),
        first_occurrence(command + " - "@ + message, " - "@).is_some(),
        first_occurrence(command + " - "@ + message, " - "@).unwrap() <= command.len(),
{
    reveal_strlit("[");
    reveal_strlit("] ✗ ERROR: ");
    reveal_strlit(": ");
    reveal_strlit(" - ");
    let tag = seq![']', ' ', '✗', ' ', 'E', 'R', 'R', 'O', 'R'];
    let entry = error_text(stamp, command, message);
    let rest = command + " - "@ + message;
    assert("["@ =~= seq!['[']);
    assert(": "@ =~= seq![':', ' ']);
    assert("] ✗ ERROR: "@ =~= tag + seq![':', ' ']);
    assert(entry =~= seq!['['] + stamp + tag + seq![':', ' '] + rest);
    lemma_tag_ends_at(entry, stamp, tag, rest);
    assert(rest.subrange(command.len() as int, command.len() as int + 3) =~= " - "@);
    assert(occurs_at(rest, " - "@, command.len() as int));
    lemma_has_first_occurrence(rest, " - "@, command.len() as int);
}

/// A text in which `needle` stands at `w` has a first place of it, at `w`
/// or before.
pub proof fn lemma_has_first_occurrence(hay: Seq<char>, needle: Seq<char>, w: int)
    requires
        occurs_at(hay, needle, w),
    ensures
        first_occurrence(hay, needle).is_some(),
        first_occurrence(hay, needle).unwrap() <= w,
        is_first_occurrence(hay, needle, first_occurrence(hay, needle).unwrap()),
    decreases w,
{
    if exists|j: int| 0 <= j < w && occurs_at(hay, needle, j) {
        let j = choose|j: int| 0 <= j < w && occurs_at(hay, needle, j);
        lemma_has_first_occurrence(hay, needle, j);
    } else {
        assert(is_first_occurrence(hay, needle, w));
        lemma_first_occurrence_unique(hay, needle, w);
    }
}

} // verus!
