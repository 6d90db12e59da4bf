//! The log view: the fetched records in the order they are shown, newest first,
//! and the cursor on one of them.
//!
//! The cursor is an index or absent; a view without records starts without
//! one. Replacing the records and inserting a new one at the head leave the
//! cursor where it is, so it may come to point past the last record; such a
//! cursor selects nothing. Every movement in a view with records puts the
//! cursor on a record, wherever it was.

use crate::api::models::Log;
use crate::config::ColorConfig;
use crate::text::{
    chain, decimal, i64_to_string, join, joined, lowercase_text, text_eq, to_lowercase,
    to_uppercase, uppercase_text,
};
use crate::time::rfc3339_text;
use crate::utils::{format_json_pretty, json_pretty_text, shown_json};
use vstd::prelude::*;
use vstd::string::*;

verus! {

/// Number of rows the cursor moves on a page-up or page-down.
pub const PAGE_STRIDE: usize = 10;

/// The cursor after one step down the list of `len` records: the next record,
/// or the first after the last; the first where there was no cursor. Nothing
/// moves in an empty list.
pub open spec fn next_index(selected: Option<usize>, len: usize) -> Option<usize> {
    if len == 0 {
        selected
    } else {
        match selected {
            Some(i) => if i >= len - 1 {
                Some(0)
            } else {
                Some((i + 1) as usize)
            },
            None => Some(0),
        }
    }
}

/// The cursor after one step up the list of `len` records: the record before,
/// or the last before the first; the last from past the end; the first where
/// there was no cursor. Nothing moves in an empty list.
pub open spec fn previous_index(selected: Option<usize>, len: usize) -> Option<usize> {
    if len == 0 {
        selected
    } else {
        match selected {
            Some(i) => if i == 0 || i - 1 >= len - 1 {
                Some((len - 1) as usize)
            } else {
                Some((i - 1) as usize)
            },
            None => Some(0),
        }
    }
}

/// The cursor after a jump to the first of `len` records.
pub open spec fn first_index(selected: Option<usize>, len: usize) -> Option<usize> {
    if len == 0 {
        selected
    } else {
        Some(0)
    }
}

/// The cursor after a jump to the last of `len` records.
pub open spec fn last_index(selected: Option<usize>, len: usize) -> Option<usize> {
    if len == 0 {
        selected
    } else {
        Some((len - 1) as usize)
    }
}

/// The row that paging starts from: the cursor, or the first row without one.
pub open spec fn page_start(selected: Option<usize>) -> usize {
    match selected {
        Some(i) => i,
        None => 0,
    }
}

/// The cursor after one page down the list of `len` records: `PAGE_STRIDE` rows
/// further, but not past the last record.
pub open spec fn page_down_index(selected: Option<usize>, len: usize) -> Option<usize> {
    if len == 0 {
        selected
    } else if page_start(selected) + PAGE_STRIDE < len - 1 {
        Some((page_start(selected) + PAGE_STRIDE) as usize)
    } else {
        Some((len - 1) as usize)
    }
}

/// The cursor after one page up the list of `len` records: `PAGE_STRIDE` rows
/// back, but neither before the first record nor past the last.
pub open spec fn page_up_index(selected: Option<usize>, len: usize) -> Option<usize> {
    if len == 0 {
        selected
    } else if page_start(selected) < PAGE_STRIDE {
        Some(0)
    } else if page_start(selected) - PAGE_STRIDE < len - 1 {
        Some((page_start(selected) - PAGE_STRIDE) as usize)
    } else {
        Some((len - 1) as usize)
    }
}

/// Whether the cursor is on one of `len` records.
pub open spec fn on_record(selected: Option<usize>, len: usize) -> bool {
    selected matches Some(i) && i < len
}

/// The cursor after `times` pages down.
pub open spec fn page_down_times(selected: Option<usize>, len: usize, times: nat) -> Option<usize>
    decreases times,
{
    if times == 0 {
        selected
    } else {
        page_down_index(page_down_times(selected, len, (times - 1) as nat), len)
    }
}

/// The records after `log` has arrived on the live feed, where at most `cap`
/// are kept: `log` first, then the records that were there, cut after the
/// `cap`th.
pub open spec fn tail_inserted(logs: Seq<Log>, log: Log, cap: usize) -> Seq<Log> {
    let grown = seq![log] + logs;
    if grown.len() > cap {
        grown.take(cap as int)
    } else {
        grown
    }
}

/// The records after those of `arrived` have arrived on the live feed one after
/// the other, the first of `arrived` first.
pub open spec fn tail_inserted_all(logs: Seq<Log>, arrived: Seq<Log>, cap: usize) -> Seq<Log>
    decreases arrived.len(),
{
    if arrived.len() == 0 {
        logs
    } else {
        tail_inserted(tail_inserted_all(logs, arrived.drop_last(), cap), arrived.last(), cap)
    }
}

/// The log view.
#[derive(Debug)]
pub struct LogsViewState {
    /// The cursor.
    pub selected: Option<usize>,
    /// The records, in the order they are shown.
    pub logs: Vec<Log>,
    /// The pattern in which the time of a record is shown.
    pub date_format: String,
}

/// The log view as plain values.
pub struct LogsView {
    pub selected: Option<usize>,
    pub logs: Seq<Log>,
    pub date_format: Seq<char>,
}

impl LogsView {
    /// The record under the cursor, if the cursor is on one.
    pub open spec fn selected_log(self) -> Option<Log> {
        match self.selected {
            Some(i) => if i < self.logs.len() {
                Some(self.logs[i as int])
            } else {
                None
            },
            None => None,
        }
    }

    /// The view with the cursor at `selected`.
    pub open spec fn with_selected(self, selected: Option<usize>) -> LogsView {
        LogsView { selected, ..self }
    }

    /// The view after its records have been replaced by `logs`: the cursor goes
    /// to the first record where there was no cursor and there is a record now;
    /// else it stays where it was.
    pub open spec fn with_logs(self, logs: Seq<Log>) -> LogsView {
        LogsView {
            selected: if logs.len() > 0 && self.selected is None {
                Some(0)
            } else {
                self.selected
            },
            logs,
            ..self
        }
    }

    /// The view after `log` has arrived on the live feed, where at most `cap`
    /// records are kept. The cursor stays where it was.
    pub open spec fn with_arrival(self, log: Log, cap: usize) -> LogsView {
        LogsView { logs: tail_inserted(self.logs, log, cap), ..self }
    }
}

impl View for LogsViewState {
    type V = LogsView;

    open spec fn view(&self) -> LogsView {
        LogsView { selected: self.selected, logs: self.logs@, date_format: self.date_format@ }
    }
}

impl LogsViewState {
    /// The empty view. It has no cursor, as there is no record to select.
    pub fn new(date_format: String) -> (state: Self)
        ensures
            state@ == (LogsView { selected: None, logs: Seq::empty(), date_format: date_format@ }),
            state@.selected_log() is None,
    {
        LogsViewState { selected: None, logs: Vec::new(), date_format }
    }

    /// Moves the cursor one record down, round to the first after the last.
    pub fn next(&mut self)
        ensures
            final(self)@ == old(self)@.with_selected(
                next_index(old(self).selected, old(self).logs.len()),
            ),
    {
        if self.logs.len() == 0 {
            return ;
        }
        let i: usize = match self.selected {
            Some(i) => {
                if i >= self.logs.len() - 1 {
                    0
                } else {
                    i + 1
                }
            },
            None => 0,
        };
        self.selected = Some(i);
    }

    /// Moves the cursor one record up, round to the last before the first. From
    /// past the end it goes to the last record.
    pub fn previous(&mut self)
        ensures
            final(self)@ == old(self)@.with_selected(
                previous_index(old(self).selected, old(self).logs.len()),
            ),
    {
        if self.logs.len() == 0 {
            return ;
        }
        let last: usize = self.logs.len() - 1;
        let i: usize = match self.selected {
            Some(i) => {
                if i == 0 || i - 1 >= last {
                    last
                } else {
                    i - 1
                }
            },
            None => 0,
        };
        self.selected = Some(i);
    }

    /// Puts the cursor on the first record.
    pub fn select_first(&mut self)
        ensures
            final(self)@ == old(self)@.with_selected(
                first_index(old(self).selected, old(self).logs.len()),
            ),
    {
        if self.logs.len() != 0 {
            self.selected = Some(0);
        }
    }

    /// Puts the cursor on the last record.
    pub fn select_last(&mut self)
        ensures
            final(self)@ == old(self)@.with_selected(
                last_index(old(self).selected, old(self).logs.len()),
            ),
    {
        if self.logs.len() != 0 {
            self.selected = Some(self.logs.len() - 1);
        }
    }

    /// Moves the cursor one page down, not past the last record.
    pub fn page_down(&mut self)
        ensures
            final(self)@ == old(self)@.with_selected(
                page_down_index(old(self).selected, old(self).logs.len()),
            ),
    {
        if self.logs.len() == 0 {
            return ;
        }
        let i: usize = match self.selected {
            Some(i) => i,
            None => 0,
        };
        let last: usize = self.logs.len() - 1;
        let new_i: usize = if i >= last || last - i <= PAGE_STRIDE {
            last
        } else {
            i + PAGE_STRIDE
        };
        self.selected = Some(new_i);
    }

    /// Moves the cursor one page up, neither before the first record nor past
    /// the last.
    pub fn page_up(&mut self)
        ensures
            final(self)@ == old(self)@.with_selected(
                page_up_index(old(self).selected, old(self).logs.len()),
            ),
    {
        if self.logs.len() == 0 {
            return ;
        }
        let i: usize = match self.selected {
            Some(i) => i,
            None => 0,
        };
        let last: usize = self.logs.len() - 1;
        let new_i: usize = if i < PAGE_STRIDE {
            0
        } else if i - PAGE_STRIDE < last {
            i - PAGE_STRIDE
        } else {
            last
        };
        self.selected = Some(new_i);
    }

    /// The record under the cursor; none where there is no cursor or the cursor
    /// is past the last record.
    pub fn selected_log(&self) -> (r: Option<&Log>)
        ensures
            r.is_some() == self@.selected_log().is_some(),
            r matches Some(log) ==> Some(*log) == self@.selected_log(),
    {
        match self.selected {
            Some(i) => {
                if i < self.logs.len() {
                    Some(&self.logs[i])
                } else {
                    None
                }
            },
            None => None,
        }
    }

    /// Replaces the records by `logs`, the result of a fetch.
    pub fn set_logs(&mut self, logs: Vec<Log>)
        ensures
            final(self)@ == old(self)@.with_logs(logs@),
    {
        self.logs = logs;
        if self.logs.len() != 0 && self.selected.is_none() {
            self.selected = Some(0);
        }
    }

    /// Takes a record that arrived on the live feed: it becomes the first, and
    /// where more than `cap` records are held now, those after the `cap`th, the
    /// oldest, are dropped.
    pub fn insert_arrival(&mut self, log: Log, cap: usize)
        ensures
            final(self)@ == old(self)@.with_arrival(log, cap),
    {
        self.logs.insert(0, log);
        assert(self.logs@ =~= seq![log] + old(self).logs@);
        if self.logs.len() > cap {
            self.logs.truncate(cap);
        }
    }
}

/// For a list that is not empty: stepping down and then up, or up and then
/// down, from a cursor on a record comes back to that record; stepping up from
/// the first record lands on the last, and stepping down from the last lands on
/// the first.
pub proof fn lemma_next_previous_round_trip(len: usize, i: usize)
    requires
        0 < len,
        i < len,
    ensures
        previous_index(next_index(Some(i), len), len) == Some(i),
        next_index(previous_index(Some(i), len), len) == Some(i),
        previous_index(Some(0), len) == Some((len - 1) as usize),
        next_index(Some((len - 1) as usize), len) == Some(0usize),
{
}

/// For a list that is not empty, every movement puts the cursor on a record,
/// wherever it was: on a record, past the end, or absent. So no page up and no
/// page down gives an index outside the list.
pub proof fn lemma_cursor_stays_on_record(selected: Option<usize>, len: usize)
    requires
        0 < len,
    ensures
        on_record(next_index(selected, len), len),
        on_record(previous_index(selected, len), len),
        on_record(first_index(selected, len), len),
        on_record(last_index(selected, len), len),
        on_record(page_down_index(selected, len), len),
        on_record(page_up_index(selected, len), len),
{
}

/// For a list that is not empty: after one page down or more the cursor is
/// `PAGE_STRIDE` rows further for each page, but not past the last record.
/// So paging down reaches the last record, from wherever it starts, and then
/// stays there.
pub proof fn lemma_page_down_converges(selected: Option<usize>, len: usize, times: nat)
    requires
        0 < len,
        0 < times,
    ensures
        page_down_times(selected, len, times) == Some(
            if page_start(selected) + PAGE_STRIDE * times < len - 1 {
                (page_start(selected) + PAGE_STRIDE * times) as usize
            } else {
                (len - 1) as usize
            },
        ),
        page_start(selected) + PAGE_STRIDE * times >= len - 1 ==> page_down_times(
            selected,
            len,
            times,
        ) == Some((len - 1) as usize),
        page_down_index(Some((len - 1) as usize), len) == Some((len - 1) as usize),
    decreases times,
{
    if times > 1 {
        lemma_page_down_converges(selected, len, (times - 1) as nat);
        assert(PAGE_STRIDE * times == PAGE_STRIDE * (times - 1) + PAGE_STRIDE) by (nonlinear_arith);
    } else {
        assert(page_down_times(selected, len, 0) == selected);
        assert(PAGE_STRIDE * times == PAGE_STRIDE) by (nonlinear_arith)
            requires
                times == 1,
        ;
    }
}

/// After a record has arrived on the live feed, no more than `cap` records are
/// held, the new record is the first where `cap` is not zero, and the records
/// behind it are those that were there, in their order, short of the oldest
/// where the limit was passed.
pub proof fn lemma_tail_insertion_bounded(logs: Seq<Log>, log: Log, cap: usize)
    ensures
        tail_inserted(logs, log, cap).len() <= cap,
        tail_inserted(logs, log, cap).len() == if logs.len() + 1 <= cap {
            logs.len() + 1
        } else {
            cap as nat
        },
        tail_inserted(logs, log, cap) == (seq![log] + logs).take(
            tail_inserted(logs, log, cap).len() as int,
        ),
{
    let grown = seq![log] + logs;
    assert(grown.take(grown.len() as int) =~= grown);
}

/// After any run of records has arrived on the live feed, one or more, no more
/// than `cap` records are held, and they are the most recent ones: the arrived
/// records from the last to the first, then the records that were there before,
/// cut after the `cap`th.
pub proof fn lemma_tail_keeps_most_recent(logs: Seq<Log>, arrived: Seq<Log>, cap: usize)
    requires
        arrived.len() > 0,
    ensures
        tail_inserted_all(logs, arrived, cap).len() <= cap,
        tail_inserted_all(logs, arrived, cap).len() == if arrived.len() + logs.len() <= cap {
            arrived.len() + logs.len()
        } else {
            cap as nat
        },
        tail_inserted_all(logs, arrived, cap) == (arrived.reverse() + logs).take(
            tail_inserted_all(logs, arrived, cap).len() as int,
        ),
    decreases arrived.len(),
{
    let earlier = arrived.drop_last();
    let newest = arrived.last();
    let before = tail_inserted_all(logs, earlier, cap);
    let result = tail_inserted_all(logs, arrived, cap);
    assert(result == tail_inserted(before, newest, cap));
    lemma_tail_insertion_bounded(before, newest, cap);
    let all = arrived.reverse() + logs;
    assert(arrived.reverse() =~= seq![newest] + earlier.reverse());
    if earlier.len() == 0 {
        assert(before == logs);
        assert(seq![newest] + before =~= all);
    } else {
        lemma_tail_keeps_most_recent(logs, earlier, cap);
        let older = earlier.reverse() + logs;
        assert(all =~= seq![newest] + older);
        assert(before == older.take(before.len() as int));
        assert((seq![newest] + before).take(result.len() as int) =~= all.take(
            result.len() as int,
        ));
    }
}

/// A colour of the screen.
#[derive(Debug, Clone, Copy, PartialEq, Eq, Structural)]
pub enum Color {
    Red,
    Yellow,
    Green,
    Blue,
    Magenta,
    Cyan,
    White,
    Gray,
}

/// The colour that a name in lowercase stands for. A name that is not known
/// stands for white.
pub open spec fn color_of(lower: Seq<char>) -> Color {
    if lower == "red"@ {
        Color::Red
    } else if lower == "yellow"@ {
        Color::Yellow
    } else if lower == "green"@ {
        Color::Green
    } else if lower == "blue"@ {
        Color::Blue
    } else if lower == "magenta"@ {
        Color::Magenta
    } else if lower == "cyan"@ {
        Color::Cyan
    } else if lower == "white"@ {
        Color::White
    } else if lower == "gray"@ || lower == "grey"@ {
        Color::Gray
    } else {
        Color::White
    }
}

/// The colour that the name `lower`, in lowercase, stands for.
pub fn color_named(lower: &str) -> (color: Color)
    ensures
        color == color_of(lower@),
{
    if text_eq(lower, "red") {
        Color::Red
    } else if text_eq(lower, "yellow") {
        Color::Yellow
    } else if text_eq(lower, "green") {
        Color::Green
    } else if text_eq(lower, "blue") {
        Color::Blue
    } else if text_eq(lower, "magenta") {
        Color::Magenta
    } else if text_eq(lower, "cyan") {
        Color::Cyan
    } else if text_eq(lower, "white") {
        Color::White
    } else if text_eq(lower, "gray") || text_eq(lower, "grey") {
        Color::Gray
    } else {
        Color::White
    }
}

/// The colour that a name stands for, whatever the case of its letters.
pub fn parse_color(color_str: &str) -> (color: Color)
    ensures
        color == color_of(lowercase_text(color_str@)),
{
    let lower = to_lowercase(color_str);
    color_named(lower.as_str())
}

/// The name of the colour that `colors` gives the level named `upper`, in
/// uppercase; `None` for a name that is no level.
pub open spec fn level_color_name(upper: Seq<char>, colors: ColorConfig) -> Option<Seq<char>> {
    if upper == "ERROR"@ {
        Some(colors.error@)
    } else if upper == "WARN"@ {
        Some(colors.warn@)
    } else if upper == "INFO"@ {
        Some(colors.info@)
    } else if upper == "DEBUG"@ {
        Some(colors.debug@)
    } else if upper == "FATAL"@ {
        Some(colors.fatal@)
    } else {
        None
    }
}

/// The colour in which the level named `upper`, in uppercase, is shown: the one
/// that `colors` names for it, and white for a name that is no level.
pub open spec fn level_color(upper: Seq<char>, colors: ColorConfig) -> Color {
    match level_color_name(upper, colors) {
        Some(name) => color_of(lowercase_text(name)),
        None => Color::White,
    }
}

/// The name of the colour that `colors` gives the level named `upper`, in
/// uppercase.
pub fn color_name_for<'a>(upper: &str, colors: &'a ColorConfig) -> (name: Option<&'a str>)
    ensures
        name.deep_view() == level_color_name(upper@, *colors),
{
    if text_eq(upper, "ERROR") {
        Some(colors.error.as_str())
    } else if text_eq(upper, "WARN") {
        Some(colors.warn.as_str())
    } else if text_eq(upper, "INFO") {
        Some(colors.info.as_str())
    } else if text_eq(upper, "DEBUG") {
        Some(colors.debug.as_str())
    } else if text_eq(upper, "FATAL") {
        Some(colors.fatal.as_str())
    } else {
        None
    }
}

/// The colour in which a record of the level named `level` is shown, whatever
/// the case of the name's letters.
pub fn get_level_color(level: &str, colors: &ColorConfig) -> (color: Color)
    ensures
        color == level_color(uppercase_text(level@), *colors),
{
    let upper = to_uppercase(level);
    match color_name_for(upper.as_str(), colors) {
        Some(name) => parse_color(name),
        None => Color::White,
    }
}

/// The line that shows the tag `tag`.
pub open spec fn tag_line(tag: (Seq<char>, Seq<char>)) -> Seq<char> {
    "  "@ + tag.0 + ": "@ + tag.1
}

/// The lines that show the tags `tags`, one each, in their order.
pub open spec fn tag_lines(tags: Seq<(Seq<char>, Seq<char>)>) -> Seq<Seq<char>> {
    Seq::new(tags.len(), |i: int| tag_line(tags[i]))
}

/// The lines of the detail of `log`, where `timestamp` and `created_at` are the
/// texts of its two instants and `payload` is what is shown for its structured
/// payload: number, application, level, the two instants, the message, then
/// the payload where the record has one, then the tags where it has any.
pub open spec fn detail_lines(
    log: Log,
    timestamp: Seq<char>,
    created_at: Seq<char>,
    payload: Option<Seq<char>>,
) -> Seq<Seq<char>> {
    seq![
        "ID: "@ + decimal(log.id as int),
        "App: "@ + log.app_name@ + " (ID: "@ + decimal(log.app_id as int) + ")"@,
        "Level: "@ + log.level@,
        "Timestamp: "@ + timestamp,
        "Created At: "@ + created_at,
        Seq::empty(),
        "Message:"@,
        log.message@,
    ] + (match payload {
        Some(text) => seq![Seq::empty(), "Structured Data:"@, text],
        None => Seq::empty(),
    }) + (match log.tags {
        Some(tags) => if tags@.len() > 0 {
            seq![Seq::empty(), "Tags:"@] + tag_lines(tags.deep_view())
        } else {
            Seq::empty()
        },
        None => Seq::empty(),
    })
}

/// The detail of `log` as one text, a line break between each two lines.
pub open spec fn detail_text(
    log: Log,
    timestamp: Seq<char>,
    created_at: Seq<char>,
    payload: Option<Seq<char>>,
) -> Seq<char> {
    joined(detail_lines(log, timestamp, created_at, payload), "\n"@)
}

/// What is shown for the structured payload of `log`, where it has one.
pub open spec fn payload_shown(log: Log) -> Option<Seq<char>> {
    match log.structured_data {
        Some(json) => Some(shown_json(json_pretty_text(json@))),
        None => None,
    }
}

fn push_line(lines: &mut Vec<String>, line: String)
    ensures
        final(lines).deep_view() == old(lines).deep_view().push(line@),
{
    lines.push(line);
    assert(final(lines).deep_view() =~= old(lines).deep_view().push(line@));
}

fn push_tag_lines(lines: &mut Vec<String>, tags: &Vec<(String, String)>)
    ensures
        final(lines).deep_view() == old(lines).deep_view() + tag_lines(tags.deep_view()),
{
    let ghost before = lines.deep_view();
    let mut i: usize = 0;
    assert(lines.deep_view() =~= before + tag_lines(tags.deep_view()).take(0));
    while i < tags.len()
        invariant
            i <= tags.len(),
            lines.deep_view() == before + tag_lines(tags.deep_view()).take(i as int),
        decreases tags.len() - i,
    {
        let mut line = chain("  ", tags[i].0.as_str());
        line.append(": ");
        line.append(tags[i].1.as_str());
        assert(line@ =~= tag_line(tags.deep_view()[i as int]));
        push_line(lines, line);
        assert(lines.deep_view() =~= before + tag_lines(tags.deep_view()).take(i + 1));
        i += 1;
    }
    assert(tag_lines(tags.deep_view()).take(tags.len() as int) =~= tag_lines(tags.deep_view()));
}

/// The detail of `log` as one text, where `timestamp` and `created_at` are the
/// texts of its two instants and `payload` is what is shown for its structured
/// payload.
pub fn format_log_detail_with(
    log: &Log,
    timestamp: &str,
    created_at: &str,
    payload: Option<String>,
) -> (r: String)
    ensures
        r@ == detail_text(*log, timestamp@, created_at@, payload.deep_view()),
{
    let mut lines: Vec<String> = Vec::new();
    push_line(&mut lines, chain("ID: ", i64_to_string(log.id).as_str()));
    let mut app = chain("App: ", log.app_name.as_str());
    app.append(" (ID: ");
    app.append(i64_to_string(log.app_id).as_str());
    app.append(")");
    push_line(&mut lines, app);
    push_line(&mut lines, chain("Level: ", log.level.as_str()));
    push_line(&mut lines, chain("Timestamp: ", timestamp));
    push_line(&mut lines, chain("Created At: ", created_at));
    push_line(&mut lines, String::new());
    push_line(&mut lines, String::from_str("Message:"));
    push_line(&mut lines, log.message.clone());
    let ghost head = lines.deep_view();
    assert(head =~= seq![
        "ID: "@ + decimal(log.id as int),
        "App: "@ + log.app_name@ + " (ID: "@ + decimal(log.app_id as int) + ")"@,
        "Level: "@ + log.level@,
        "Timestamp: "@ + timestamp@,
        "Created At: "@ + created_at@,
        Seq::<char>::empty(),
        "Message:"@,
        log.message@,
    ]);
    if let Some(text) = payload {
        push_line(&mut lines, String::new());
        push_line(&mut lines, String::from_str("Structured Data:"));
        push_line(&mut lines, text);
    }
    let ghost with_payload = lines.deep_view();
    assert(with_payload =~= head + (match payload.deep_view() {
        Some(text) => seq![Seq::<char>::empty(), "Structured Data:"@, text],
        None => Seq::<Seq<char>>::empty(),
    }));
    if let Some(tags) = &log.tags {
        if tags.len() != 0 {
            push_line(&mut lines, String::new());
            push_line(&mut lines, String::from_str("Tags:"));
            push_tag_lines(&mut lines, tags);
            assert(lines.deep_view() =~= with_payload + (seq![Seq::<char>::empty(), "Tags:"@]
                + tag_lines(tags.deep_view())));
        }
    }
    assert(lines.deep_view() =~= detail_lines(
        *log,
        timestamp@,
        created_at@,
        payload.deep_view(),
    ));
    join(&lines, "\n")
}

/// The detail of `log` as one text, or `None` where one of its two times is no
/// instant of the calendar.
pub fn format_log_detail(log: &Log) -> (r: Option<String>)
    ensures
        r is Some <==> log.timestamp.is_instant() && log.created_at.is_instant(),
        r matches Some(text) ==> text@ == detail_text(
            *log,
            rfc3339_text(log.timestamp.secs, log.timestamp.nanos)->0,
            rfc3339_text(log.created_at.secs, log.created_at.nanos)->0,
            payload_shown(*log),
        ),
{
    let timestamp = match log.timestamp.to_rfc3339() {
        Some(text) => text,
        None => { return None; },
    };
    let created_at = match log.created_at.to_rfc3339() {
        Some(text) => text,
        None => { return None; },
    };
    let payload = match &log.structured_data {
        Some(json) => Some(format_json_pretty(json.as_str())),
        None => None,
    };
    Some(format_log_detail_with(log, timestamp.as_str(), created_at.as_str(), payload))
}

} // verus!
