//! The filter panel: the selections in progress and the criteria they compile
//! to.

use crate::api::models::{
    lemma_level_names, Application, FilterCriteria, LogFilters, LogLevel, DEFAULT_LIMIT,
};
use crate::input::{KeyCode, KeyEvent};
use crate::text::{
    contains_text, lemma_filter_other_than, other_than, pop_char, push_char, without_text,
};
use crate::time::{utc_now, Timestamp, DAY_SECS, HOUR_SECS, WEEK_SECS};
use crate::ui::login::erased;
use vstd::prelude::*;

verus! {

/// The part of the filter panel that the keys go to.
#[derive(Debug, Clone, Copy, PartialEq, Eq, Structural)]
pub enum FilterField {
    App,
    Levels,
    Search,
    TimeRange,
}

impl FilterField {
    /// The part that Tab moves to: application, levels, time range, search, and
    /// round again.
    pub open spec fn following(self) -> FilterField {
        match self {
            FilterField::App => FilterField::Levels,
            FilterField::Levels => FilterField::TimeRange,
            FilterField::TimeRange => FilterField::Search,
            FilterField::Search => FilterField::App,
        }
    }
}

/// A named time window that ends now.
#[derive(Debug, Clone, Copy, PartialEq, Eq, Structural)]
pub enum TimeRangePreset {
    Last1Hour,
    Last24Hours,
    Last7Days,
    All,
}

impl TimeRangePreset {
    /// The name of the window as the panel shows it.
    pub open spec fn name(self) -> Seq<char> {
        match self {
            TimeRangePreset::Last1Hour => "Last 1 hour"@,
            TimeRangePreset::Last24Hours => "Last 24 hours"@,
            TimeRangePreset::Last7Days => "Last 7 days"@,
            TimeRangePreset::All => "All time"@,
        }
    }

    /// The windows in the order the panel lists them.
    pub open spec fn ordered() -> Seq<TimeRangePreset> {
        seq![
            TimeRangePreset::Last1Hour,
            TimeRangePreset::Last24Hours,
            TimeRangePreset::Last7Days,
            TimeRangePreset::All,
        ]
    }

    /// The length of the window in seconds; `None` for the window without
    /// bounds.
    pub open spec fn span(self) -> Option<i64> {
        match self {
            TimeRangePreset::Last1Hour => Some(HOUR_SECS),
            TimeRangePreset::Last24Hours => Some(DAY_SECS),
            TimeRangePreset::Last7Days => Some(WEEK_SECS),
            TimeRangePreset::All => None,
        }
    }

    /// The start of the window that ends at `now`; `None` for the window
    /// without bounds.
    pub open spec fn start(self, now: Timestamp) -> Option<Timestamp> {
        match self.span() {
            Some(secs) => Some(Timestamp { secs: (now.secs - secs) as i64, nanos: now.nanos }),
            None => None,
        }
    }

    /// The end of the window, taken at `now`; `None` for the window without
    /// bounds.
    pub open spec fn end(self, now: Timestamp) -> Option<Timestamp> {
        match self.span() {
            Some(_) => Some(now),
            None => None,
        }
    }

    /// The name of the window as the panel shows it.
    pub fn as_str(&self) -> (s: &'static str)
        ensures
            s@ == self.name(),
    {
        match self {
            TimeRangePreset::Last1Hour => "Last 1 hour",
            TimeRangePreset::Last24Hours => "Last 24 hours",
            TimeRangePreset::Last7Days => "Last 7 days",
            TimeRangePreset::All => "All time",
        }
    }

    /// The windows in the order the panel lists them.
    pub fn all() -> (presets: Vec<TimeRangePreset>)
        ensures
            presets@ == Self::ordered(),
    {
        let mut presets: Vec<TimeRangePreset> = Vec::new();
        presets.push(TimeRangePreset::Last1Hour);
        presets.push(TimeRangePreset::Last24Hours);
        presets.push(TimeRangePreset::Last7Days);
        presets.push(TimeRangePreset::All);
        assert(presets@ =~= Self::ordered());
        presets
    }

    /// The length of the window in seconds; `None` for the window without
    /// bounds.
    pub fn span_secs(&self) -> (r: Option<i64>)
        ensures
            r == self.span(),
    {
        match self {
            TimeRangePreset::Last1Hour => Some(HOUR_SECS),
            TimeRangePreset::Last24Hours => Some(DAY_SECS),
            TimeRangePreset::Last7Days => Some(WEEK_SECS),
            TimeRangePreset::All => None,
        }
    }
}

/// The filter panel. The list of applications has one row more than there are
/// applications: row 0 stands for all of them, row `i + 1` for application `i`.
#[derive(Debug)]
pub struct FilterState {
    pub active_field: FilterField,
    pub selected_app_id: Option<i64>,
    /// The names of the selected levels. None selected means every level.
    pub selected_levels: Vec<String>,
    pub search_text: String,
    pub time_range: TimeRangePreset,
    pub apps: Vec<Application>,
    /// The row of the application list that the cursor is on.
    pub app_cursor: usize,
    /// The row of the level list that the cursor is on.
    pub level_cursor: usize,
    /// The row of the list of time windows that the cursor is on.
    pub time_cursor: usize,
}

/// The filter panel as plain values.
pub struct FilterView {
    pub active_field: FilterField,
    pub selected_app_id: Option<i64>,
    pub selected_levels: Seq<Seq<char>>,
    pub search_text: Seq<char>,
    pub time_range: TimeRangePreset,
    pub apps: Seq<Application>,
    pub app_cursor: usize,
    pub level_cursor: usize,
    pub time_cursor: usize,
}

/// The cursor after one step down a list of `rows` rows, round to the first
/// after the last.
pub open spec fn row_after(cursor: usize, rows: int) -> usize {
    if cursor >= rows - 1 {
        0
    } else {
        (cursor + 1) as usize
    }
}

/// The cursor after one step up a list of `rows` rows, round to the last before
/// the first. `rows` is not zero and fits the cursor's type.
pub open spec fn row_before(cursor: usize, rows: int) -> usize {
    if cursor == 0 {
        (rows - 1) as usize
    } else {
        (cursor - 1) as usize
    }
}

/// The selection of levels after the level named `name` has been switched: it
/// leaves the selection where it was in it, and joins it at the end where it
/// was not.
pub open spec fn toggled(levels: Seq<Seq<char>>, name: Seq<char>) -> Seq<Seq<char>> {
    if levels.contains(name) {
        levels.filter(other_than(name))
    } else {
        levels.push(name)
    }
}

impl FilterView {
    /// The panel as it opens on the applications `apps`: nothing selected, the
    /// last 24 hours, the keys going to the application list.
    pub open spec fn initial(apps: Seq<Application>) -> FilterView {
        FilterView {
            active_field: FilterField::App,
            selected_app_id: None,
            selected_levels: Seq::empty(),
            search_text: Seq::empty(),
            time_range: TimeRangePreset::Last24Hours,
            apps,
            app_cursor: 0,
            level_cursor: 0,
            time_cursor: 1,
        }
    }

    /// Whether the cursors are on rows of their lists, no level is selected
    /// twice, every selected level is a level, and the selected application is
    /// one of the applications.
    pub open spec fn wf(self) -> bool {
        &&& self.app_cursor <= self.apps.len()
        &&& self.level_cursor < LogLevel::names().len()
        &&& self.time_cursor < TimeRangePreset::ordered().len()
        &&& self.selected_levels.no_duplicates()
        &&& forall|i: int|
            0 <= i < self.selected_levels.len() ==> LogLevel::names().contains(
                #[trigger] self.selected_levels[i],
            )
        &&& self.selected_app_id matches Some(id) ==> exists|j: int|
            0 <= j < self.apps.len() && (#[trigger] self.apps[j]).id == id
    }

    /// The panel after one step down the application list, which has a row for
    /// all applications before the row of the first.
    pub open spec fn next_app(self) -> FilterView {
        FilterView { app_cursor: row_after(self.app_cursor, (self.apps.len() + 1) as int), ..self }
    }

    /// The panel after one step up the application list.
    pub open spec fn previous_app(self) -> FilterView {
        FilterView { app_cursor: row_before(self.app_cursor, (self.apps.len() + 1) as int), ..self }
    }

    /// The panel after the row under the cursor of the application list has
    /// been picked: row 0 selects all applications, another row its
    /// application.
    pub open spec fn toggle_app_selection(self) -> FilterView {
        if self.app_cursor == 0 {
            FilterView { selected_app_id: None, ..self }
        } else if self.app_cursor - 1 < self.apps.len() {
            FilterView { selected_app_id: Some(self.apps[self.app_cursor - 1].id), ..self }
        } else {
            self
        }
    }

    /// The panel after one step down the level list.
    pub open spec fn next_level(self) -> FilterView {
        FilterView {
            level_cursor: row_after(self.level_cursor, LogLevel::names().len() as int),
            ..self
        }
    }

    /// The panel after one step up the level list.
    pub open spec fn previous_level(self) -> FilterView {
        FilterView {
            level_cursor: row_before(self.level_cursor, LogLevel::names().len() as int),
            ..self
        }
    }

    /// The panel after the level under the cursor has been switched.
    pub open spec fn toggle_level_selection(self) -> FilterView {
        if self.level_cursor < LogLevel::names().len() {
            FilterView {
                selected_levels: toggled(
                    self.selected_levels,
                    LogLevel::names()[self.level_cursor as int],
                ),
                ..self
            }
        } else {
            self
        }
    }

    /// The panel after one step down the list of time windows.
    pub open spec fn next_time_range(self) -> FilterView {
        FilterView {
            time_cursor: row_after(self.time_cursor, TimeRangePreset::ordered().len() as int),
            ..self
        }
    }

    /// The panel after one step up the list of time windows.
    pub open spec fn previous_time_range(self) -> FilterView {
        FilterView {
            time_cursor: row_before(self.time_cursor, TimeRangePreset::ordered().len() as int),
            ..self
        }
    }

    /// The panel after the time window under the cursor has been picked.
    pub open spec fn select_time_range(self) -> FilterView {
        if self.time_cursor < TimeRangePreset::ordered().len() {
            FilterView { time_range: TimeRangePreset::ordered()[self.time_cursor as int], ..self }
        } else {
            self
        }
    }

    /// The panel after the key `key`. Tab moves to the following part. In the
    /// search field a character is appended to the text and Backspace erases
    /// its last one. In a list the up and down keys move its cursor, and Enter
    /// or the space bar picks the row under it.
    pub open spec fn after_key(self, key: KeyEvent) -> FilterView {
        if key.code == KeyCode::Tab {
            FilterView { active_field: self.active_field.following(), ..self }
        } else {
            match self.active_field {
                FilterField::Search => match key.code {
                    KeyCode::Char(c) => FilterView {
                        search_text: self.search_text.push(c),
                        ..self
                    },
                    KeyCode::Backspace => FilterView {
                        search_text: erased(self.search_text),
                        ..self
                    },
                    _ => self,
                },
                FilterField::App => if key.is_up() {
                    self.previous_app()
                } else if key.is_down() {
                    self.next_app()
                } else if key.is_pick() {
                    self.toggle_app_selection()
                } else {
                    self
                },
                FilterField::Levels => if key.is_up() {
                    self.previous_level()
                } else if key.is_down() {
                    self.next_level()
                } else if key.is_pick() {
                    self.toggle_level_selection()
                } else {
                    self
                },
                FilterField::TimeRange => if key.is_up() {
                    self.previous_time_range()
                } else if key.is_down() {
                    self.next_time_range()
                } else if key.is_pick() {
                    self.select_time_range()
                } else {
                    self
                },
            }
        }
    }

    /// Whether the key `key` asks, by itself, for the filters to be applied:
    /// Enter in the search field.
    pub open spec fn applies(self, key: KeyEvent) -> bool {
        self.active_field == FilterField::Search && key.code == KeyCode::Enter
    }

    /// Whether the start of the selected time window, counted back from `now`,
    /// is a number of seconds that the machine can hold.
    pub open spec fn window_fits(self, now: Timestamp) -> bool {
        self.time_range.span() matches Some(secs) ==> now.secs - secs >= i64::MIN
    }

    /// The criteria that the selections compile to at the instant `now`: the
    /// selected application, the selected levels, the searched text where it is
    /// not empty, the selected time window ending at `now`, and the first
    /// `DEFAULT_LIMIT` records.
    pub open spec fn compiled(self, now: Timestamp) -> FilterCriteria {
        FilterCriteria {
            app_id: self.selected_app_id,
            levels: self.selected_levels,
            search: if self.search_text.len() == 0 {
                None
            } else {
                Some(self.search_text)
            },
            start_time: self.time_range.start(now),
            end_time: self.time_range.end(now),
            limit: DEFAULT_LIMIT,
            offset: 0,
        }
    }
}

impl View for FilterState {
    type V = FilterView;

    open spec fn view(&self) -> FilterView {
        FilterView {
            active_field: self.active_field,
            selected_app_id: self.selected_app_id,
            selected_levels: self.selected_levels.deep_view(),
            search_text: self.search_text@,
            time_range: self.time_range,
            apps: self.apps@,
            app_cursor: self.app_cursor,
            level_cursor: self.level_cursor,
            time_cursor: self.time_cursor,
        }
    }
}

/// An instant that the clock can show: the calendar has a date for it, and its
/// nanoseconds are below one second.
pub open spec fn clock_reading(now: Timestamp) -> bool {
    now.nanos < 1_000_000_000 && now.is_instant()
}

impl FilterState {
    /// The panel as it opens on the applications `apps`.
    pub fn new(apps: Vec<Application>) -> (state: Self)
        ensures
            state@ == FilterView::initial(apps@),
            state@.wf(),
    {
        let state = FilterState {
            active_field: FilterField::App,
            selected_app_id: None,
            selected_levels: Vec::new(),
            search_text: String::new(),
            time_range: TimeRangePreset::Last24Hours,
            apps,
            app_cursor: 0,
            level_cursor: 0,
            time_cursor: 1,
        };
        assert(state.selected_levels.deep_view() =~= Seq::empty());
        state
    }

    /// Takes a key. Returns whether the key asks for the filters to be applied.
    pub fn handle_key(&mut self, key: KeyEvent) -> (apply: bool)
        ensures
            final(self)@ == old(self)@.after_key(key),
            apply == old(self)@.applies(key),
    {
        match self.active_field {
            FilterField::Search => match key.code {
                KeyCode::Char(c) => {
                    push_char(&mut self.search_text, c);
                    false
                },
                KeyCode::Backspace => {
                    pop_char(&mut self.search_text);
                    false
                },
                KeyCode::Enter => true,
                KeyCode::Tab => {
                    self.active_field = FilterField::App;
                    false
                },
                _ => false,
            },
            FilterField::App => match key.code {
                KeyCode::Up | KeyCode::Char('k') => {
                    self.previous_app();
                    false
                },
                KeyCode::Down | KeyCode::Char('j') => {
                    self.next_app();
                    false
                },
                KeyCode::Enter | KeyCode::Char(' ') => {
                    self.toggle_app_selection();
                    false
                },
                KeyCode::Tab => {
                    self.active_field = FilterField::Levels;
                    false
                },
                _ => false,
            },
            FilterField::Levels => match key.code {
                KeyCode::Up | KeyCode::Char('k') => {
                    self.previous_level();
                    false
                },
                KeyCode::Down | KeyCode::Char('j') => {
                    self.next_level();
                    false
                },
                KeyCode::Enter | KeyCode::Char(' ') => {
                    self.toggle_level_selection();
                    false
                },
                KeyCode::Tab => {
                    self.active_field = FilterField::TimeRange;
                    false
                },
                _ => false,
            },
            FilterField::TimeRange => match key.code {
                KeyCode::Up | KeyCode::Char('k') => {
                    self.previous_time_range();
                    false
                },
                KeyCode::Down | KeyCode::Char('j') => {
                    self.next_time_range();
                    false
                },
                KeyCode::Enter | KeyCode::Char(' ') => {
                    self.select_time_range();
                    false
                },
                KeyCode::Tab => {
                    self.active_field = FilterField::Search;
                    false
                },
                _ => false,
            },
        }
    }

    /// Moves the cursor of the application list one row down.
    pub fn next_app(&mut self)
        ensures
            final(self)@ == old(self)@.next_app(),
    {
        let i = self.app_cursor;
        let next: usize = if i >= self.apps.len() {
            0
        } else {
            i + 1
        };
        self.app_cursor = next;
    }

    /// Moves the cursor of the application list one row up.
    pub fn previous_app(&mut self)
        ensures
            final(self)@ == old(self)@.previous_app(),
    {
        let i = self.app_cursor;
        let prev: usize = if i == 0 {
            self.apps.len()
        } else {
            i - 1
        };
        self.app_cursor = prev;
    }

    /// Picks the row under the cursor of the application list.
    pub fn toggle_app_selection(&mut self)
        ensures
            final(self)@ == old(self)@.toggle_app_selection(),
    {
        let i = self.app_cursor;
        if i == 0 {
            self.selected_app_id = None;
        } else if i - 1 < self.apps.len() {
            self.selected_app_id = Some(self.apps[i - 1].id);
        }
    }

    /// Moves the cursor of the level list one row down.
    pub fn next_level(&mut self)
        ensures
            final(self)@ == old(self)@.next_level(),
    {
        let i = self.level_cursor;
        let next: usize = if i >= LogLevel::all().len() - 1 {
            0
        } else {
            i + 1
        };
        self.level_cursor = next;
    }

    /// Moves the cursor of the level list one row up.
    pub fn previous_level(&mut self)
        ensures
            final(self)@ == old(self)@.previous_level(),
    {
        let i = self.level_cursor;
        let prev: usize = if i == 0 {
            LogLevel::all().len() - 1
        } else {
            i - 1
        };
        self.level_cursor = prev;
    }

    /// Switches the level under the cursor.
    pub fn toggle_level_selection(&mut self)
        ensures
            final(self)@ == old(self)@.toggle_level_selection(),
    {
        let levels = LogLevel::all();
        let i = self.level_cursor;
        if i < levels.len() {
            proof {
                lemma_level_names();
            }
            let name = levels[i].as_str();
            if contains_text(&self.selected_levels, name) {
                let kept = without_text(&self.selected_levels, name);
                self.selected_levels = kept;
            } else {
                let ghost before = self.selected_levels.deep_view();
                self.selected_levels.push(name.to_owned());
                assert(self.selected_levels.deep_view() =~= before.push(name@));
            }
        }
    }

    /// Moves the cursor of the list of time windows one row down.
    pub fn next_time_range(&mut self)
        ensures
            final(self)@ == old(self)@.next_time_range(),
    {
        let i = self.time_cursor;
        let next: usize = if i >= TimeRangePreset::all().len() - 1 {
            0
        } else {
            i + 1
        };
        self.time_cursor = next;
    }

    /// Moves the cursor of the list of time windows one row up.
    pub fn previous_time_range(&mut self)
        ensures
            final(self)@ == old(self)@.previous_time_range(),
    {
        let i = self.time_cursor;
        let prev: usize = if i == 0 {
            TimeRangePreset::all().len() - 1
        } else {
            i - 1
        };
        self.time_cursor = prev;
    }

    /// Picks the time window under the cursor.
    pub fn select_time_range(&mut self)
        ensures
            final(self)@ == old(self)@.select_time_range(),
    {
        let presets = TimeRangePreset::all();
        let i = self.time_cursor;
        if i < presets.len() {
            self.time_range = presets[i];
        }
    }

    /// Compiles the selections into criteria, with the time window ending at
    /// the instant `now`. A window starts its length before `now`, which must
    /// be a number of seconds that the machine can hold.
    pub fn to_log_filters_at(&self, now: Timestamp) -> (filters: LogFilters)
        requires
            self@.window_fits(now),
        ensures
            filters@ == self@.compiled(now),
    {
        let (start_time, end_time) = match self.time_range.span_secs() {
            Some(secs) => (Some(now.earlier(secs)), Some(now)),
            None => (None, None),
        };
        let levels = self.selected_levels.clone();
        assert(levels.deep_view() =~= self.selected_levels.deep_view());
        LogFilters {
            app_id: self.selected_app_id,
            levels,
            search: if self.search_text.as_str().is_empty() {
                None
            } else {
                Some(self.search_text.clone())
            },
            start_time,
            end_time,
            limit: DEFAULT_LIMIT,
            offset: 0,
        }
    }

    /// Compiles the selections into criteria, with the time window ending at
    /// the instant at which this is called.
    pub fn to_log_filters(&self) -> (filters: LogFilters)
        ensures
            exists|now: Timestamp|
                clock_reading(now) && filters@ == #[trigger] self@.compiled(now),
    {
        let now = utc_now();
        self.to_log_filters_at(now)
    }
}

/// Every key leaves a panel whose cursors and selections are in order in that
/// state.
pub proof fn lemma_after_key_wf(panel: FilterView, key: KeyEvent)
    requires
        panel.wf(),
    ensures
        panel.after_key(key).wf(),
{
    lemma_level_names();
    let after = panel.after_key(key);
    if after.selected_levels != panel.selected_levels {
        let name = LogLevel::names()[panel.level_cursor as int];
        assert(after.selected_levels == toggled(panel.selected_levels, name));
        lemma_filter_other_than(panel.selected_levels, name);
        if panel.selected_levels.contains(name) {
            let kept = panel.selected_levels.filter(other_than(name));
            assert forall|i: int| 0 <= i < kept.len() implies LogLevel::names().contains(
                #[trigger] kept[i],
            ) by {
                assert(kept.contains(kept[i]));
                assert(panel.selected_levels.contains(kept[i]));
            }
        } else {
            assert(LogLevel::names().contains(name));
        }
    }
    assert(after.apps == panel.apps);
    if let Some(id) = after.selected_app_id {
        if after.selected_app_id == panel.selected_app_id {
            let j = choose|j: int| 0 <= j < panel.apps.len() && (#[trigger] panel.apps[j]).id == id;
            assert(after.apps[j].id == id);
        } else {
            assert(after.apps[panel.app_cursor - 1].id == id);
        }
    }
    assert(after.selected_levels.no_duplicates());
    assert(after.app_cursor <= after.apps.len());
}

/// Criteria compiled with no level selected admit the records of every level;
/// criteria compiled with levels selected admit exactly the records of those
/// levels.
pub proof fn lemma_compiled_levels(panel: FilterView, now: Timestamp, level: Seq<char>)
    ensures
        panel.selected_levels.len() == 0 ==> panel.compiled(now).admits_level(level),
        panel.selected_levels.len() > 0 ==> (panel.compiled(now).admits_level(level)
            <==> panel.selected_levels.contains(level)),
        panel.compiled(now).levels == panel.selected_levels,
{
}

/// Compiled at the same instant, the same selections give the same criteria.
/// A window with a length ends at that instant and starts its length before
/// it: an hour, a day, or seven days. The window without bounds has neither
/// start nor end.
pub proof fn lemma_compiled_time_range(panel: FilterView, now: Timestamp)
    requires
        panel.window_fits(now),
    ensures
        panel.time_range == TimeRangePreset::All ==> panel.compiled(now).start_time is None
            && panel.compiled(now).end_time is None,
        panel.time_range != TimeRangePreset::All ==> panel.compiled(now).end_time == Some(now)
            && panel.compiled(now).start_time is Some && panel.compiled(now).start_time->0.nanos
            == now.nanos && now.secs - panel.compiled(now).start_time->0.secs
            == panel.time_range.span()->0,
        panel.time_range == TimeRangePreset::Last1Hour ==> now.secs - panel.compiled(
            now,
        ).start_time->0.secs == 3600,
        panel.time_range == TimeRangePreset::Last24Hours ==> now.secs - panel.compiled(
            now,
        ).start_time->0.secs == 86400,
        panel.time_range == TimeRangePreset::Last7Days ==> now.secs - panel.compiled(
            now,
        ).start_time->0.secs == 604800,
{
}

} // verus!
