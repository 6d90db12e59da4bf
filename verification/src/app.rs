//! The application's state machine. Keys and the outcomes of the remote
//! operations come in one at a time; each step changes the state and says what
//! the caller is to do next. The machine performs no operation itself: the
//! caller sends the request, and hands the reply to the method that the action
//! names. One operation is under way at a time.

use crate::api::client::{reply_outcome, ApiClient, ApiError, Endpoint, Reply};
use crate::api::models::{
    Application, ExportFormat, FilterCriteria, Log, LogFilters, LoginResponse,
};
use crate::api::sse::LogStream;
use crate::config::Config;
use crate::input::{KeyCode, KeyEvent};
use crate::text::{chain, decimal, trimmed_end, u64_to_string};
use crate::time::{plain_pattern, strftime_text, utc_now, Timestamp};
use crate::ui::filters::{clock_reading, lemma_after_key_wf, FilterState, FilterView};
use crate::ui::login::{LoginState, LoginView};
use crate::ui::logs::{
    first_index, last_index, lemma_tail_keeps_most_recent, next_index, page_down_index,
    page_up_index, previous_index, tail_inserted_all, LogsView, LogsViewState,
};
use crate::utils::format_timestamp;
use vstd::prelude::*;
use vstd::string::*;

verus! {

/// The screen that is shown.
#[derive(Debug, Clone, Copy, PartialEq, Eq, Structural)]
pub enum AppState {
    Login,
    Main,
    FilterPanel,
    LogDetail,
    Help,
    ExportMenu,
}

/// Why records are fetched.
#[derive(Debug, Clone, Copy, PartialEq, Eq, Structural)]
pub enum Fetch {
    /// The user asked for the records again.
    Refresh,
    /// The user applied the filter panel.
    Filter,
}

/// What the caller is to do after a step of the machine.
#[derive(Debug, PartialEq, Eq)]
pub enum Action {
    /// Nothing.
    Nothing,
    /// Send a login with these credentials; hand the reply to `login_replied`.
    Login { username: String, password: String },
    /// List the applications; hand the reply to `apps_replied`.
    LoadApps,
    /// Fetch the records that meet `filters`; hand the reply, with `purpose`,
    /// to `logs_replied`.
    FetchLogs { filters: LogFilters, purpose: Fetch },
    /// Open the live feed at `url`; hand the outcome to `stream_opened`.
    OpenStream { url: String },
    /// Export, as `format`, the records that meet `filters`; hand the reply,
    /// with `format`, to `export_replied`.
    Export { format: ExportFormat, filters: LogFilters },
    /// Write `data`, as it is, to the file `name` in the working directory; hand
    /// the outcome to `file_written`.
    WriteFile { name: String, data: Vec<u8> },
}

/// An action as plain values.
pub enum ActionView {
    Nothing,
    Login { username: Seq<char>, password: Seq<char> },
    LoadApps,
    FetchLogs { filters: FilterCriteria, purpose: Fetch },
    OpenStream { url: Seq<char> },
    Export { format: ExportFormat, filters: FilterCriteria },
    WriteFile { name: Seq<char>, data: Seq<u8> },
}

impl View for Action {
    type V = ActionView;

    open spec fn view(&self) -> ActionView {
        match self {
            Action::Nothing => ActionView::Nothing,
            Action::Login { username, password } => ActionView::Login {
                username: username@,
                password: password@,
            },
            Action::LoadApps => ActionView::LoadApps,
            Action::FetchLogs { filters, purpose } => ActionView::FetchLogs {
                filters: filters@,
                purpose: *purpose,
            },
            Action::OpenStream { url } => ActionView::OpenStream { url: url@ },
            Action::Export { format, filters } => ActionView::Export {
                format: *format,
                filters: filters@,
            },
            Action::WriteFile { name, data } => ActionView::WriteFile { name: name@, data: data@ },
        }
    }
}

/// The application: the screen shown, the session, the state of each screen,
/// the applications that were listed at login, and the live feed while it is
/// on.
pub struct App {
    pub state: AppState,
    pub config: Config,
    pub api_client: ApiClient,
    pub login_state: LoginState,
    pub logs_view: LogsViewState,
    /// The filter panel, while it is open.
    pub filter_state: Option<FilterState>,
    pub apps: Vec<Application>,
    /// Whether the live feed is on.
    pub tail_mode: bool,
    /// The screen's end of the live feed, while the feed is on.
    pub log_stream: Option<LogStream>,
    pub status_message: Option<String>,
    pub should_quit: bool,
    /// The row of the export menu that the cursor is on: 0 for JSON, else CSV.
    pub export_format_selection: usize,
}

/// The application as plain values.
pub struct AppView {
    pub state: AppState,
    pub config: Config,
    /// The base address of the service.
    pub base: Seq<char>,
    /// Whether a login has been accepted.
    pub session: bool,
    pub login: LoginView,
    pub logs: LogsView,
    pub filter: Option<FilterView>,
    pub apps: Seq<Application>,
    pub tail_mode: bool,
    /// The screen's end of the live feed, while it is held.
    pub log_stream: Option<LogStream>,
    pub status_message: Option<Seq<char>>,
    pub should_quit: bool,
    pub export_format_selection: usize,
}

/// The application after a step, and what the caller is to do.
pub struct Step {
    pub app: AppView,
    pub action: ActionView,
}

/// The view of the filter panel, where it is open.
pub open spec fn panel_view(panel: Option<FilterState>) -> Option<FilterView> {
    match panel {
        Some(state) => Some(state@),
        None => None,
    }
}

impl View for App {
    type V = AppView;

    open spec fn view(&self) -> AppView {
        AppView {
            state: self.state,
            config: self.config,
            base: self.api_client.base(),
            session: self.api_client.session(),
            login: self.login_state@,
            logs: self.logs_view@,
            filter: panel_view(self.filter_state),
            apps: self.apps@,
            tail_mode: self.tail_mode,
            log_stream: self.log_stream,
            status_message: self.status_message.deep_view(),
            should_quit: self.should_quit,
            export_format_selection: self.export_format_selection,
        }
    }
}

/// Whether `after` is what is held of the live feed once the feed that `before`
/// holds has been looked into: the same feed, with the capacity it had, or
/// none as before.
pub open spec fn looked_into(before: Option<LogStream>, after: Option<LogStream>) -> bool {
    match before {
        Some(feed) => after matches Some(same) && same.capacity() == feed.capacity(),
        None => after is None,
    }
}

/// The format that the row `selection` of the export menu stands for.
pub open spec fn format_at(selection: usize) -> ExportFormat {
    if selection == 0 {
        ExportFormat::Json
    } else {
        ExportFormat::Csv
    }
}

/// The other row of the export menu, which has two.
pub open spec fn other_row(selection: usize) -> usize {
    if selection % 2 == 0 {
        1
    } else {
        0
    }
}

/// The pattern of the instant in the name of an exported file.
pub open spec fn file_stamp_pattern() -> Seq<char> {
    "%Y%m%d_%H%M%S"@
}

/// The name of the file that an export as `format` is written to, where
/// `stamp` is the text of the instant of the export.
pub open spec fn export_file_name(stamp: Seq<char>, format: ExportFormat) -> Seq<char> {
    "logs_export_"@ + stamp + "."@ + format.name()
}

impl AppView {
    /// The application as it starts: on the login screen, not logged in, with
    /// the user name given or else the remembered one, and the password given.
    pub open spec fn initial(
        config: Config,
        username: Option<Seq<char>>,
        password: Option<Seq<char>>,
    ) -> AppView {
        AppView {
            state: AppState::Login,
            config,
            base: trimmed_end(config.server_url@, '/'),
            session: false,
            login: LoginView {
                username: match username {
                    Some(name) => name,
                    None => match config.username {
                        Some(name) => name@,
                        None => Seq::empty(),
                    },
                },
                password: match password {
                    Some(word) => word,
                    None => Seq::empty(),
                },
                ..LoginView::empty()
            },
            logs: LogsView {
                selected: None,
                logs: Seq::empty(),
                date_format: config.ui.date_format@,
            },
            filter: None,
            apps: Seq::empty(),
            tail_mode: false,
            log_stream: None,
            status_message: None,
            should_quit: false,
            export_format_selection: 0,
        }
    }

    /// The step that does nothing.
    pub open spec fn stay(self) -> Step {
        Step { app: self, action: ActionView::Nothing }
    }

    /// The step that only shows `message`.
    pub open spec fn say(self, message: Seq<char>) -> Step {
        Step { app: AppView { status_message: Some(message), ..self }, action: ActionView::Nothing }
    }

    /// The step that only shows the screen `state`.
    pub open spec fn go(self, state: AppState) -> Step {
        Step { app: AppView { state, ..self }, action: ActionView::Nothing }
    }

    /// The step that only moves the cursor of the log view to `selected`.
    pub open spec fn select(self, selected: Option<usize>) -> Step {
        Step {
            app: AppView { logs: self.logs.with_selected(selected), ..self },
            action: ActionView::Nothing,
        }
    }

    /// The login with what the form holds.
    pub open spec fn login_action(self) -> ActionView {
        ActionView::Login { username: self.login.username, password: self.login.password }
    }

    /// Whether a login is tried before the first key: on the login screen, with
    /// both fields filled in and no attempt under way.
    pub open spec fn auto_login_due(self) -> bool {
        &&& self.state == AppState::Login
        &&& self.login.is_complete()
        &&& !self.login.is_submitting
    }

    /// The step before the first key.
    pub open spec fn on_start(self) -> Step {
        if self.auto_login_due() {
            Step {
                app: AppView { login: LoginView { is_submitting: true, ..self.login }, ..self },
                action: self.login_action(),
            }
        } else {
            self.stay()
        }
    }

    /// The step on a key while the login screen is shown. Control with `c`
    /// quits. Any other key goes to the form; where it submits the form, the
    /// error shown is cleared and a login is sent.
    pub open spec fn on_login_key(self, key: KeyEvent) -> Step {
        if key.is_char('c') && key.control {
            Step { app: AppView { should_quit: true, ..self }, action: ActionView::Nothing }
        } else if self.login.submits(key) {
            let form = LoginView {
                is_submitting: true,
                error_message: None,
                ..self.login.after_key(key)
            };
            Step {
                app: AppView { login: form, ..self },
                action: ActionView::Login { username: form.username, password: form.password },
            }
        } else {
            Step {
                app: AppView { login: self.login.after_key(key), ..self },
                action: ActionView::Nothing,
            }
        }
    }

    /// The step that asks for the records again, with the criteria that select
    /// everything.
    pub open spec fn refresh(self) -> Step {
        Step {
            app: AppView { status_message: Some("Refreshing logs..."@), ..self },
            action: ActionView::FetchLogs {
                filters: FilterCriteria::unrestricted(),
                purpose: Fetch::Refresh,
            },
        }
    }

    /// The step that asks for the records that meet `filters`.
    pub open spec fn apply(self, filters: FilterCriteria) -> Step {
        Step {
            app: AppView { status_message: Some("Applying filters..."@), ..self },
            action: ActionView::FetchLogs { filters, purpose: Fetch::Filter },
        }
    }

    /// The address of the live feed.
    pub open spec fn stream_url(self) -> Seq<char> {
        self.base + "/api/logs/stream"@
    }

    /// The step that switches the live feed. Where it is on, it goes off and
    /// the screen's end of it is dropped, which is all that ends the feed.
    /// Where it is off, the feed is to be opened; it is on once that is done.
    pub open spec fn toggle_tail(self) -> Step {
        if self.tail_mode {
            Step {
                app: AppView {
                    tail_mode: false,
                    log_stream: None,
                    status_message: Some("Tail mode disabled"@),
                    ..self
                },
                action: ActionView::Nothing,
            }
        } else {
            Step { app: self, action: ActionView::OpenStream { url: self.stream_url() } }
        }
    }

    /// The step that asks for the export in the format under the cursor of the
    /// export menu, with the criteria that select everything.
    pub open spec fn export(self) -> Step {
        let format = format_at(self.export_format_selection);
        Step {
            app: AppView {
                status_message: Some("Exporting logs as "@ + format.name() + "..."@),
                ..self
            },
            action: ActionView::Export { format, filters: FilterCriteria::unrestricted() },
        }
    }

    /// The step on a key while the main screen is shown.
    pub open spec fn on_main_key(self, key: KeyEvent) -> Step {
        let len = self.logs.logs.len() as usize;
        let selected = self.logs.selected;
        if key.is_char('q') {
            Step { app: AppView { should_quit: true, ..self }, action: ActionView::Nothing }
        } else if key.is_char('?') {
            self.go(AppState::Help)
        } else if key.is_char('f') {
            Step {
                app: AppView {
                    state: AppState::FilterPanel,
                    filter: Some(FilterView::initial(self.apps)),
                    ..self
                },
                action: ActionView::Nothing,
            }
        } else if key.is_char('r') {
            self.refresh()
        } else if key.is_char('t') {
            self.toggle_tail()
        } else if key.is_char('e') {
            Step {
                app: AppView { state: AppState::ExportMenu, export_format_selection: 0, ..self },
                action: ActionView::Nothing,
            }
        } else if key.is_up() {
            self.select(previous_index(selected, len))
        } else if key.is_down() {
            self.select(next_index(selected, len))
        } else if key.is_char('g') {
            self.select(first_index(selected, len))
        } else if key.is_char('G') {
            self.select(last_index(selected, len))
        } else if key.is_char('u') && key.control {
            self.select(page_up_index(selected, len))
        } else if key.is_char('d') && key.control {
            self.select(page_down_index(selected, len))
        } else if key.code == KeyCode::Enter && self.logs.selected_log() is Some {
            self.go(AppState::LogDetail)
        } else {
            self.stay()
        }
    }

    /// The step on a key while the filter panel is shown, at the instant `now`.
    /// Escape closes the panel and drops its selections. Any other key goes to
    /// the panel; Enter, after the panel has taken it, or a key with which the
    /// panel asks for it, compiles the selections, closes the panel and asks
    /// for the records that meet the criteria.
    pub open spec fn on_filter_key(self, key: KeyEvent, now: Timestamp) -> Step {
        if key.code == KeyCode::Esc {
            Step {
                app: AppView { state: AppState::Main, filter: None, ..self },
                action: ActionView::Nothing,
            }
        } else {
            match self.filter {
                Some(panel) => if panel.applies(key) || key.code == KeyCode::Enter {
                    (AppView { state: AppState::Main, filter: None, ..self }).apply(
                        panel.after_key(key).compiled(now),
                    )
                } else {
                    Step {
                        app: AppView { filter: Some(panel.after_key(key)), ..self },
                        action: ActionView::Nothing,
                    }
                },
                None => self.stay(),
            }
        }
    }

    /// Whether the key `key` applies the filter panel, which is when the
    /// machine looks at the clock.
    pub open spec fn applies_panel(self, key: KeyEvent) -> bool {
        &&& self.state == AppState::FilterPanel
        &&& key.code != KeyCode::Esc
        &&& self.filter matches Some(panel)
        &&& (panel.applies(key) || key.code == KeyCode::Enter)
    }

    /// Whether, where the key `key` applies the filter panel, the start of the
    /// time window that is then selected, counted back from `now`, is a number
    /// of seconds that the machine can hold.
    pub open spec fn window_fits(self, key: KeyEvent, now: Timestamp) -> bool {
        self.applies_panel(key) ==> self.filter->0.after_key(key).window_fits(now)
    }

    /// The step on a key while the detail of a record is shown.
    pub open spec fn on_detail_key(self, key: KeyEvent) -> Step {
        if key.code == KeyCode::Esc || key.is_char('q') {
            self.go(AppState::Main)
        } else {
            self.stay()
        }
    }

    /// The step on a key while the help is shown.
    pub open spec fn on_help_key(self, key: KeyEvent) -> Step {
        if key.code == KeyCode::Esc || key.is_char('?') {
            self.go(AppState::Main)
        } else {
            self.stay()
        }
    }

    /// The step on a key while the export menu is shown.
    pub open spec fn on_export_key(self, key: KeyEvent) -> Step {
        if key.code == KeyCode::Esc || key.is_char('q') {
            self.go(AppState::Main)
        } else if key.is_up() || key.is_down() {
            Step {
                app: AppView {
                    export_format_selection: other_row(self.export_format_selection),
                    ..self
                },
                action: ActionView::Nothing,
            }
        } else if key.code == KeyCode::Enter {
            let asked = self.export();
            Step { app: AppView { state: AppState::Main, ..asked.app }, action: asked.action }
        } else {
            self.stay()
        }
    }

    /// The step on the key `key` at the instant `now`.
    pub open spec fn on_key(self, key: KeyEvent, now: Timestamp) -> Step {
        match self.state {
            AppState::Login => self.on_login_key(key),
            AppState::Main => self.on_main_key(key),
            AppState::FilterPanel => self.on_filter_key(key, now),
            AppState::LogDetail => self.on_detail_key(key),
            AppState::Help => self.on_help_key(key),
            AppState::ExportMenu => self.on_export_key(key),
        }
    }

    /// The step that shows the login error `message` on the form.
    pub open spec fn login_failed(self, message: Seq<char>) -> Step {
        Step {
            app: AppView { login: self.login.with_error(message), ..self },
            action: ActionView::Nothing,
        }
    }

    /// The step on the reply to a login: where it was accepted the session
    /// stands and the applications are listed next; else the form shows why.
    pub open spec fn on_login_reply(self, reply: Reply<LoginResponse>) -> Step {
        match reply_outcome(Endpoint::Login, reply) {
            Ok(_) => Step { app: AppView { session: true, ..self }, action: ActionView::LoadApps },
            Err(error) => self.login_failed("Login failed: "@ + error.text()),
        }
    }

    /// The step on the reply to the listing of the applications: with them the
    /// main screen is shown; else the login form shows why.
    pub open spec fn on_apps_reply(self, reply: Reply<Vec<Application>>) -> Step {
        match reply_outcome(Endpoint::Apps, reply) {
            Ok(apps) => Step {
                app: AppView {
                    apps: apps@,
                    state: AppState::Main,
                    status_message: Some("Logged in successfully"@),
                    ..self
                },
                action: ActionView::Nothing,
            },
            Err(error) => self.login_failed("Failed to load apps: "@ + error.text()),
        }
    }

    /// The step on the reply to a fetch of records: they replace those of the
    /// log view, or the failure is shown.
    pub open spec fn on_logs_reply(self, purpose: Fetch, reply: Reply<Vec<Log>>) -> Step {
        match reply_outcome(Endpoint::Logs, reply) {
            Ok(logs) => (AppView { logs: self.logs.with_logs(logs@), ..self }).say(
                match purpose {
                    Fetch::Refresh => "Logs refreshed"@,
                    Fetch::Filter => "Found "@ + decimal(logs@.len() as int) + " logs"@,
                },
            ),
            Err(error) => self.say(
                match purpose {
                    Fetch::Refresh => "Failed to refresh logs: "@,
                    Fetch::Filter => "Failed to apply filters: "@,
                } + error.text(),
            ),
        }
    }

    /// The step on the reply to an export as `format`, where `stamp` is the
    /// text of the instant at which the reply is read, if that instant has
    /// one: the bytes are written to a file named after the instant, or the
    /// failure is shown. There is no step where the bytes came and the instant
    /// has no text.
    pub open spec fn on_export_reply(
        self,
        format: ExportFormat,
        reply: Reply<Vec<u8>>,
        stamp: Option<Seq<char>>,
    ) -> Option<Step> {
        match reply_outcome(Endpoint::Export, reply) {
            Ok(data) => match stamp {
                Some(text) => Some(
                    Step {
                        app: self,
                        action: ActionView::WriteFile {
                            name: export_file_name(text, format),
                            data: data@,
                        },
                    },
                ),
                None => None,
            },
            Err(error) => Some(self.say("Failed to export logs: "@ + error.text())),
        }
    }

    /// The step on the outcome of writing the exported file `path`, where
    /// `error` says why it was not written.
    pub open spec fn on_file_written(self, path: Seq<char>, error: Option<Seq<char>>) -> Step {
        match error {
            None => self.say("Logs exported to "@ + path),
            Some(why) => self.say("Failed to write file: "@ + why),
        }
    }

    /// The step on the outcome of opening the live feed: the screen's end of
    /// the feed that was opened is held from now on and the feed is on, or it
    /// is shown why no feed was opened and what was held stays.
    pub open spec fn on_stream_opened(self, opened: Result<LogStream, String>) -> Step {
        match opened {
            Ok(stream) => Step {
                app: AppView {
                    tail_mode: true,
                    log_stream: Some(stream),
                    status_message: Some("Tail mode enabled (LIVE)"@),
                    ..self
                },
                action: ActionView::Nothing,
            },
            Err(why) => self.say("Failed to enable tail mode: "@ + why@),
        }
    }

    /// Whether the screen's end of the live feed is held.
    pub open spec fn streaming(self) -> bool {
        self.log_stream is Some
    }

    /// The application after a look into the queue of the live feed that found
    /// `received`: while the screen's end of the feed is held, a record found
    /// becomes the first of the log view, which keeps no more than the
    /// configured number. This goes on whatever screen is shown.
    pub open spec fn on_stream_poll(self, received: Option<Log>) -> AppView {
        match received {
            Some(log) => if self.streaming() {
                AppView {
                    logs: self.logs.with_arrival(log, self.config.ui.max_logs_in_memory),
                    ..self
                }
            } else {
                self
            },
            None => self,
        }
    }

    /// The status line: the service, the number of records held, and a mark
    /// while the live feed is on.
    pub open spec fn status_line(self) -> Seq<char> {
        "Server: "@ + self.config.server_url@ + " | "@ + "Logs: "@ + decimal(
            self.logs.logs.len() as int,
        ) + (if self.tail_mode {
            " [LIVE]"@
        } else {
            Seq::empty()
        })
    }
}

/// The pattern of the instant in the name of an exported file holds nothing
/// but numeric fields and literal characters, so every instant can be written
/// in it.
pub proof fn lemma_file_stamp_is_plain()
    ensures
        plain_pattern(file_stamp_pattern()),
{
    reveal_strlit("%Y%m%d_%H%M%S");
    reveal_with_fuel(plain_pattern, 8);
    let pattern = file_stamp_pattern();
    assert(pattern.len() == 13);
    let after_year = pattern.subrange(2, 13);
    let after_month = after_year.subrange(2, 11);
    let after_day = after_month.subrange(2, 9);
    let after_mark = after_day.drop_first();
    let after_hour = after_mark.subrange(2, 6);
    let after_minute = after_hour.subrange(2, 4);
    let after_second = after_minute.subrange(2, 2);
    assert(after_second.len() == 0);
    assert(plain_pattern(after_second));
    assert(after_minute[0] == '%' && after_minute[1] == 'S');
    assert(plain_pattern(after_minute));
    assert(after_hour[0] == '%' && after_hour[1] == 'M');
    assert(plain_pattern(after_hour));
    assert(after_mark[0] == '%' && after_mark[1] == 'H');
    assert(plain_pattern(after_mark));
    assert(after_day[0] == '_');
    assert(plain_pattern(after_day));
    assert(after_month[0] == '%' && after_month[1] == 'd');
    assert(plain_pattern(after_month));
    assert(after_year[0] == '%' && after_year[1] == 'm');
    assert(plain_pattern(after_year));
    assert(pattern[0] == '%' && pattern[1] == 'Y');
}

/// The name of the file that an export as `format` is written to, where `stamp`
/// is the text of the instant of the export.
pub fn export_file_name_from(stamp: &str, format: ExportFormat) -> (name: String)
    ensures
        name@ == export_file_name(stamp@, format),
{
    let mut name = chain("logs_export_", stamp);
    name.append(".");
    name.append(format.as_str());
    name
}

impl App {
    /// The application as it starts, on the login screen. The user name is
    /// `username`, or else the one that `config` remembers; a password that is
    /// given is filled in too.
    pub fn new(config: Config, username: Option<String>, password: Option<String>) -> (app: Self)
        ensures
            app@ == AppView::initial(config, username.deep_view(), password.deep_view()),
    {
        let api_client = ApiClient::new(config.server_url.clone());
        let logs_view = LogsViewState::new(config.ui.date_format.clone());
        let mut login_state = LoginState::default();
        match username {
            Some(name) => {
                login_state.username = name;
            },
            None => match &config.username {
                Some(name) => {
                    login_state.username = name.clone();
                },
                None => {},
            },
        }
        match password {
            Some(word) => {
                login_state.password = word;
            },
            None => {},
        }
        App {
            state: AppState::Login,
            config,
            api_client,
            login_state,
            logs_view,
            filter_state: None,
            apps: Vec::new(),
            tail_mode: false,
            log_stream: None,
            status_message: None,
            should_quit: false,
            export_format_selection: 0,
        }
    }

    /// The login with what the form holds.
    fn login_action(&self) -> (action: Action)
        ensures
            action@ == self@.login_action(),
    {
        Action::Login {
            username: self.login_state.username.clone(),
            password: self.login_state.password.clone(),
        }
    }

    /// The step before the first key: where the form is filled in already, a
    /// login is sent at once, as if the user had submitted it.
    pub fn try_auto_login(&mut self) -> (action: Action)
        ensures
            final(self)@ == old(self)@.on_start().app,
            action@ == old(self)@.on_start().action,
    {
        if self.state == AppState::Login && !self.login_state.username.as_str().is_empty()
            && !self.login_state.password.as_str().is_empty() && !self.login_state.is_submitting {
            self.login_state.is_submitting = true;
            self.login_action()
        } else {
            Action::Nothing
        }
    }

    /// The step on a key, where `now` is the instant to compile the filter
    /// panel at, or `None` for the instant of the call.
    fn handle_key_with(&mut self, key: KeyEvent, now: Option<Timestamp>) -> (action: Action)
        requires
            now matches Some(instant) ==> old(self)@.window_fits(key, instant),
        ensures
            exists|instant: Timestamp|
                {
                    &&& now matches Some(given) ==> instant == given
                    &&& now is None ==> clock_reading(instant)
                    &&& final(self)@ == (#[trigger] old(self)@.on_key(key, instant)).app
                    &&& action@ == old(self)@.on_key(key, instant).action
                },
    {
        // Only the filter panel looks at the instant; elsewhere any one will do.
        let ghost any = match now {
            Some(given) => given,
            None => Timestamp { secs: 0, nanos: 0 },
        };
        match self.state {
            AppState::Login => {
                let action = self.handle_login_key(key);
                assert(final(self)@ == old(self)@.on_key(key, any).app);
                action
            },
            AppState::Main => {
                let action = self.handle_main_key(key);
                assert(final(self)@ == old(self)@.on_key(key, any).app);
                action
            },
            AppState::FilterPanel => {
                let action = self.handle_filter_key(key, now);
                proof {
                    let instant = choose|instant: Timestamp|
                        {
                            &&& now matches Some(given) ==> instant == given
                            &&& now is None ==> clock_reading(instant)
                            &&& final(self)@ == (#[trigger] old(self)@.on_filter_key(
                                key,
                                instant,
                            )).app
                            &&& action@ == old(self)@.on_filter_key(key, instant).action
                        };
                    assert(old(self)@.on_key(key, instant) == old(self)@.on_filter_key(
                        key,
                        instant,
                    ));
                }
                action
            },
            AppState::LogDetail => {
                self.handle_detail_key(key);
                assert(final(self)@ == old(self)@.on_key(key, any).app);
                Action::Nothing
            },
            AppState::Help => {
                self.handle_help_key(key);
                assert(final(self)@ == old(self)@.on_key(key, any).app);
                Action::Nothing
            },
            AppState::ExportMenu => {
                let action = self.handle_export_key(key);
                assert(final(self)@ == old(self)@.on_key(key, any).app);
                action
            },
        }
    }

    /// The step on a key. A key that applies the filter panel compiles it at
    /// the instant of the call; no other key looks at the clock.
    pub fn handle_key(&mut self, key: KeyEvent) -> (action: Action)
        ensures
            exists|now: Timestamp|
                {
                    &&& clock_reading(now)
                    &&& final(self)@ == (#[trigger] old(self)@.on_key(key, now)).app
                    &&& action@ == old(self)@.on_key(key, now).action
                },
    {
        self.handle_key_with(key, None)
    }

    /// The step on a key at the instant `now`. Where the key applies the filter
    /// panel, the start of the selected time window, counted back from `now`,
    /// must be a number of seconds that the machine can hold.
    pub fn handle_key_at(&mut self, key: KeyEvent, now: Timestamp) -> (action: Action)
        requires
            old(self)@.window_fits(key, now),
        ensures
            final(self)@ == old(self)@.on_key(key, now).app,
            action@ == old(self)@.on_key(key, now).action,
    {
        self.handle_key_with(key, Some(now))
    }

    /// The step on a key while the login screen is shown.
    pub fn handle_login_key(&mut self, key: KeyEvent) -> (action: Action)
        ensures
            final(self)@ == old(self)@.on_login_key(key).app,
            action@ == old(self)@.on_login_key(key).action,
    {
        if key.code == KeyCode::Char('c') && key.control {
            self.should_quit = true;
            return Action::Nothing;
        }
        let should_submit = self.login_state.handle_key(key);
        if should_submit {
            self.login_state.is_submitting = true;
            self.login_state.clear_error();
            self.login_action()
        } else {
            Action::Nothing
        }
    }

    /// The step on a key while the main screen is shown.
    pub fn handle_main_key(&mut self, key: KeyEvent) -> (action: Action)
        ensures
            final(self)@ == old(self)@.on_main_key(key).app,
            action@ == old(self)@.on_main_key(key).action,
    {
        match key.code {
            KeyCode::Char('q') => {
                self.should_quit = true;
                Action::Nothing
            },
            KeyCode::Char('?') => {
                self.state = AppState::Help;
                Action::Nothing
            },
            KeyCode::Char('f') => {
                self.state = AppState::FilterPanel;
                let apps = self.apps.clone();
                assert(apps@ =~= self.apps@);
                self.filter_state = Some(FilterState::new(apps));
                Action::Nothing
            },
            KeyCode::Char('r') => self.refresh_logs(),
            KeyCode::Char('t') => self.toggle_tail_mode(),
            KeyCode::Char('e') => {
                self.state = AppState::ExportMenu;
                self.export_format_selection = 0;
                Action::Nothing
            },
            KeyCode::Up | KeyCode::Char('k') => {
                self.logs_view.previous();
                Action::Nothing
            },
            KeyCode::Down | KeyCode::Char('j') => {
                self.logs_view.next();
                Action::Nothing
            },
            KeyCode::Char('g') => {
                self.logs_view.select_first();
                Action::Nothing
            },
            KeyCode::Char('G') => {
                self.logs_view.select_last();
                Action::Nothing
            },
            KeyCode::Char('u') if key.control => {
                self.logs_view.page_up();
                Action::Nothing
            },
            KeyCode::Char('d') if key.control => {
                self.logs_view.page_down();
                Action::Nothing
            },
            KeyCode::Enter => {
                if self.logs_view.selected_log().is_some() {
                    self.state = AppState::LogDetail;
                }
                Action::Nothing
            },
            _ => Action::Nothing,
        }
    }

    /// The step on a key while the filter panel is shown, where `now` is the
    /// instant to compile the panel at, or `None` for the instant of the call.
    fn handle_filter_key(&mut self, key: KeyEvent, now: Option<Timestamp>) -> (action: Action)
        requires
            old(self).state == AppState::FilterPanel,
            now matches Some(instant) ==> old(self)@.window_fits(key, instant),
        ensures
            exists|instant: Timestamp|
                {
                    &&& now matches Some(given) ==> instant == given
                    &&& now is None ==> clock_reading(instant)
                    &&& final(self)@ == (#[trigger] old(self)@.on_filter_key(key, instant)).app
                    &&& action@ == old(self)@.on_filter_key(key, instant).action
                },
    {
        let ghost given = match now {
            Some(instant) => instant,
            None => Timestamp { secs: 0, nanos: 0 },
        };
        if key.code == KeyCode::Esc {
            self.state = AppState::Main;
            self.filter_state = None;
            assert(final(self)@ == old(self)@.on_filter_key(key, given).app);
            return Action::Nothing;
        }
        match self.filter_state.take() {
            Some(mut panel) => {
                let should_apply = panel.handle_key(key);
                if should_apply || key.code == KeyCode::Enter {
                    let filters = match now {
                        Some(instant) => panel.to_log_filters_at(instant),
                        None => panel.to_log_filters(),
                    };
                    let ghost instant = choose|instant: Timestamp|
                        {
                            &&& now matches Some(given) ==> instant == given
                            &&& now is None ==> clock_reading(instant)
                            &&& filters@ == #[trigger] panel@.compiled(instant)
                        };
                    let action = self.apply_filters(filters);
                    self.state = AppState::Main;
                    assert(final(self)@ == old(self)@.on_filter_key(key, instant).app);
                    action
                } else {
                    self.filter_state = Some(panel);
                    assert(final(self)@ == old(self)@.on_filter_key(key, given).app);
                    Action::Nothing
                }
            },
            None => {
                assert(final(self)@ == old(self)@.on_filter_key(key, given).app);
                Action::Nothing
            },
        }
    }

    /// The step on a key while the detail of a record is shown.
    pub fn handle_detail_key(&mut self, key: KeyEvent)
        ensures
            final(self)@ == old(self)@.on_detail_key(key).app,
    {
        if key.code == KeyCode::Esc || key.code == KeyCode::Char('q') {
            self.state = AppState::Main;
        }
    }

    /// The step on a key while the help is shown.
    pub fn handle_help_key(&mut self, key: KeyEvent)
        ensures
            final(self)@ == old(self)@.on_help_key(key).app,
    {
        if key.code == KeyCode::Esc || key.code == KeyCode::Char('?') {
            self.state = AppState::Main;
        }
    }

    /// The step on a key while the export menu is shown.
    pub fn handle_export_key(&mut self, key: KeyEvent) -> (action: Action)
        ensures
            final(self)@ == old(self)@.on_export_key(key).app,
            action@ == old(self)@.on_export_key(key).action,
    {
        match key.code {
            KeyCode::Esc | KeyCode::Char('q') => {
                self.state = AppState::Main;
                Action::Nothing
            },
            KeyCode::Up | KeyCode::Char('k') | KeyCode::Down | KeyCode::Char('j') => {
                self.export_format_selection = if self.export_format_selection % 2 == 0 {
                    1
                } else {
                    0
                };
                Action::Nothing
            },
            KeyCode::Enter => {
                let action = self.export_logs();
                self.state = AppState::Main;
                action
            },
            _ => Action::Nothing,
        }
    }

    fn set_status(&mut self, message: String)
        ensures
            final(self)@ == old(self)@.say(message@).app,
    {
        self.status_message = Some(message);
    }

    /// Asks for the records again, with the criteria that select everything.
    pub fn refresh_logs(&mut self) -> (action: Action)
        ensures
            final(self)@ == old(self)@.refresh().app,
            action@ == old(self)@.refresh().action,
    {
        self.set_status(String::from_str("Refreshing logs..."));
        Action::FetchLogs { filters: LogFilters::default(), purpose: Fetch::Refresh }
    }

    /// Asks for the records that meet `filters`.
    pub fn apply_filters(&mut self, filters: LogFilters) -> (action: Action)
        ensures
            final(self)@ == old(self)@.apply(filters@).app,
            action@ == old(self)@.apply(filters@).action,
    {
        self.set_status(String::from_str("Applying filters..."));
        Action::FetchLogs { filters, purpose: Fetch::Filter }
    }

    /// Switches the live feed. Switching it off drops the receiving end of its
    /// queue at once; switching it on opens the feed first.
    pub fn toggle_tail_mode(&mut self) -> (action: Action)
        ensures
            final(self)@ == old(self)@.toggle_tail().app,
            action@ == old(self)@.toggle_tail().action,
    {
        if self.tail_mode {
            self.tail_mode = false;
            self.log_stream = None;
            self.set_status(String::from_str("Tail mode disabled"));
            Action::Nothing
        } else {
            Action::OpenStream { url: self.api_client.get_stream_url() }
        }
    }

    /// Asks for the export in the format under the cursor of the export menu,
    /// with the criteria that select everything.
    pub fn export_logs(&mut self) -> (action: Action)
        ensures
            final(self)@ == old(self)@.export().app,
            action@ == old(self)@.export().action,
    {
        let format = if self.export_format_selection == 0 {
            ExportFormat::Json
        } else {
            ExportFormat::Csv
        };
        let mut message = chain("Exporting logs as ", format.as_str());
        message.append("...");
        self.set_status(message);
        Action::Export { format, filters: LogFilters::default() }
    }

    fn fail_login(&mut self, prefix: &str, error: ApiError)
        ensures
            final(self)@ == old(self)@.login_failed(prefix@ + error.text()).app,
    {
        let message = chain(prefix, error.message().as_str());
        self.login_state.set_error(message);
    }

    fn report(&mut self, prefix: &str, detail: &str)
        ensures
            final(self)@ == old(self)@.say(prefix@ + detail@).app,
    {
        self.set_status(chain(prefix, detail));
    }

    /// The step on the reply to a login.
    pub fn login_replied(&mut self, reply: Reply<LoginResponse>) -> (action: Action)
        ensures
            final(self)@ == old(self)@.on_login_reply(reply).app,
            action@ == old(self)@.on_login_reply(reply).action,
    {
        match self.api_client.login(reply) {
            Ok(_) => Action::LoadApps,
            Err(error) => {
                self.fail_login("Login failed: ", error);
                Action::Nothing
            },
        }
    }

    /// The step on the reply to the listing of the applications.
    pub fn apps_replied(&mut self, reply: Reply<Vec<Application>>)
        ensures
            final(self)@ == old(self)@.on_apps_reply(reply).app,
    {
        match self.api_client.get_apps(reply) {
            Ok(apps) => {
                self.apps = apps;
                self.state = AppState::Main;
                self.set_status(String::from_str("Logged in successfully"));
            },
            Err(error) => {
                self.fail_login("Failed to load apps: ", error);
            },
        }
    }

    /// The step on the reply to a fetch of records that was made for `purpose`.
    pub fn logs_replied(&mut self, purpose: Fetch, reply: Reply<Vec<Log>>)
        ensures
            final(self)@ == old(self)@.on_logs_reply(purpose, reply).app,
    {
        match self.api_client.get_logs(reply) {
            Ok(logs) => {
                self.logs_view.set_logs(logs);
                match purpose {
                    Fetch::Refresh => {
                        self.set_status(String::from_str("Logs refreshed"));
                    },
                    Fetch::Filter => {
                        let count = u64_to_string(self.logs_view.logs.len() as u64);
                        let mut message = chain("Found ", count.as_str());
                        message.append(" logs");
                        self.set_status(message);
                    },
                }
            },
            Err(error) => {
                let detail = error.message();
                match purpose {
                    Fetch::Refresh => self.report("Failed to refresh logs: ", detail.as_str()),
                    Fetch::Filter => self.report("Failed to apply filters: ", detail.as_str()),
                }
            },
        }
    }

    /// The step on the reply to an export as `format`, where `stamp` is the
    /// text of the instant at which the reply is read, if that instant has
    /// one. Returns `None`, and changes nothing, where the bytes came and
    /// there is no such text.
    pub fn export_replied_with(
        &mut self,
        format: ExportFormat,
        reply: Reply<Vec<u8>>,
        stamp: Option<String>,
    ) -> (action: Option<Action>)
        ensures
            match old(self)@.on_export_reply(format, reply, stamp.deep_view()) {
                Some(step) => action matches Some(asked) && asked@ == step.action && final(self)@
                    == step.app,
                None => action is None && final(self)@ == old(self)@,
            },
    {
        match self.api_client.export_logs(reply) {
            Ok(data) => match stamp {
                Some(text) => Some(
                    Action::WriteFile { name: export_file_name_from(text.as_str(), format), data },
                ),
                None => None,
            },
            Err(error) => {
                let detail = error.message();
                self.report("Failed to export logs: ", detail.as_str());
                Some(Action::Nothing)
            },
        }
    }

    /// The step on the reply to an export as `format`, read at the instant
    /// `now`. Returns `None`, and changes nothing, where the bytes came and
    /// `now` is no instant of the calendar, so that the file has no name.
    pub fn export_replied_at(
        &mut self,
        format: ExportFormat,
        reply: Reply<Vec<u8>>,
        now: Timestamp,
    ) -> (action: Option<Action>)
        ensures
            action is None <==> reply_outcome(Endpoint::Export, reply) is Ok && !now.is_instant(),
            match old(self)@.on_export_reply(
                format,
                reply,
                strftime_text(now.secs, now.nanos, file_stamp_pattern()),
            ) {
                Some(step) => action matches Some(asked) && asked@ == step.action && final(self)@
                    == step.app,
                None => action is None && final(self)@ == old(self)@,
            },
    {
        proof {
            lemma_file_stamp_is_plain();
        }
        let stamp = format_timestamp(&now, "%Y%m%d_%H%M%S");
        self.export_replied_with(format, reply, stamp)
    }

    /// The step on the reply to an export as `format`. The file is named after
    /// the instant of the call, which the clock gives.
    pub fn export_replied(&mut self, format: ExportFormat, reply: Reply<Vec<u8>>) -> (action:
        Action)
        ensures
            exists|now: Timestamp|
                {
                    &&& clock_reading(now)
                    &&& old(self)@.on_export_reply(
                        format,
                        reply,
                        #[trigger] strftime_text(now.secs, now.nanos, file_stamp_pattern()),
                    ) matches Some(step)
                    &&& action@ == step.action
                    &&& final(self)@ == step.app
                },
    {
        let now = utc_now();
        match self.export_replied_at(format, reply, now) {
            Some(action) => action,
            None => unreached(),
        }
    }

    /// The step on the outcome of writing the exported file `path`, where
    /// `error` says why it was not written.
    pub fn file_written(&mut self, path: &str, error: Option<String>)
        ensures
            final(self)@ == old(self)@.on_file_written(path@, error.deep_view()).app,
    {
        match error {
            None => self.report("Logs exported to ", path),
            Some(why) => self.report("Failed to write file: ", why.as_str()),
        }
    }

    /// The step on the outcome of opening the live feed: the screen's end of
    /// it, or why it was not opened.
    pub fn stream_opened(&mut self, opened: Result<LogStream, String>)
        ensures
            final(self)@ == old(self)@.on_stream_opened(opened).app,
    {
        match opened {
            Ok(stream) => {
                self.log_stream = Some(stream);
                self.tail_mode = true;
                self.set_status(String::from_str("Tail mode enabled (LIVE)"));
            },
            Err(why) => self.report("Failed to enable tail mode: ", why.as_str()),
        }
    }

    /// Takes what one look into the queue of the live feed found.
    pub fn take_arrival(&mut self, received: Option<Log>)
        ensures
            final(self)@ == old(self)@.on_stream_poll(received),
    {
        if self.log_stream.is_some() {
            match received {
                Some(log) => {
                    self.logs_view.insert_arrival(log, self.config.ui.max_logs_in_memory);
                },
                None => {},
            }
        }
    }

    /// Looks once into the queue of the live feed, without waiting, and takes
    /// the record that is found there, if any. The feed that is held stays
    /// held, with its capacity; what is found depends on what the task that
    /// reads the feed has put into the queue by now.
    pub fn poll_stream(&mut self)
        ensures
            looked_into(old(self).log_stream, final(self).log_stream),
            exists|received: Option<Log>|
                final(self)@ == (AppView {
                    log_stream: final(self).log_stream,
                    ..#[trigger] old(self)@.on_stream_poll(received)
                }),
    {
        let received = match &mut self.log_stream {
            Some(stream) => stream.next(),
            None => None,
        };
        self.take_arrival(received);
        assert(final(self)@ == (AppView {
            log_stream: final(self).log_stream,
            ..old(self)@.on_stream_poll(received)
        }));
    }

    /// The status line: the service, the number of records held, and a mark
    /// while the live feed is on.
    pub fn get_status_line(&self) -> (line: String)
        ensures
            line@ == self@.status_line(),
    {
        let server_info = chain("Server: ", self.config.server_url.as_str());
        let tail_indicator = if self.tail_mode {
            " [LIVE]"
        } else {
            ""
        };
        let log_count = chain("Logs: ", u64_to_string(self.logs_view.logs.len() as u64).as_str());
        let mut line = server_info;
        line.append(" | ");
        line.append(log_count.as_str());
        line.append(tail_indicator);
        proof {
            reveal_strlit("");
            assert(""@ =~= Seq::<char>::empty());
            assert(line@ =~= self@.status_line());
        }
        line
    }
}

impl AppView {
    /// Whether the filter panel is held exactly while its screen is shown and
    /// is in order, and the screen's end of the live feed is held exactly while
    /// the feed is on.
    pub open spec fn wf(self) -> bool {
        &&& self.filter is Some <==> self.state == AppState::FilterPanel
        &&& self.filter matches Some(panel) ==> panel.wf()
        &&& self.streaming() <==> self.tail_mode
    }
}

/// The application starts in order, on the login screen, and the step before
/// the first key keeps it so.
pub proof fn lemma_initial_wf(
    config: Config,
    username: Option<Seq<char>>,
    password: Option<Seq<char>>,
)
    ensures
        AppView::initial(config, username, password).wf(),
        AppView::initial(config, username, password).state == AppState::Login,
        AppView::initial(config, username, password).on_start().app.wf(),
{
}

/// A key leaves an application that is in order in that state, whatever the
/// screen and whatever the key.
pub proof fn lemma_key_keeps_wf(app: AppView, key: KeyEvent, now: Timestamp)
    requires
        app.wf(),
    ensures
        app.on_key(key, now).app.wf(),
{
    match app.state {
        AppState::FilterPanel => {
            lemma_after_key_wf(app.filter->0, key);
        },
        AppState::Main => {
            assert(FilterView::initial(app.apps).wf());
        },
        _ => {},
    }
}

/// The outcomes of the remote operations leave an application that is in order
/// in that state. The reply to the listing of the applications is due on the
/// login screen, where it is asked for.
pub proof fn lemma_outcomes_keep_wf(
    app: AppView,
    login: Reply<LoginResponse>,
    listed: Reply<Vec<Application>>,
    purpose: Fetch,
    fetched: Reply<Vec<Log>>,
    format: ExportFormat,
    exported: Reply<Vec<u8>>,
    stamp: Option<Seq<char>>,
    path: Seq<char>,
    error: Option<Seq<char>>,
    opened: Result<LogStream, String>,
    received: Option<Log>,
)
    requires
        app.wf(),
    ensures
        app.on_login_reply(login).app.wf(),
        app.state == AppState::Login ==> app.on_apps_reply(listed).app.wf(),
        app.on_logs_reply(purpose, fetched).app.wf(),
        app.on_export_reply(format, exported, stamp) matches Some(step) ==> step.app.wf(),
        app.on_file_written(path, error).app.wf(),
        app.on_stream_opened(opened).app.wf(),
        app.on_stream_poll(received).wf(),
{
}

/// A login that the service accepts leads to the main screen: the form that is
/// filled in sends the login on Enter, the accepted login asks for the
/// applications, and with them the main screen is shown, the applications are
/// held and the form shows no error.
pub proof fn lemma_accepted_login_reaches_main(
    app: AppView,
    welcome: LoginResponse,
    listed: Vec<Application>,
)
    requires
        app.state == AppState::Login,
        app.login.is_complete(),
    ensures
        ({
            let enter = KeyEvent { code: KeyCode::Enter, control: false };
            let sent = app.on_login_key(enter);
            let accepted = sent.app.on_login_reply(
                Reply::Answered { status: 200, body: Some(welcome) },
            );
            let shown = accepted.app.on_apps_reply(
                Reply::Answered { status: 200, body: Some(listed) },
            );
            &&& sent.action == ActionView::Login {
                username: app.login.username,
                password: app.login.password,
            }
            &&& sent.app.login.is_submitting
            &&& accepted.action == ActionView::LoadApps
            &&& accepted.app.session
            &&& shown.app.state == AppState::Main
            &&& shown.app.apps == listed@
            &&& shown.app.login.error_message is None
        }),
{
}

/// A login that the service rejects stays on the login screen: the form shows
/// the error and no attempt is under way any more.
pub proof fn lemma_rejected_login_stays(app: AppView, body: Option<LoginResponse>)
    requires
        app.state == AppState::Login,
    ensures
        ({
            let rejected = app.on_login_reply(Reply::Answered { status: 401, body });
            &&& rejected.action == ActionView::Nothing
            &&& rejected.app.state == AppState::Login
            &&& rejected.app.login.error_message == Some(
                "Login failed: "@ + "Invalid credentials"@,
            )
            &&& !rejected.app.login.is_submitting
            &&& rejected.app.session == app.session
        }),
{
}

/// The application after the looks into the queue of the live feed that found
/// the records of `arrived`, the first of `arrived` first.
pub open spec fn after_arrivals(app: AppView, arrived: Seq<Log>) -> AppView
    decreases arrived.len(),
{
    if arrived.len() == 0 {
        app
    } else {
        after_arrivals(app, arrived.drop_last()).on_stream_poll(Some(arrived.last()))
    }
}

/// While the live feed is on, the records that arrive are shown newest first,
/// before the records that were there, and no more than the configured number
/// are held. Nothing else of the application changes.
pub proof fn lemma_arrivals_newest_first(app: AppView, arrived: Seq<Log>)
    requires
        app.streaming(),
        arrived.len() > 0,
    ensures
        after_arrivals(app, arrived) == (AppView {
            logs: LogsView {
                logs: tail_inserted_all(app.logs.logs, arrived, app.config.ui.max_logs_in_memory),
                ..app.logs
            },
            ..app
        }),
        after_arrivals(app, arrived).logs.logs.len() <= app.config.ui.max_logs_in_memory,
        arrived.len() + app.logs.logs.len() <= app.config.ui.max_logs_in_memory ==> after_arrivals(
            app,
            arrived,
        ).logs.logs == arrived.reverse() + app.logs.logs,
    decreases arrived.len(),
{
    let cap = app.config.ui.max_logs_in_memory;
    lemma_tail_keeps_most_recent(app.logs.logs, arrived, cap);
    if arrived.len() > 1 {
        lemma_arrivals_newest_first(app, arrived.drop_last());
    } else {
        assert(after_arrivals(app, arrived.drop_last()) == app);
        assert(tail_inserted_all(app.logs.logs, arrived.drop_last(), cap) == app.logs.logs);
    }
    if arrived.len() + app.logs.logs.len() <= cap {
        let all = arrived.reverse() + app.logs.logs;
        assert(all.take(all.len() as int) =~= all);
    }
}

} // verus!
