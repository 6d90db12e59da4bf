use jlo_tui::api::client::Reply;
use jlo_tui::api::models::{
    Application, ExportFormat, Log, LogFilters, LoginResponse,
};
use jlo_tui::api::sse::{after_send, ingest, Frame, Ingest, LogStream, CHANNEL_CAPACITY};
use jlo_tui::app::{Action, App, AppState, Fetch};
use jlo_tui::config::Config;
use jlo_tui::input::{KeyCode, KeyEvent};
use jlo_tui::time::Timestamp;
use jlo_tui::ui::filters::FilterField;
use jlo_tui::ui::login::LoginField;
use tokio::sync::mpsc::Sender;

fn press(code: KeyCode) -> KeyEvent {
    KeyEvent::plain(code)
}

fn key(c: char) -> KeyEvent {
    KeyEvent::plain(KeyCode::Char(c))
}

fn ctrl(c: char) -> KeyEvent {
    KeyEvent::with_control(KeyCode::Char(c))
}

fn type_text(app: &mut App, text: &str) {
    for c in text.chars() {
        assert_eq!(app.handle_key(key(c)), Action::Nothing);
    }
}

fn welcome() -> LoginResponse {
    LoginResponse {
        message: String::from("Login successful"),
        username: String::from("alice"),
        role: String::from("admin"),
        full_name: Some(String::from("Alice A.")),
    }
}

fn billing() -> Application {
    Application {
        id: 11,
        name: String::from("billing"),
        created_at: Timestamp { secs: 1_600_000_000, nanos: 0 },
    }
}

fn record(id: i64, message: &str) -> Log {
    Log {
        id,
        app_id: 11,
        app_name: String::from("billing"),
        level: String::from("ERROR"),
        message: String::from(message),
        structured_data: None,
        tags: None,
        timestamp: Timestamp { secs: 1_700_000_000 + id, nanos: 0 },
        created_at: Timestamp { secs: 1_700_000_000 + id, nanos: 0 },
    }
}

fn logged_in() -> App {
    let mut app = App::new(Config::default(), None, None);
    app.login_replied(Reply::Answered { status: 200, body: Some(welcome()) });
    app.apps_replied(Reply::Answered { status: 200, body: Some(vec![billing()]) });
    app
}

fn with_records(count: i64) -> App {
    let mut app = logged_in();
    let logs = (0..count).map(|id| record(id, "m")).collect();
    app.logs_replied(Fetch::Refresh, Reply::Answered { status: 200, body: Some(logs) });
    app
}

fn tailing(app: &mut App) -> Sender<Log> {
    let (sender, stream) = LogStream::new();
    app.stream_opened(Ok(stream));
    sender
}

const NOON: Timestamp = Timestamp { secs: 1_700_000_000, nanos: 0 };

#[test]
fn app_starts_on_the_login_screen() {
    let app = App::new(Config::default(), None, None);
    assert_eq!(app.state, AppState::Login);
    assert_eq!(app.login_state.username, "");
    assert_eq!(app.login_state.password, "");
    assert_eq!(app.login_state.active_field, LoginField::Username);
    assert!(!app.login_state.is_submitting);
    assert!(app.apps.is_empty());
    assert!(!app.tail_mode);
    assert!(!app.should_quit);
    assert_eq!(app.status_message, None);
    assert_eq!(app.export_format_selection, 0);
    assert!(app.filter_state.is_none());
    assert_eq!(app.logs_view.selected, None);
    assert!(app.logs_view.logs.is_empty());
    assert!(app.log_stream.is_none());
    assert_eq!(app.logs_view.date_format, "%Y-%m-%d %H:%M:%S");
    assert_eq!(app.api_client.base_url(), "http://localhost:8000");
    assert!(!app.api_client.has_session());
}

#[test]
fn given_user_name_wins_over_the_remembered_one() {
    let mut config = Config::default();
    config.username = Some(String::from("remembered"));
    let app = App::new(config.clone(), None, None);
    assert_eq!(app.login_state.username, "remembered");
    let app = App::new(config, Some(String::from("given")), Some(String::from("pw")));
    assert_eq!(app.login_state.username, "given");
    assert_eq!(app.login_state.password, "pw");
}

#[test]
fn login_with_valid_credentials_reaches_main() {
    let mut app = App::new(Config::default(), None, None);
    type_text(&mut app, "alice");
    assert_eq!(app.handle_key(press(KeyCode::Tab)), Action::Nothing);
    type_text(&mut app, "s3cret");
    let action = app.handle_key(press(KeyCode::Enter));
    assert_eq!(
        action,
        Action::Login { username: String::from("alice"), password: String::from("s3cret") }
    );
    assert!(app.login_state.is_submitting);
    assert_eq!(app.state, AppState::Login);

    let action = app.login_replied(Reply::Answered { status: 200, body: Some(welcome()) });
    assert_eq!(action, Action::LoadApps);
    assert!(app.api_client.has_session());

    app.apps_replied(Reply::Answered { status: 200, body: Some(vec![billing()]) });
    assert_eq!(app.state, AppState::Main);
    assert_eq!(app.apps, vec![billing()]);
    assert_eq!(app.login_state.error_message, None);
    assert_eq!(app.status_message, Some(String::from("Logged in successfully")));
}

#[test]
fn login_with_invalid_credentials_stays_on_login() {
    let mut app = App::new(Config::default(), None, None);
    type_text(&mut app, "alice");
    app.handle_key(press(KeyCode::Tab));
    type_text(&mut app, "wrong");
    assert!(matches!(app.handle_key(press(KeyCode::Enter)), Action::Login { .. }));
    let action = app.login_replied(Reply::Answered { status: 401, body: None });
    assert_eq!(action, Action::Nothing);
    assert_eq!(app.state, AppState::Login);
    assert_eq!(
        app.login_state.error_message,
        Some(String::from("Login failed: Invalid credentials"))
    );
    assert!(!app.login_state.is_submitting);
    assert!(app.apps.is_empty());
    assert!(!app.api_client.has_session());
}

#[test]
fn login_that_cannot_be_sent_is_reported_on_the_form() {
    let mut app = App::new(Config::default(), Some(String::from("a")), Some(String::from("b")));
    app.try_auto_login();
    app.login_replied(Reply::Failed);
    assert_eq!(
        app.login_state.error_message,
        Some(String::from("Login failed: Failed to send login request"))
    );
    assert!(!app.login_state.is_submitting);
    app.login_state.is_submitting = true;
    app.login_replied(Reply::Answered { status: 503, body: None });
    assert_eq!(
        app.login_state.error_message,
        Some(String::from("Login failed: Login failed: 503 Service Unavailable"))
    );
}

#[test]
fn failing_to_list_apps_stays_on_login() {
    let mut app = App::new(Config::default(), None, None);
    app.login_state.is_submitting = true;
    assert_eq!(
        app.login_replied(Reply::Answered { status: 200, body: Some(welcome()) }),
        Action::LoadApps
    );
    app.apps_replied(Reply::Answered { status: 401, body: None });
    assert_eq!(app.state, AppState::Login);
    assert_eq!(
        app.login_state.error_message,
        Some(String::from("Failed to load apps: Session expired. Please login again."))
    );
    assert!(!app.login_state.is_submitting);
}

#[test]
fn enter_with_an_empty_field_does_not_submit() {
    let mut app = App::new(Config::default(), None, None);
    assert_eq!(app.handle_key(press(KeyCode::Enter)), Action::Nothing);
    type_text(&mut app, "alice");
    assert_eq!(app.handle_key(press(KeyCode::Enter)), Action::Nothing);
    assert!(!app.login_state.is_submitting);
}

#[test]
fn submitting_clears_the_error_of_the_last_attempt() {
    let mut app = App::new(Config::default(), Some(String::from("a")), Some(String::from("b")));
    app.login_state.set_error(String::from("Login failed: Invalid credentials"));
    assert!(matches!(app.handle_key(press(KeyCode::Enter)), Action::Login { .. }));
    assert_eq!(app.login_state.error_message, None);
    assert!(app.login_state.is_submitting);
}

#[test]
fn control_c_quits_from_the_login_screen() {
    let mut app = App::new(Config::default(), None, None);
    assert_eq!(app.handle_key(ctrl('c')), Action::Nothing);
    assert!(app.should_quit);
    assert_eq!(app.login_state.username, "");
    let mut app = App::new(Config::default(), None, None);
    app.handle_key(key('c'));
    assert!(!app.should_quit);
    assert_eq!(app.login_state.username, "c");
}

#[test]
fn auto_login_is_tried_once_when_both_fields_are_given() {
    let mut app =
        App::new(Config::default(), Some(String::from("alice")), Some(String::from("pw")));
    assert_eq!(
        app.try_auto_login(),
        Action::Login { username: String::from("alice"), password: String::from("pw") }
    );
    assert!(app.login_state.is_submitting);
    assert_eq!(app.try_auto_login(), Action::Nothing);
}

#[test]
fn auto_login_needs_both_fields_and_the_login_screen() {
    let mut app = App::new(Config::default(), Some(String::from("alice")), None);
    assert_eq!(app.try_auto_login(), Action::Nothing);
    assert!(!app.login_state.is_submitting);
    let mut app = App::new(Config::default(), None, Some(String::from("pw")));
    assert_eq!(app.try_auto_login(), Action::Nothing);
    let mut app = App::new(Config::default(), Some(String::from("a")), Some(String::from("b")));
    app.state = AppState::Main;
    assert_eq!(app.try_auto_login(), Action::Nothing);
}

#[test]
fn main_keys_open_the_other_screens() {
    let mut app = with_records(3);
    assert_eq!(app.handle_key(key('?')), Action::Nothing);
    assert_eq!(app.state, AppState::Help);
    app.handle_key(key('x'));
    assert_eq!(app.state, AppState::Help);
    app.handle_key(key('?'));
    assert_eq!(app.state, AppState::Main);
    app.handle_key(key('?'));
    app.handle_key(press(KeyCode::Esc));
    assert_eq!(app.state, AppState::Main);

    app.handle_key(press(KeyCode::Enter));
    assert_eq!(app.state, AppState::LogDetail);
    app.handle_key(key('q'));
    assert_eq!(app.state, AppState::Main);
    assert!(!app.should_quit);
    app.handle_key(press(KeyCode::Enter));
    app.handle_key(press(KeyCode::Esc));
    assert_eq!(app.state, AppState::Main);

    app.export_format_selection = 1;
    app.handle_key(key('e'));
    assert_eq!(app.state, AppState::ExportMenu);
    assert_eq!(app.export_format_selection, 0);
    app.handle_key(press(KeyCode::Esc));
    assert_eq!(app.state, AppState::Main);

    app.handle_key(key('f'));
    assert_eq!(app.state, AppState::FilterPanel);
    let panel = app.filter_state.as_ref().unwrap();
    assert_eq!(panel.apps, vec![billing()]);
    assert_eq!(panel.active_field, FilterField::App);
}

#[test]
fn enter_without_a_record_under_the_cursor_does_nothing() {
    let mut app = logged_in();
    app.handle_key(press(KeyCode::Enter));
    assert_eq!(app.state, AppState::Main);
    let mut app = with_records(2);
    app.logs_view.selected = Some(5);
    app.handle_key(press(KeyCode::Enter));
    assert_eq!(app.state, AppState::Main);
}

#[test]
fn q_sets_the_quit_flag_and_stays_on_main() {
    let mut app = logged_in();
    assert_eq!(app.handle_key(key('q')), Action::Nothing);
    assert!(app.should_quit);
    assert_eq!(app.state, AppState::Main);
}

#[test]
fn main_keys_move_the_cursor() {
    let mut app = with_records(30);
    app.handle_key(key('j'));
    assert_eq!(app.logs_view.selected, Some(1));
    app.handle_key(press(KeyCode::Down));
    assert_eq!(app.logs_view.selected, Some(2));
    app.handle_key(key('k'));
    assert_eq!(app.logs_view.selected, Some(1));
    app.handle_key(press(KeyCode::Up));
    app.handle_key(press(KeyCode::Up));
    assert_eq!(app.logs_view.selected, Some(29));
    app.handle_key(key('g'));
    assert_eq!(app.logs_view.selected, Some(0));
    app.handle_key(key('G'));
    assert_eq!(app.logs_view.selected, Some(29));
    app.handle_key(ctrl('u'));
    assert_eq!(app.logs_view.selected, Some(19));
    app.handle_key(ctrl('d'));
    assert_eq!(app.logs_view.selected, Some(29));
    app.handle_key(key('u'));
    app.handle_key(key('d'));
    assert_eq!(app.logs_view.selected, Some(29));
}

#[test]
fn refresh_asks_for_the_default_criteria() {
    let mut app = logged_in();
    let action = app.handle_key(key('r'));
    assert_eq!(
        action,
        Action::FetchLogs { filters: LogFilters::default(), purpose: Fetch::Refresh }
    );
    assert_eq!(app.status_message, Some(String::from("Refreshing logs...")));
    assert_eq!(app.state, AppState::Main);
    let logs = vec![record(2, "b"), record(1, "a")];
    app.logs_replied(Fetch::Refresh, Reply::Answered { status: 200, body: Some(logs.clone()) });
    assert_eq!(app.logs_view.logs, logs);
    assert_eq!(app.status_message, Some(String::from("Logs refreshed")));
}

#[test]
fn a_failed_refresh_is_only_reported() {
    let mut app = with_records(2);
    app.logs_replied(Fetch::Refresh, Reply::Answered { status: 401, body: None });
    assert_eq!(
        app.status_message,
        Some(String::from("Failed to refresh logs: Session expired. Please login again."))
    );
    assert_eq!(app.state, AppState::Main);
    assert_eq!(app.logs_view.logs.len(), 2);
    app.logs_replied(Fetch::Refresh, Reply::Failed);
    assert_eq!(
        app.status_message,
        Some(String::from("Failed to refresh logs: Failed to fetch logs"))
    );
}

#[test]
fn escape_discards_the_filter_panel() {
    let mut app = logged_in();
    app.handle_key(key('f'));
    app.handle_key(press(KeyCode::Down));
    assert_eq!(app.handle_key(press(KeyCode::Esc)), Action::Nothing);
    assert_eq!(app.state, AppState::Main);
    assert!(app.filter_state.is_none());
}

#[test]
fn keys_go_to_the_open_filter_panel() {
    let mut app = logged_in();
    app.handle_key(key('f'));
    assert_eq!(app.handle_key(press(KeyCode::Tab)), Action::Nothing);
    assert_eq!(app.handle_key(key('q')), Action::Nothing);
    assert!(!app.should_quit);
    assert_eq!(app.state, AppState::FilterPanel);
    assert_eq!(app.filter_state.as_ref().unwrap().active_field, FilterField::Levels);
}

#[test]
fn applying_the_panel_compiles_and_fetches() {
    let mut app = logged_in();
    app.handle_key(key('f'));
    app.handle_key(press(KeyCode::Down));
    app.handle_key(key(' '));
    app.handle_key(press(KeyCode::Tab));
    app.handle_key(press(KeyCode::Down));
    app.handle_key(press(KeyCode::Down));
    app.handle_key(press(KeyCode::Down));
    app.handle_key(key(' '));
    app.handle_key(press(KeyCode::Tab));
    app.handle_key(press(KeyCode::Tab));
    for c in "oom".chars() {
        app.handle_key(key(c));
    }
    let action = app.handle_key_at(press(KeyCode::Enter), NOON);
    let expected = LogFilters {
        app_id: Some(11),
        levels: vec![String::from("ERROR")],
        search: Some(String::from("oom")),
        start_time: Some(Timestamp { secs: 1_699_913_600, nanos: 0 }),
        end_time: Some(NOON),
        limit: 100,
        offset: 0,
    };
    assert_eq!(action, Action::FetchLogs { filters: expected, purpose: Fetch::Filter });
    assert_eq!(app.state, AppState::Main);
    assert!(app.filter_state.is_none());
    assert_eq!(app.status_message, Some(String::from("Applying filters...")));

    let logs = vec![record(5, "oom killed"), record(4, "oom again")];
    app.logs_replied(Fetch::Filter, Reply::Answered { status: 200, body: Some(logs.clone()) });
    assert_eq!(app.logs_view.logs, logs);
    assert_eq!(app.status_message, Some(String::from("Found 2 logs")));
}

#[test]
fn enter_in_a_list_picks_the_row_and_applies() {
    let mut app = logged_in();
    app.handle_key(key('f'));
    app.handle_key(press(KeyCode::Down));
    let action = app.handle_key_at(press(KeyCode::Enter), NOON);
    match action {
        Action::FetchLogs { filters, purpose } => {
            assert_eq!(purpose, Fetch::Filter);
            assert_eq!(filters.app_id, Some(11));
        },
        other => panic!("unexpected action {:?}", other),
    }
    assert_eq!(app.state, AppState::Main);
}

#[test]
fn applying_at_the_time_of_the_call_reads_the_clock() {
    let mut app = logged_in();
    app.handle_key(key('f'));
    match app.handle_key(press(KeyCode::Enter)) {
        Action::FetchLogs { filters, .. } => {
            let start = filters.start_time.unwrap();
            let end = filters.end_time.unwrap();
            assert_eq!(end.secs - start.secs, 86_400);
            assert!(end.secs > 1_600_000_000);
        },
        other => panic!("unexpected action {:?}", other),
    }
}

#[test]
fn a_failed_filter_fetch_is_only_reported() {
    let mut app = with_records(3);
    app.logs_replied(Fetch::Filter, Reply::Answered { status: 500, body: None });
    assert_eq!(
        app.status_message,
        Some(String::from(
            "Failed to apply filters: Failed to fetch logs: 500 Internal Server Error"
        ))
    );
    assert_eq!(app.logs_view.logs.len(), 3);
}

#[test]
fn export_menu_switches_between_two_formats() {
    let mut app = logged_in();
    app.handle_key(key('e'));
    app.handle_key(press(KeyCode::Down));
    assert_eq!(app.export_format_selection, 1);
    app.handle_key(key('j'));
    assert_eq!(app.export_format_selection, 0);
    app.handle_key(key('k'));
    assert_eq!(app.export_format_selection, 1);
    app.handle_key(press(KeyCode::Up));
    assert_eq!(app.export_format_selection, 0);
    app.handle_key(key('q'));
    assert_eq!(app.state, AppState::Main);
    assert!(!app.should_quit);
}

#[test]
fn export_asks_for_the_selected_format_with_default_criteria() {
    let mut app = logged_in();
    app.handle_key(key('e'));
    app.handle_key(press(KeyCode::Down));
    let action = app.handle_key(press(KeyCode::Enter));
    assert_eq!(
        action,
        Action::Export { format: ExportFormat::Csv, filters: LogFilters::default() }
    );
    assert_eq!(app.state, AppState::Main);
    assert_eq!(app.status_message, Some(String::from("Exporting logs as csv...")));

    let mut app = logged_in();
    app.handle_key(key('e'));
    let action = app.handle_key(press(KeyCode::Enter));
    assert_eq!(
        action,
        Action::Export { format: ExportFormat::Json, filters: LogFilters::default() }
    );
    assert_eq!(app.status_message, Some(String::from("Exporting logs as json...")));
}

#[test]
fn exported_bytes_go_to_a_file_named_after_the_instant() {
    let mut app = logged_in();
    let reply = Reply::Answered { status: 200, body: Some(vec![1u8, 2, 3]) };
    let now = Timestamp { secs: 1_431_648_000 + 3_723, nanos: 999 };
    let action = app.export_replied_at(ExportFormat::Csv, reply, now);
    assert_eq!(
        action,
        Some(Action::WriteFile {
            name: String::from("logs_export_20150515_010203.csv"),
            data: vec![1u8, 2, 3],
        })
    );
    app.file_written("logs_export_20150515_010203.csv", None);
    assert_eq!(
        app.status_message,
        Some(String::from("Logs exported to logs_export_20150515_010203.csv"))
    );
    app.file_written("logs_export_20150515_010203.csv", Some(String::from("disk full")));
    assert_eq!(app.status_message, Some(String::from("Failed to write file: disk full")));
}

#[test]
fn export_named_after_the_time_of_the_call() {
    let mut app = logged_in();
    let reply = Reply::Answered { status: 200, body: Some(vec![7u8]) };
    match app.export_replied(ExportFormat::Json, reply) {
        Action::WriteFile { name, data } => {
            assert!(name.starts_with("logs_export_2"));
            assert!(name.ends_with(".json"));
            assert_eq!(name.len(), "logs_export_20150515_010203.json".len());
            assert_eq!(data, vec![7u8]);
        },
        other => panic!("unexpected action {:?}", other),
    }
}

#[test]
fn export_given_a_stamp() {
    let mut app = logged_in();
    let reply = Reply::Answered { status: 200, body: Some(Vec::new()) };
    let action = app.export_replied_with(ExportFormat::Json, reply, Some(String::from("S")));
    assert_eq!(
        action,
        Some(Action::WriteFile { name: String::from("logs_export_S.json"), data: Vec::new() })
    );
}

#[test]
fn export_at_an_instant_without_a_date_changes_nothing() {
    let mut app = logged_in();
    let before = app.status_message.clone();
    let reply = Reply::Answered { status: 200, body: Some(vec![1u8]) };
    assert_eq!(app.export_replied_with(ExportFormat::Json, reply, None), None);
    assert_eq!(app.status_message, before);
    let reply = Reply::Answered { status: 200, body: Some(vec![1u8]) };
    let never = Timestamp { secs: i64::MAX, nanos: 0 };
    assert_eq!(app.export_replied_at(ExportFormat::Json, reply, never), None);
    assert_eq!(app.status_message, before);
    assert_eq!(
        app.export_replied_at(ExportFormat::Json, Reply::Failed, never),
        Some(Action::Nothing)
    );
    assert_eq!(
        app.status_message,
        Some(String::from("Failed to export logs: Failed to export logs"))
    );
}

#[test]
fn a_failed_export_is_only_reported() {
    let mut app = logged_in();
    let action =
        app.export_replied_at(ExportFormat::Csv, Reply::Answered { status: 401, body: None }, NOON);
    assert_eq!(action, Some(Action::Nothing));
    assert_eq!(
        app.status_message,
        Some(String::from("Failed to export logs: Session expired. Please login again."))
    );
    app.export_replied_at(ExportFormat::Csv, Reply::Answered { status: 200, body: None }, NOON);
    assert_eq!(
        app.status_message,
        Some(String::from("Failed to export logs: Failed to read export response"))
    );
}

#[test]
fn tail_mode_is_on_once_the_feed_is_open() {
    let mut app = logged_in();
    let action = app.handle_key(key('t'));
    assert_eq!(
        action,
        Action::OpenStream { url: String::from("http://localhost:8000/api/logs/stream") }
    );
    assert!(!app.tail_mode);
    assert!(app.log_stream.is_none());
    let sender = tailing(&mut app);
    assert!(app.tail_mode);
    assert!(app.log_stream.is_some());
    assert_eq!(app.status_message, Some(String::from("Tail mode enabled (LIVE)")));
    assert_eq!(app.state, AppState::Main);
    assert!(!sender.is_closed());

    assert_eq!(app.handle_key(key('t')), Action::Nothing);
    assert!(!app.tail_mode);
    assert!(app.log_stream.is_none());
    assert_eq!(app.status_message, Some(String::from("Tail mode disabled")));
    assert!(sender.is_closed());
    assert!(sender.try_send(record(1, "late")).is_err());
}

#[test]
fn a_feed_that_cannot_be_opened_leaves_tail_mode_off() {
    let mut app = logged_in();
    app.handle_key(key('t'));
    app.stream_opened(Err(String::from("connection refused")));
    assert!(!app.tail_mode);
    assert!(app.log_stream.is_none());
    assert_eq!(
        app.status_message,
        Some(String::from("Failed to enable tail mode: connection refused"))
    );
}

#[test]
fn records_fed_through_the_feed_are_shown_newest_first() {
    let mut app = logged_in();
    assert!(matches!(app.handle_key(key('t')), Action::OpenStream { .. }));
    let sender = tailing(&mut app);
    let frames = vec![
        Frame::Connected,
        Frame::Event { record: Some(record(1, "A")) },
        Frame::Comment,
        Frame::Event { record: None },
        Frame::Event { record: Some(record(2, "B")) },
        Frame::Event { record: Some(record(3, "C")) },
    ];
    for frame in frames {
        match ingest(Some(frame)) {
            Ingest::Forward(log) => {
                assert_eq!(after_send(sender.try_send(log).is_ok()), Ingest::Skip);
            },
            Ingest::Skip => {},
            Ingest::Stop => panic!("the feed did not fail"),
        }
        app.poll_stream();
    }
    let messages: Vec<&str> = app.logs_view.logs.iter().map(|log| log.message.as_str()).collect();
    assert_eq!(messages, vec!["C", "B", "A"]);
}

#[test]
fn one_look_takes_one_record_in_the_order_sent() {
    let mut app = logged_in();
    let sender = tailing(&mut app);
    for id in 1..=3 {
        sender.try_send(record(id, "m")).unwrap();
    }
    app.poll_stream();
    assert_eq!(app.logs_view.logs.iter().map(|log| log.id).collect::<Vec<i64>>(), vec![1]);
    app.poll_stream();
    app.poll_stream();
    assert_eq!(app.logs_view.logs.iter().map(|log| log.id).collect::<Vec<i64>>(), vec![3, 2, 1]);
    app.poll_stream();
    assert_eq!(app.logs_view.logs.len(), 3);
}

#[test]
fn a_feed_that_ended_leaves_the_view_as_it_is() {
    let mut app = with_records(2);
    let sender = tailing(&mut app);
    sender.try_send(record(9, "last")).unwrap();
    drop(sender);
    app.poll_stream();
    app.poll_stream();
    assert_eq!(app.logs_view.logs.iter().map(|log| log.id).collect::<Vec<i64>>(), vec![9, 0, 1]);
    assert!(app.tail_mode);
}

#[test]
fn the_queue_holds_a_hundred_records_and_no_more() {
    let mut app = logged_in();
    let sender = tailing(&mut app);
    assert_eq!(sender.max_capacity(), CHANNEL_CAPACITY);
    for id in 0..100 {
        assert!(sender.try_send(record(id, "m")).is_ok());
    }
    assert!(sender.try_send(record(100, "m")).is_err());
    app.poll_stream();
    assert!(sender.try_send(record(100, "m")).is_ok());
}

#[test]
fn first_arrival_into_a_fresh_view_is_not_selected() {
    let mut app = logged_in();
    let sender = tailing(&mut app);
    sender.try_send(record(1, "first")).unwrap();
    app.poll_stream();
    assert_eq!(app.logs_view.logs.len(), 1);
    assert_eq!(app.logs_view.selected, None);
    app.handle_key(press(KeyCode::Enter));
    assert_eq!(app.state, AppState::Main);
    app.handle_key(key('j'));
    app.handle_key(press(KeyCode::Enter));
    assert_eq!(app.state, AppState::LogDetail);
}

#[test]
fn opening_a_second_feed_replaces_the_first() {
    let mut app = logged_in();
    let first = tailing(&mut app);
    let second = tailing(&mut app);
    assert!(first.is_closed());
    assert!(!second.is_closed());
    second.try_send(record(2, "from the second")).unwrap();
    app.poll_stream();
    assert_eq!(app.logs_view.logs[0].id, 2);
    app.stream_opened(Err(String::from("refused")));
    assert!(!second.is_closed());
    assert!(app.tail_mode);
}

#[test]
fn arrivals_are_ignored_while_tail_mode_is_off() {
    let mut app = with_records(2);
    app.take_arrival(Some(record(9, "late")));
    assert_eq!(app.logs_view.logs.len(), 2);
    app.poll_stream();
    assert_eq!(app.logs_view.logs.len(), 2);
}

#[test]
fn tail_mode_goes_on_behind_other_screens() {
    let mut app = with_records(1);
    let sender = tailing(&mut app);
    app.handle_key(key('?'));
    sender.try_send(record(7, "new")).unwrap();
    app.poll_stream();
    assert_eq!(app.state, AppState::Help);
    assert!(app.tail_mode);
    assert_eq!(app.logs_view.logs.len(), 2);
    assert_eq!(app.logs_view.logs[0].id, 7);
}

#[test]
fn tail_insertion_respects_the_configured_cap() {
    let mut config = Config::default();
    config.ui.max_logs_in_memory = 2;
    let mut app = App::new(config, None, None);
    let _sender = tailing(&mut app);
    for id in 0..5 {
        app.take_arrival(Some(record(id, "m")));
        assert!(app.logs_view.logs.len() <= 2);
    }
    assert_eq!(app.logs_view.logs.iter().map(|log| log.id).collect::<Vec<i64>>(), vec![4, 3]);
}

#[test]
fn feed_decisions() {
    assert_eq!(ingest(Some(Frame::Event { record: Some(record(1, "a")) })), Ingest::Forward(record(1, "a")));
    assert_eq!(ingest(Some(Frame::Event { record: None })), Ingest::Skip);
    assert_eq!(ingest(Some(Frame::Comment)), Ingest::Skip);
    assert_eq!(ingest(Some(Frame::Connected)), Ingest::Skip);
    assert_eq!(ingest(Some(Frame::Error)), Ingest::Stop);
    assert_eq!(ingest(None), Ingest::Stop);
    assert_eq!(after_send(true), Ingest::Skip);
    assert_eq!(after_send(false), Ingest::Stop);
    assert_eq!(CHANNEL_CAPACITY, 100);
}

#[test]
fn status_line_names_server_count_and_tail_mode() {
    let mut app = with_records(3);
    assert_eq!(app.get_status_line(), "Server: http://localhost:8000 | Logs: 3");
    let _sender = tailing(&mut app);
    assert_eq!(app.get_status_line(), "Server: http://localhost:8000 | Logs: 3 [LIVE]");
    let app = App::new(Config::default(), None, None);
    assert_eq!(app.get_status_line(), "Server: http://localhost:8000 | Logs: 0");
}
