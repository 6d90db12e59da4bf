use jlo_tui::api::client::{
    count_query_from, export_query_from, logs_query_from, read_reply, ApiClient, ApiError,
    Endpoint, Reply, Request,
};
use jlo_tui::api::models::{
    Application, ExportFormat, Log, LogFilters, LoginResponse, LogsCountResponse,
};
use jlo_tui::time::Timestamp;

fn client() -> ApiClient {
    ApiClient::new(String::from("http://logs.example:8000"))
}

fn pair(key: &str, value: &str) -> (String, String) {
    (String::from(key), String::from(value))
}

fn welcome() -> LoginResponse {
    LoginResponse {
        message: String::from("ok"),
        username: String::from("alice"),
        role: String::from("admin"),
        full_name: None,
    }
}

fn record(id: i64) -> Log {
    Log {
        id,
        app_id: 3,
        app_name: String::from("billing"),
        level: String::from("WARN"),
        message: String::from("slow"),
        structured_data: None,
        tags: None,
        timestamp: Timestamp { secs: 1_700_000_000, nanos: 0 },
        created_at: Timestamp { secs: 1_700_000_001, nanos: 0 },
    }
}

#[test]
fn base_address_loses_its_trailing_slashes() {
    assert_eq!(ApiClient::new(String::from("http://h:1///")).base_url(), "http://h:1");
    assert_eq!(ApiClient::new(String::from("http://h:1")).base_url(), "http://h:1");
    assert_eq!(ApiClient::new(String::from("///")).base_url(), "");
    assert_eq!(ApiClient::new(String::from("http://h/a/")).base_url(), "http://h/a");
}

#[test]
fn each_operation_has_its_address() {
    let client = client();
    assert_eq!(client.url(Endpoint::Login), "http://logs.example:8000/api/auth/login");
    assert_eq!(client.url(Endpoint::Apps), "http://logs.example:8000/api/apps");
    assert_eq!(client.url(Endpoint::Logs), "http://logs.example:8000/api/logs");
    assert_eq!(client.url(Endpoint::LogsCount), "http://logs.example:8000/api/logs/count");
    assert_eq!(client.url(Endpoint::Export), "http://logs.example:8000/api/logs/export");
}

#[test]
fn stream_address_is_derived_from_the_base() {
    assert_eq!(client().get_stream_url(), "http://logs.example:8000/api/logs/stream");
}

#[test]
fn login_request_carries_the_credentials() {
    let (url, body) = client().login_request("alice", "s3cret");
    assert_eq!(url, "http://logs.example:8000/api/auth/login");
    assert_eq!(body.username, "alice");
    assert_eq!(body.password, "s3cret");
}

#[test]
fn apps_request_has_no_query() {
    let request = client().get_apps_request();
    assert_eq!(
        request,
        Request { url: String::from("http://logs.example:8000/api/apps"), query: Vec::new() }
    );
}

#[test]
fn default_criteria_ask_for_the_first_hundred() {
    let request = client().get_logs_request(&LogFilters::default()).unwrap();
    assert_eq!(request.url, "http://logs.example:8000/api/logs");
    assert_eq!(request.query, vec![pair("limit", "100"), pair("offset", "0")]);
}

#[test]
fn logs_query_lists_every_criterion_in_order() {
    let filters = LogFilters {
        app_id: Some(-42),
        levels: vec![String::from("WARN"), String::from("ERROR")],
        search: Some(String::from("disk full")),
        start_time: Some(Timestamp { secs: 1_431_648_000, nanos: 0 }),
        end_time: Some(Timestamp { secs: 1_431_651_600, nanos: 500_000_000 }),
        limit: 25,
        offset: 50,
    };
    let request = client().get_logs_request(&filters).unwrap();
    assert_eq!(
        request.query,
        vec![
            pair("limit", "25"),
            pair("offset", "50"),
            pair("app_id", "-42"),
            pair("levels", "WARN,ERROR"),
            pair("search", "disk full"),
            pair("start_time", "2015-05-15T00:00:00+00:00"),
            pair("end_time", "2015-05-15T01:00:00.500+00:00"),
        ]
    );
}

#[test]
fn empty_search_text_is_left_out() {
    let filters = LogFilters { search: Some(String::new()), ..LogFilters::default() };
    let request = client().get_logs_request(&filters).unwrap();
    assert_eq!(request.query, vec![pair("limit", "100"), pair("offset", "0")]);
}

#[test]
fn empty_level_selection_sends_no_level_parameter() {
    let filters = LogFilters { app_id: Some(1), ..LogFilters::default() };
    let request = client().get_logs_request(&filters).unwrap();
    assert!(request.query.iter().all(|(key, _)| key != "levels" && key != "level"));
    let export = client().export_logs_request(ExportFormat::Json, &filters).unwrap();
    assert!(export.query.iter().all(|(key, _)| key != "levels" && key != "level"));
}

#[test]
fn count_query_has_no_page() {
    let filters = LogFilters {
        levels: vec![String::from("FATAL")],
        limit: 7,
        offset: 3,
        ..LogFilters::default()
    };
    let request = client().get_logs_count_request(&filters).unwrap();
    assert_eq!(request.url, "http://logs.example:8000/api/logs/count");
    assert_eq!(request.query, vec![pair("levels", "FATAL")]);
}

#[test]
fn export_query_names_format_app_and_singular_level() {
    let filters = LogFilters {
        app_id: Some(7),
        levels: vec![String::from("ERROR")],
        ..LogFilters::default()
    };
    let request = client().export_logs_request(ExportFormat::Csv, &filters).unwrap();
    assert_eq!(request.url, "http://logs.example:8000/api/logs/export");
    assert_eq!(
        request.query,
        vec![pair("format", "csv"), pair("app_id", "7"), pair("level", "ERROR")]
    );
}

#[test]
fn export_as_json_with_default_criteria() {
    let request = client().export_logs_request(ExportFormat::Json, &LogFilters::default()).unwrap();
    assert_eq!(request.query, vec![pair("format", "json")]);
}

#[test]
fn a_bound_without_a_date_yields_no_request() {
    let filters = LogFilters {
        start_time: Some(Timestamp { secs: i64::MAX, nanos: 0 }),
        ..LogFilters::default()
    };
    assert!(client().get_logs_request(&filters).is_none());
    assert!(client().get_logs_count_request(&filters).is_none());
    assert!(client().export_logs_request(ExportFormat::Csv, &filters).is_none());
    let filters = LogFilters {
        end_time: Some(Timestamp { secs: 0, nanos: 2_000_000_000 }),
        ..LogFilters::default()
    };
    assert!(client().get_logs_request(&filters).is_none());
}

#[test]
fn accepted_login_establishes_the_session() {
    let mut client = client();
    assert!(!client.has_session());
    let reply = Reply::Answered { status: 200, body: Some(welcome()) };
    assert_eq!(client.login(reply), Ok(welcome()));
    assert!(client.has_session());
}

#[test]
fn rejected_login_is_invalid_credentials() {
    let mut client = client();
    let reply = Reply::Answered { status: 401, body: None };
    assert_eq!(client.login(reply), Err(ApiError::InvalidCredentials));
    assert!(!client.has_session());
}

#[test]
fn a_failed_login_keeps_an_earlier_session() {
    let mut client = client();
    assert!(client.login(Reply::Answered { status: 200, body: Some(welcome()) }).is_ok());
    assert!(client.login(Reply::Failed).is_err());
    assert!(client.has_session());
}

#[test]
fn login_failures_other_than_unauthorized() {
    let mut client = client();
    assert_eq!(client.login(Reply::Failed), Err(ApiError::Transport(Endpoint::Login)));
    assert_eq!(
        client.login(Reply::Answered { status: 500, body: None }),
        Err(ApiError::Status(Endpoint::Login, 500))
    );
    assert_eq!(
        client.login(Reply::Answered { status: 200, body: None }),
        Err(ApiError::Protocol(Endpoint::Login))
    );
}

#[test]
fn unauthorized_wins_over_a_readable_body() {
    let mut client = client();
    let reply = Reply::Answered { status: 401, body: Some(welcome()) };
    assert_eq!(client.login(reply), Err(ApiError::InvalidCredentials));
}

#[test]
fn apps_reply_is_read() {
    let app = Application {
        id: 5,
        name: String::from("search"),
        created_at: Timestamp { secs: 1, nanos: 2 },
    };
    let reply = Reply::Answered { status: 200, body: Some(vec![app.clone()]) };
    assert_eq!(client().get_apps(reply), Ok(vec![app]));
    assert_eq!(
        client().get_apps(Reply::Answered { status: 401, body: None }),
        Err(ApiError::SessionExpired)
    );
    assert_eq!(
        client().get_apps(Reply::Answered { status: 404, body: None }),
        Err(ApiError::Status(Endpoint::Apps, 404))
    );
    assert_eq!(client().get_apps(Reply::Failed), Err(ApiError::Transport(Endpoint::Apps)));
}

#[test]
fn logs_reply_keeps_the_order_of_the_service() {
    let reply = Reply::Answered { status: 200, body: Some(vec![record(3), record(1), record(2)]) };
    let logs = client().get_logs(reply).unwrap();
    assert_eq!(logs.iter().map(|log| log.id).collect::<Vec<i64>>(), vec![3, 1, 2]);
    assert_eq!(
        client().get_logs(Reply::Answered { status: 401, body: None }),
        Err(ApiError::SessionExpired)
    );
    assert_eq!(
        client().get_logs(Reply::Answered { status: 204, body: None }),
        Err(ApiError::Protocol(Endpoint::Logs))
    );
}

#[test]
fn count_reply_gives_the_total() {
    let reply = Reply::Answered { status: 200, body: Some(LogsCountResponse { total: 1234 }) };
    assert_eq!(client().get_logs_count(reply), Ok(1234));
    assert_eq!(
        client().get_logs_count(Reply::Answered { status: 503, body: None }),
        Err(ApiError::Status(Endpoint::LogsCount, 503))
    );
    assert_eq!(
        client().get_logs_count(Reply::Answered { status: 401, body: None }),
        Err(ApiError::SessionExpired)
    );
}

#[test]
fn export_reply_gives_the_bytes_as_they_came() {
    let reply = Reply::Answered { status: 200, body: Some(vec![0u8, 159, 146, 150]) };
    assert_eq!(client().export_logs(reply), Ok(vec![0u8, 159, 146, 150]));
    assert_eq!(client().export_logs(Reply::Failed), Err(ApiError::Transport(Endpoint::Export)));
}

#[test]
fn success_is_two_hundred_to_two_ninety_nine() {
    for status in [199u16, 300, 302, 400, 404, 500, 0, 999, u16::MAX] {
        let reply = Reply::Answered { status, body: Some(1u8) };
        assert_eq!(read_reply(Endpoint::Logs, reply), Err(ApiError::Status(Endpoint::Logs, status)));
    }
    for status in [200u16, 201, 204, 299] {
        let reply = Reply::Answered { status, body: Some(1u8) };
        assert_eq!(read_reply(Endpoint::Logs, reply), Ok(1u8));
    }
}

#[test]
fn unauthorized_is_told_apart_from_other_failures() {
    assert!(ApiError::InvalidCredentials.is_unauthorized());
    assert!(ApiError::SessionExpired.is_unauthorized());
    assert!(!ApiError::Transport(Endpoint::Logs).is_unauthorized());
    assert!(!ApiError::Status(Endpoint::Logs, 403).is_unauthorized());
    assert!(!ApiError::Protocol(Endpoint::Logs).is_unauthorized());
}

#[test]
fn error_messages() {
    assert_eq!(ApiError::InvalidCredentials.message(), "Invalid credentials");
    assert_eq!(ApiError::SessionExpired.message(), "Session expired. Please login again.");
    assert_eq!(ApiError::Transport(Endpoint::Login).message(), "Failed to send login request");
    assert_eq!(ApiError::Transport(Endpoint::Apps).message(), "Failed to fetch applications");
    assert_eq!(ApiError::Transport(Endpoint::Logs).message(), "Failed to fetch logs");
    assert_eq!(ApiError::Transport(Endpoint::LogsCount).message(), "Failed to fetch log count");
    assert_eq!(ApiError::Transport(Endpoint::Export).message(), "Failed to export logs");
    assert_eq!(ApiError::Protocol(Endpoint::Login).message(), "Failed to parse login response");
    assert_eq!(
        ApiError::Protocol(Endpoint::Apps).message(),
        "Failed to parse applications response"
    );
    assert_eq!(ApiError::Protocol(Endpoint::Logs).message(), "Failed to parse logs response");
    assert_eq!(
        ApiError::Protocol(Endpoint::LogsCount).message(),
        "Failed to parse log count response"
    );
    assert_eq!(ApiError::Protocol(Endpoint::Export).message(), "Failed to read export response");
}

#[test]
fn status_messages_carry_the_status_line() {
    assert_eq!(
        ApiError::Status(Endpoint::Login, 500).message(),
        "Login failed: 500 Internal Server Error"
    );
    assert_eq!(
        ApiError::Status(Endpoint::Logs, 404).message(),
        "Failed to fetch logs: 404 Not Found"
    );
    assert_eq!(
        ApiError::Status(Endpoint::Export, 599).message(),
        "Failed to export logs: 599 <unknown status code>"
    );
    assert_eq!(ApiError::Status(Endpoint::Apps, 42).message(), "Failed to fetch applications: 42");
}

#[test]
fn message_with_uses_the_line_it_is_given() {
    let error = ApiError::Status(Endpoint::LogsCount, 418);
    assert_eq!(
        error.message_with(Some(String::from("418 I'm a teapot"))),
        "Failed to fetch log count: 418 I'm a teapot"
    );
    assert_eq!(error.message_with(None), "Failed to fetch log count: 418");
    assert_eq!(ApiError::SessionExpired.message_with(None), "Session expired. Please login again.");
}

#[test]
fn queries_from_given_bound_texts() {
    let filters = LogFilters {
        app_id: Some(3),
        levels: vec![String::from("INFO"), String::from("DEBUG")],
        limit: 10,
        offset: 20,
        ..LogFilters::default()
    };
    let start = Some(String::from("S"));
    let end = Some(String::from("E"));
    assert_eq!(
        logs_query_from(&filters, start.clone(), end.clone()),
        vec![
            pair("limit", "10"),
            pair("offset", "20"),
            pair("app_id", "3"),
            pair("levels", "INFO,DEBUG"),
            pair("start_time", "S"),
            pair("end_time", "E"),
        ]
    );
    assert_eq!(
        count_query_from(&filters, None, end.clone()),
        vec![pair("app_id", "3"), pair("levels", "INFO,DEBUG"), pair("end_time", "E")]
    );
    assert_eq!(
        export_query_from(ExportFormat::Json, &filters, start, None),
        vec![
            pair("format", "json"),
            pair("app_id", "3"),
            pair("level", "INFO,DEBUG"),
            pair("start_time", "S"),
        ]
    );
}
