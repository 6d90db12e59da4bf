//! The session with the log service: where each operation is sent, with which
//! query, and what its reply means. Sending and receiving are the caller's part;
//! nothing here is retried.

use crate::api::models::{
    Application, ExportFormat, FilterCriteria, Log, LogFilters, LoginRequest, LoginResponse,
    LogsCountResponse,
};
use crate::text::{
    chain, decimal, ends_with, i64_to_string, join, joined, lemma_trimmed_end, trim_end,
    trimmed_end, u64_to_string,
};
use crate::time::{rfc3339_text, Timestamp};
use vstd::prelude::*;
use vstd::string::*;

verus! {

/// Status with which the service rejects credentials or a session.
pub const STATUS_UNAUTHORIZED: u16 = 401;

/// The request/response operations of the service.
#[derive(Debug, Clone, Copy, PartialEq, Eq, Structural)]
pub enum Endpoint {
    Login,
    Apps,
    Logs,
    LogsCount,
    Export,
}

impl Endpoint {
    /// The path of the operation below the service's base address.
    pub open spec fn spec_path(self) -> Seq<char> {
        match self {
            Endpoint::Login => "/api/auth/login"@,
            Endpoint::Apps => "/api/apps"@,
            Endpoint::Logs => "/api/logs"@,
            Endpoint::LogsCount => "/api/logs/count"@,
            Endpoint::Export => "/api/logs/export"@,
        }
    }

    /// What is reported when the request could not be sent or no reply came.
    pub open spec fn spec_send_failure(self) -> Seq<char> {
        match self {
            Endpoint::Login => "Failed to send login request"@,
            Endpoint::Apps => "Failed to fetch applications"@,
            Endpoint::Logs => "Failed to fetch logs"@,
            Endpoint::LogsCount => "Failed to fetch log count"@,
            Endpoint::Export => "Failed to export logs"@,
        }
    }

    /// What is reported, before the status, when the service answers with a
    /// failure other than "unauthorized".
    pub open spec fn spec_status_failure(self) -> Seq<char> {
        match self {
            Endpoint::Login => "Login failed"@,
            Endpoint::Apps => "Failed to fetch applications"@,
            Endpoint::Logs => "Failed to fetch logs"@,
            Endpoint::LogsCount => "Failed to fetch log count"@,
            Endpoint::Export => "Failed to export logs"@,
        }
    }

    /// What is reported when the body of a successful reply cannot be read.
    pub open spec fn spec_body_failure(self) -> Seq<char> {
        match self {
            Endpoint::Login => "Failed to parse login response"@,
            Endpoint::Apps => "Failed to parse applications response"@,
            Endpoint::Logs => "Failed to parse logs response"@,
            Endpoint::LogsCount => "Failed to parse log count response"@,
            Endpoint::Export => "Failed to read export response"@,
        }
    }

    /// The path of the operation below the service's base address.
    pub fn path(&self) -> (s: &'static str)
        ensures
            s@ == self.spec_path(),
    {
        match self {
            Endpoint::Login => "/api/auth/login",
            Endpoint::Apps => "/api/apps",
            Endpoint::Logs => "/api/logs",
            Endpoint::LogsCount => "/api/logs/count",
            Endpoint::Export => "/api/logs/export",
        }
    }

    /// What is reported when the request could not be sent or no reply came.
    pub fn send_failure(&self) -> (s: &'static str)
        ensures
            s@ == self.spec_send_failure(),
    {
        match self {
            Endpoint::Login => "Failed to send login request",
            Endpoint::Apps => "Failed to fetch applications",
            Endpoint::Logs => "Failed to fetch logs",
            Endpoint::LogsCount => "Failed to fetch log count",
            Endpoint::Export => "Failed to export logs",
        }
    }

    /// What is reported, before the status, when the service answers with a
    /// failure other than "unauthorized".
    pub fn status_failure(&self) -> (s: &'static str)
        ensures
            s@ == self.spec_status_failure(),
    {
        match self {
            Endpoint::Login => "Login failed",
            Endpoint::Apps => "Failed to fetch applications",
            Endpoint::Logs => "Failed to fetch logs",
            Endpoint::LogsCount => "Failed to fetch log count",
            Endpoint::Export => "Failed to export logs",
        }
    }

    /// What is reported when the body of a successful reply cannot be read.
    pub fn body_failure(&self) -> (s: &'static str)
        ensures
            s@ == self.spec_body_failure(),
    {
        match self {
            Endpoint::Login => "Failed to parse login response",
            Endpoint::Apps => "Failed to parse applications response",
            Endpoint::Logs => "Failed to parse logs response",
            Endpoint::LogsCount => "Failed to parse log count response",
            Endpoint::Export => "Failed to read export response",
        }
    }
}

/// The status line that `reqwest` writes for a status code: the code and its
/// standard reason phrase. `None` for a number that is no status code.
pub uninterp spec fn http_status_text(code: u16) -> Option<Seq<char>>;

/// Writes a status code with its reason phrase.
///
/// Trusted: stands for `reqwest::StatusCode::from_u16` and the `Display` of the
/// status it makes. The text depends on the number alone; it is `None` where
/// `from_u16` takes the number for no status code.
#[verifier::external_body]
pub(crate) fn http_status_line(code: u16) -> (r: Option<String>)
    ensures
        r.deep_view() == http_status_text(code),
{
    match reqwest::StatusCode::from_u16(code) {
        Ok(status) => Some(status.to_string()),
        Err(_) => None,
    }
}

/// Why an operation of the service failed.
#[derive(Debug, Clone, Copy, PartialEq, Eq, Structural)]
pub enum ApiError {
    /// The service rejected the credentials of a login.
    InvalidCredentials,
    /// The service no longer accepts the session.
    SessionExpired,
    /// The request could not be sent, or no reply came.
    Transport(Endpoint),
    /// The service answered with this status, which is neither a success nor
    /// "unauthorized".
    Status(Endpoint, u16),
    /// The reply was a success but its body was not what the operation returns.
    Protocol(Endpoint),
}

/// What is shown for a status: its line where it has one, else the bare number.
pub open spec fn status_shown(code: u16, line: Option<Seq<char>>) -> Seq<char> {
    match line {
        Some(text) => text,
        None => decimal(code as int),
    }
}

impl ApiError {
    /// Whether the service said "unauthorized": the user has to log in (again).
    /// Every other failure is only reported.
    pub open spec fn spec_is_unauthorized(self) -> bool {
        self is InvalidCredentials || self is SessionExpired
    }

    /// The text of the error, given the line of its status.
    pub open spec fn text_with(self, line: Option<Seq<char>>) -> Seq<char> {
        match self {
            ApiError::InvalidCredentials => "Invalid credentials"@,
            ApiError::SessionExpired => "Session expired. Please login again."@,
            ApiError::Transport(endpoint) => endpoint.spec_send_failure(),
            ApiError::Status(endpoint, code) => endpoint.spec_status_failure() + ": "@
                + status_shown(code, line),
            ApiError::Protocol(endpoint) => endpoint.spec_body_failure(),
        }
    }

    /// The status that the error carries, or 0 where it carries none.
    pub open spec fn status(self) -> u16 {
        match self {
            ApiError::Status(_, code) => code,
            _ => 0,
        }
    }

    /// The text of the error.
    pub open spec fn text(self) -> Seq<char> {
        self.text_with(http_status_text(self.status()))
    }

    /// Whether the service said "unauthorized": the user has to log in (again).
    pub fn is_unauthorized(&self) -> (r: bool)
        ensures
            r == self.spec_is_unauthorized(),
    {
        match self {
            ApiError::InvalidCredentials => true,
            ApiError::SessionExpired => true,
            _ => false,
        }
    }

    /// The text of the error, where `line` is the status line of the status it
    /// carries.
    pub fn message_with(&self, line: Option<String>) -> (r: String)
        ensures
            r@ == self.text_with(line.deep_view()),
    {
        match self {
            ApiError::InvalidCredentials => String::from_str("Invalid credentials"),
            ApiError::SessionExpired => String::from_str("Session expired. Please login again."),
            ApiError::Transport(endpoint) => String::from_str(endpoint.send_failure()),
            ApiError::Status(endpoint, code) => {
                let mut out = chain(endpoint.status_failure(), ": ");
                match line {
                    Some(text) => out.append(text.as_str()),
                    None => {
                        let number = u64_to_string(*code as u64);
                        out.append(number.as_str());
                    },
                }
                out
            },
            ApiError::Protocol(endpoint) => String::from_str(endpoint.body_failure()),
        }
    }

    /// The text of the error, as it is shown to the user.
    pub fn message(&self) -> (r: String)
        ensures
            r@ == self.text(),
    {
        match self {
            ApiError::Status(_, code) => self.message_with(http_status_line(*code)),
            _ => self.message_with(None),
        }
    }
}

/// What came back for a request.
#[derive(Debug)]
pub enum Reply<T> {
    /// Nothing: the request could not be sent, or no reply came.
    Failed,
    /// A reply with this status. `body` holds what the body was read as; it is
    /// `None` where the body could not be read as what the operation returns.
    Answered { status: u16, body: Option<T> },
}

/// Whether `status` is a success (200 to 299).
pub open spec fn is_success(status: u16) -> bool {
    200 <= status < 300
}

/// The error with which `endpoint` reports "unauthorized".
pub open spec fn unauthorized_error(endpoint: Endpoint) -> ApiError {
    if endpoint == Endpoint::Login {
        ApiError::InvalidCredentials
    } else {
        ApiError::SessionExpired
    }
}

/// What a reply to `endpoint` means.
pub open spec fn reply_outcome<T>(endpoint: Endpoint, reply: Reply<T>) -> Result<T, ApiError> {
    match reply {
        Reply::Failed => Err(ApiError::Transport(endpoint)),
        Reply::Answered { status, body } => {
            if status == STATUS_UNAUTHORIZED {
                Err(unauthorized_error(endpoint))
            } else if !is_success(status) {
                Err(ApiError::Status(endpoint, status))
            } else {
                match body {
                    Some(value) => Ok(value),
                    None => Err(ApiError::Protocol(endpoint)),
                }
            }
        },
    }
}

/// Reads the reply to `endpoint`: its body where the service answered with a
/// success and the body could be read, else the error.
pub fn read_reply<T>(endpoint: Endpoint, reply: Reply<T>) -> (r: Result<T, ApiError>)
    ensures
        r == reply_outcome(endpoint, reply),
{
    match reply {
        Reply::Failed => Err(ApiError::Transport(endpoint)),
        Reply::Answered { status, body } => {
            if status == STATUS_UNAUTHORIZED {
                match endpoint {
                    Endpoint::Login => Err(ApiError::InvalidCredentials),
                    _ => Err(ApiError::SessionExpired),
                }
            } else if status < 200 || status >= 300 {
                Err(ApiError::Status(endpoint, status))
            } else {
                match body {
                    Some(value) => Ok(value),
                    None => Err(ApiError::Protocol(endpoint)),
                }
            }
        },
    }
}

/// A key of a query with its value.
pub type Param = (Seq<char>, Seq<char>);

/// The parameters that ask for one page: how many records, and after how many.
pub open spec fn page_params(filters: FilterCriteria) -> Seq<Param> {
    seq![("limit"@, decimal(filters.limit as int)), ("offset"@, decimal(filters.offset as int))]
}

/// The parameter of the application, present where one is selected.
pub open spec fn app_params(filters: FilterCriteria) -> Seq<Param> {
    match filters.app_id {
        Some(id) => seq![("app_id"@, decimal(id as int))],
        None => Seq::empty(),
    }
}

/// The parameter of the levels under the key `key`, present where at least one
/// level is selected: their names joined by commas.
pub open spec fn level_params(filters: FilterCriteria, key: Seq<char>) -> Seq<Param> {
    if filters.levels.len() > 0 {
        seq![(key, joined(filters.levels, ","@))]
    } else {
        Seq::empty()
    }
}

/// The parameter of the searched text, present where the text is not empty.
pub open spec fn search_params(filters: FilterCriteria) -> Seq<Param> {
    match filters.search {
        Some(text) => if text.len() > 0 {
            seq![("search"@, text)]
        } else {
            Seq::empty()
        },
        None => Seq::empty(),
    }
}

/// The parameter of one end of the time range, present where that end has a
/// text.
pub open spec fn time_params(key: Seq<char>, text: Option<Seq<char>>) -> Seq<Param> {
    match text {
        Some(text) => seq![(key, text)],
        None => Seq::empty(),
    }
}

/// The parameters of the criteria apart from the page, where `start` and `end`
/// are the texts of the two ends of the time range: application, levels,
/// searched text, start, end, in this order, each only where it restricts.
pub open spec fn filter_params_with(
    filters: FilterCriteria,
    level_key: Seq<char>,
    start: Option<Seq<char>>,
    end: Option<Seq<char>>,
) -> Seq<Param> {
    app_params(filters) + level_params(filters, level_key) + search_params(filters) + time_params(
        "start_time"@,
        start,
    ) + time_params("end_time"@, end)
}

/// The RFC 3339 text of one end of the time range, where it is set and has one.
pub open spec fn bound_text(bound: Option<Timestamp>) -> Option<Seq<char>> {
    match bound {
        Some(instant) => rfc3339_text(instant.secs, instant.nanos),
        None => None,
    }
}

/// Whether each end of the time range that is set can be written down: it is
/// an instant of the calendar.
pub open spec fn range_writable(filters: FilterCriteria) -> bool {
    &&& filters.start_time matches Some(instant) ==> instant.is_instant()
    &&& filters.end_time matches Some(instant) ==> instant.is_instant()
}

/// The parameters of the criteria apart from the page.
pub open spec fn filter_params(filters: FilterCriteria, level_key: Seq<char>) -> Seq<Param> {
    filter_params_with(
        filters,
        level_key,
        bound_text(filters.start_time),
        bound_text(filters.end_time),
    )
}

/// The query of a fetch of records: the page, then the criteria with the levels
/// under the key `levels`.
pub open spec fn logs_query(filters: FilterCriteria) -> Seq<Param> {
    page_params(filters) + filter_params(filters, "levels"@)
}

/// The query of a count: the criteria with the levels under the key `levels`,
/// without a page.
pub open spec fn count_query(filters: FilterCriteria) -> Seq<Param> {
    filter_params(filters, "levels"@)
}

/// The query of an export: the format, then the criteria with the levels under
/// the key `level`, without a page. The export operation of the service reads
/// this key in the singular.
pub open spec fn export_query(format: ExportFormat, filters: FilterCriteria) -> Seq<Param> {
    seq![("format"@, format.name())] + filter_params(filters, "level"@)
}

/// Whether `query` has a parameter under the key `key`.
pub open spec fn has_key(query: Seq<Param>, key: Seq<char>) -> bool {
    exists|i: int| 0 <= i < query.len() && (#[trigger] query[i]).0 == key
}

/// The ways of the level criterion into a query. With no level selected, no
/// query names levels at all. With levels selected, a fetch and a count name
/// them, joined by commas, under the key `levels` and not under `level`; an
/// export names them under the key `level` and not under `levels`.
pub proof fn lemma_level_parameter(format: ExportFormat, filters: FilterCriteria)
    ensures
        filters.levels.len() == 0 ==> !has_key(logs_query(filters), "levels"@) && !has_key(
            logs_query(filters),
            "level"@,
        ) && !has_key(count_query(filters), "levels"@) && !has_key(count_query(filters), "level"@)
            && !has_key(export_query(format, filters), "levels"@) && !has_key(
            export_query(format, filters),
            "level"@,
        ),
        filters.levels.len() > 0 ==> logs_query(filters).contains(
            ("levels"@, joined(filters.levels, ","@)),
        ) && count_query(filters).contains(("levels"@, joined(filters.levels, ","@)))
            && export_query(format, filters).contains(("level"@, joined(filters.levels, ","@)))
            && !has_key(logs_query(filters), "level"@) && !has_key(count_query(filters), "level"@)
            && !has_key(export_query(format, filters), "levels"@),
{
    reveal_strlit("levels");
    reveal_strlit("level");
    reveal_strlit("limit");
    reveal_strlit("offset");
    reveal_strlit("format");
    reveal_strlit("app_id");
    reveal_strlit("search");
    reveal_strlit("start_time");
    reveal_strlit("end_time");
    let plural = "levels"@;
    let singular = "level"@;
    assert(plural.len() == 6 && singular.len() == 5);
    assert("limit"@.len() == 5 && "limit"@[1] == 'i' && singular[1] == 'e');
    assert("offset"@.len() == 6 && "offset"@[0] == 'o' && plural[0] == 'l');
    assert("format"@.len() == 6 && "format"@[0] == 'f');
    assert("app_id"@.len() == 6 && "app_id"@[0] == 'a');
    assert("search"@.len() == 6 && "search"@[0] == 's');
    assert("start_time"@.len() == 10);
    assert("end_time"@.len() == 8);
    let start = bound_text(filters.start_time);
    let end = bound_text(filters.end_time);
    let named = joined(filters.levels, ","@);
    let page = page_params(filters);
    let head = seq![("format"@, format.name())];
    let for_fetch = filter_params(filters, plural);
    let for_export = filter_params(filters, singular);
    assert forall|i: int| 0 <= i < for_fetch.len() implies ((#[trigger] for_fetch[i]).0 != singular
        && (filters.levels.len() == 0 ==> for_fetch[i].0 != plural)) by {}
    assert forall|i: int| 0 <= i < for_export.len() implies ((#[trigger] for_export[i]).0
        != plural && (filters.levels.len() == 0 ==> for_export[i].0 != singular)) by {}
    assert forall|i: int| 0 <= i < page.len() implies ((#[trigger] page[i]).0 != singular
        && page[i].0 != plural) by {}
    if filters.levels.len() > 0 {
        let at = app_params(filters).len() as int;
        assert(for_fetch[at] == (plural, named));
        assert(for_export[at] == (singular, named));
        assert(count_query(filters)[at] == (plural, named));
        assert(logs_query(filters)[page.len() + at] == (plural, named));
        assert(export_query(format, filters)[head.len() + at] == (singular, named));
    }
}

/// The query of an export names the format first, under the key `format`, and
/// names the application, where one is selected, under the key `app_id`.
pub proof fn lemma_export_parameters(format: ExportFormat, filters: FilterCriteria)
    ensures
        export_query(format, filters).len() > 0,
        export_query(format, filters)[0] == ("format"@, format.name()),
        filters.app_id matches Some(id) ==> export_query(format, filters).contains(
            ("app_id"@, decimal(id as int)),
        ),
{
    let query = export_query(format, filters);
    if filters.app_id is Some {
        assert(query[1] == ("app_id"@, decimal(filters.app_id->0 as int)));
    }
}

fn push_param(params: &mut Vec<(String, String)>, key: &str, value: String)
    ensures
        final(params).deep_view() == old(params).deep_view().push((key@, value@)),
{
    let owned_key = key.to_owned();
    params.push((owned_key, value));
    assert(final(params).deep_view() =~= old(params).deep_view().push((key@, value@)));
}

/// Appends to `params` the parameters of the criteria apart from the page, where
/// `start` and `end` are the texts of the two ends of the time range.
pub fn push_filter_params(
    params: &mut Vec<(String, String)>,
    filters: &LogFilters,
    level_key: &str,
    start: Option<String>,
    end: Option<String>,
)
    ensures
        final(params).deep_view() == old(params).deep_view() + filter_params_with(
            filters@,
            level_key@,
            start.deep_view(),
            end.deep_view(),
        ),
{
    let ghost before = params.deep_view();
    if let Some(id) = filters.app_id {
        push_param(params, "app_id", i64_to_string(id));
    }
    assert(params.deep_view() =~= before + app_params(filters@));
    if filters.levels.len() > 0 {
        push_param(params, level_key, join(&filters.levels, ","));
    }
    assert(params.deep_view() =~= before + app_params(filters@) + level_params(
        filters@,
        level_key@,
    ));
    if let Some(text) = &filters.search {
        if !text.as_str().is_empty() {
            push_param(params, "search", text.clone());
        }
    }
    let ghost upto_search = before + app_params(filters@) + level_params(filters@, level_key@)
        + search_params(filters@);
    assert(params.deep_view() =~= upto_search);
    if let Some(text) = start {
        push_param(params, "start_time", text);
    }
    assert(params.deep_view() =~= upto_search + time_params("start_time"@, start.deep_view()));
    if let Some(text) = end {
        push_param(params, "end_time", text);
    }
    assert(params.deep_view() =~= before + filter_params_with(
        filters@,
        level_key@,
        start.deep_view(),
        end.deep_view(),
    ));
}

/// The query of a fetch of records that meet `filters`, where `start` and `end`
/// are the texts of the two ends of the time range.
pub fn logs_query_from(filters: &LogFilters, start: Option<String>, end: Option<String>) -> (query:
    Vec<(String, String)>)
    ensures
        query.deep_view() == page_params(filters@) + filter_params_with(
            filters@,
            "levels"@,
            start.deep_view(),
            end.deep_view(),
        ),
{
    let mut query: Vec<(String, String)> = Vec::new();
    push_param(&mut query, "limit", u64_to_string(filters.limit as u64));
    push_param(&mut query, "offset", u64_to_string(filters.offset as u64));
    assert(query.deep_view() =~= page_params(filters@));
    push_filter_params(&mut query, filters, "levels", start, end);
    query
}

/// The query of a count of the records that meet `filters`, where `start` and
/// `end` are the texts of the two ends of the time range.
pub fn count_query_from(filters: &LogFilters, start: Option<String>, end: Option<String>) -> (query:
    Vec<(String, String)>)
    ensures
        query.deep_view() == filter_params_with(
            filters@,
            "levels"@,
            start.deep_view(),
            end.deep_view(),
        ),
{
    let mut query: Vec<(String, String)> = Vec::new();
    assert(query.deep_view() =~= Seq::<Param>::empty());
    push_filter_params(&mut query, filters, "levels", start, end);
    assert(query.deep_view() =~= filter_params_with(
        filters@,
        "levels"@,
        start.deep_view(),
        end.deep_view(),
    ));
    query
}

/// The query of an export, as `format`, of the records that meet `filters`,
/// where `start` and `end` are the texts of the two ends of the time range.
pub fn export_query_from(
    format: ExportFormat,
    filters: &LogFilters,
    start: Option<String>,
    end: Option<String>,
) -> (query: Vec<(String, String)>)
    ensures
        query.deep_view() == seq![("format"@, format.name())] + filter_params_with(
            filters@,
            "level"@,
            start.deep_view(),
            end.deep_view(),
        ),
{
    let mut query: Vec<(String, String)> = Vec::new();
    push_param(&mut query, "format", format.as_str().to_owned());
    assert(query.deep_view() =~= seq![("format"@, format.name())]);
    push_filter_params(&mut query, filters, "level", start, end);
    query
}

/// The texts of the two ends of the time range, or `None` where one that is set
/// is no instant of the calendar.
pub fn range_texts(filters: &LogFilters) -> (r: Option<(Option<String>, Option<String>)>)
    ensures
        r is Some <==> range_writable(filters@),
        r matches Some(texts) ==> texts.0.deep_view() == bound_text(filters.start_time)
            && texts.1.deep_view() == bound_text(filters.end_time),
{
    let start = match filters.start_time {
        Some(instant) => match instant.to_rfc3339() {
            Some(text) => Some(text),
            None => { return None; },
        },
        None => None,
    };
    let end = match filters.end_time {
        Some(instant) => match instant.to_rfc3339() {
            Some(text) => Some(text),
            None => { return None; },
        },
        None => None,
    };
    Some((start, end))
}

/// A request to the service: the address it goes to and the query it carries.
#[derive(Debug, PartialEq, Eq)]
pub struct Request {
    pub url: String,
    pub query: Vec<(String, String)>,
}

/// The session with the service: the base address it is bound to, and whether a
/// login has been accepted. The base address never ends with a slash.
pub struct ApiClient {
    base_url: String,
    authenticated: bool,
}

impl ApiClient {
    #[verifier::type_invariant]
    spec fn well_formed(self) -> bool {
        !ends_with(self.base_url@, '/')
    }

    /// The base address of the service.
    pub closed spec fn base(self) -> Seq<char> {
        self.base_url@
    }

    /// Whether a login has been accepted in this session.
    pub closed spec fn session(self) -> bool {
        self.authenticated
    }

    /// The address of `endpoint`.
    pub open spec fn spec_url(self, endpoint: Endpoint) -> Seq<char> {
        self.base() + endpoint.spec_path()
    }

    /// A session with the service at `base_url`, not logged in. Slashes at the
    /// end of the address are dropped.
    pub fn new(base_url: String) -> (client: Self)
        ensures
            client.base() == trimmed_end(base_url@, '/'),
            !client.session(),
    {
        proof {
            lemma_trimmed_end(base_url@, '/');
        }
        ApiClient { base_url: trim_end(base_url.as_str(), '/'), authenticated: false }
    }

    /// The base address of the service.
    pub fn base_url(&self) -> (s: &str)
        ensures
            s@ == self.base(),
            !ends_with(s@, '/'),
    {
        proof {
            use_type_invariant(self);
        }
        self.base_url.as_str()
    }

    /// The address of `endpoint`.
    pub fn url(&self, endpoint: Endpoint) -> (r: String)
        ensures
            r@ == self.spec_url(endpoint),
    {
        chain(self.base_url.as_str(), endpoint.path())
    }

    /// The request of a login: its address and its body.
    pub fn login_request(&self, username: &str, password: &str) -> (r: (String, LoginRequest))
        ensures
            r.0@ == self.spec_url(Endpoint::Login),
            r.1.username@ == username@,
            r.1.password@ == password@,
    {
        let body = LoginRequest { username: username.to_owned(), password: password.to_owned() };
        (self.url(Endpoint::Login), body)
    }

    /// Reads the reply to a login. An accepted login establishes the session; a
    /// session that was established stays.
    pub fn login(&mut self, reply: Reply<LoginResponse>) -> (r: Result<LoginResponse, ApiError>)
        ensures
            r == reply_outcome(Endpoint::Login, reply),
            final(self).base() == old(self).base(),
            final(self).session() == (old(self).session() || r is Ok),
    {
        proof {
            use_type_invariant(&*self);
        }
        let outcome = read_reply(Endpoint::Login, reply);
        if outcome.is_ok() {
            self.authenticated = true;
        }
        outcome
    }

    /// The request that lists the applications.
    pub fn get_apps_request(&self) -> (r: Request)
        ensures
            r.url@ == self.spec_url(Endpoint::Apps),
            r.query@.len() == 0,
    {
        Request { url: self.url(Endpoint::Apps), query: Vec::new() }
    }

    /// Reads the reply to the listing of the applications.
    pub fn get_apps(&self, reply: Reply<Vec<Application>>) -> (r: Result<
        Vec<Application>,
        ApiError,
    >)
        ensures
            r == reply_outcome(Endpoint::Apps, reply),
    {
        read_reply(Endpoint::Apps, reply)
    }

    /// The request that fetches the records that meet `filters`, or `None` where
    /// an end of the time range is no instant of the calendar.
    pub fn get_logs_request(&self, filters: &LogFilters) -> (r: Option<Request>)
        ensures
            r is Some <==> range_writable(filters@),
            r matches Some(request) ==> request.url@ == self.spec_url(Endpoint::Logs)
                && request.query.deep_view() == logs_query(filters@),
    {
        match range_texts(filters) {
            Some((start, end)) => Some(
                Request {
                    url: self.url(Endpoint::Logs),
                    query: logs_query_from(filters, start, end),
                },
            ),
            None => None,
        }
    }

    /// Reads the reply to a fetch of records. Their order is the service's.
    pub fn get_logs(&self, reply: Reply<Vec<Log>>) -> (r: Result<Vec<Log>, ApiError>)
        ensures
            r == reply_outcome(Endpoint::Logs, reply),
    {
        read_reply(Endpoint::Logs, reply)
    }

    /// The request that counts the records that meet `filters`, or `None` where
    /// an end of the time range is no instant of the calendar.
    pub fn get_logs_count_request(&self, filters: &LogFilters) -> (r: Option<Request>)
        ensures
            r is Some <==> range_writable(filters@),
            r matches Some(request) ==> request.url@ == self.spec_url(Endpoint::LogsCount)
                && request.query.deep_view() == count_query(filters@),
    {
        match range_texts(filters) {
            Some((start, end)) => Some(
                Request {
                    url: self.url(Endpoint::LogsCount),
                    query: count_query_from(filters, start, end),
                },
            ),
            None => None,
        }
    }

    /// Reads the reply to a count: the total it names.
    pub fn get_logs_count(&self, reply: Reply<LogsCountResponse>) -> (r: Result<u64, ApiError>)
        ensures
            r == match reply_outcome(Endpoint::LogsCount, reply) {
                Ok(count) => Ok::<u64, ApiError>(count.total),
                Err(error) => Err(error),
            },
    {
        match read_reply(Endpoint::LogsCount, reply) {
            Ok(count) => Ok(count.total),
            Err(error) => Err(error),
        }
    }

    /// The request that exports, as `format`, the records that meet `filters`,
    /// or `None` where an end of the time range cannot be written down.
    pub fn export_logs_request(&self, format: ExportFormat, filters: &LogFilters) -> (r: Option<
        Request,
    >)
        ensures
            r is Some <==> range_writable(filters@),
            r matches Some(request) ==> request.url@ == self.spec_url(Endpoint::Export)
                && request.query.deep_view() == export_query(format, filters@),
    {
        match range_texts(filters) {
            Some((start, end)) => Some(
                Request {
                    url: self.url(Endpoint::Export),
                    query: export_query_from(format, filters, start, end),
                },
            ),
            None => None,
        }
    }

    /// Reads the reply to an export: the bytes of the file, as they came.
    pub fn export_logs(&self, reply: Reply<Vec<u8>>) -> (r: Result<Vec<u8>, ApiError>)
        ensures
            r == reply_outcome(Endpoint::Export, reply),
    {
        read_reply(Endpoint::Export, reply)
    }

    /// The address of the live feed of new records.
    pub open spec fn spec_stream_url(self) -> Seq<char> {
        self.base() + "/api/logs/stream"@
    }

    /// The address of the live feed of new records. Nothing is sent.
    pub fn get_stream_url(&self) -> (r: String)
        ensures
            r@ == self.spec_stream_url(),
    {
        chain(self.base_url.as_str(), "/api/logs/stream")
    }

    /// Whether a login has been accepted in this session. The service may have
    /// ended the session since.
    pub fn has_session(&self) -> (r: bool)
        ensures
            r == self.session(),
    {
        self.authenticated
    }
}

} // verus!
