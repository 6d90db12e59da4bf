//! Records of the log service and the criteria of a query.

use crate::time::Timestamp;
use vstd::prelude::*;

verus! {

/// Number of records a query asks for when nothing else is said.
pub const DEFAULT_LIMIT: usize = 100;

/// Severity of a record, from the least to the most severe.
#[derive(Debug, Clone, Copy, PartialEq, Eq, Structural)]
pub enum LogLevel {
    Debug,
    Info,
    Warn,
    Error,
    Fatal,
}

impl LogLevel {
    /// The name of the level as the service writes it.
    pub open spec fn name(self) -> Seq<char> {
        match self {
            LogLevel::Debug => "DEBUG"@,
            LogLevel::Info => "INFO"@,
            LogLevel::Warn => "WARN"@,
            LogLevel::Error => "ERROR"@,
            LogLevel::Fatal => "FATAL"@,
        }
    }

    /// The levels in rising order of severity.
    pub open spec fn ordered() -> Seq<LogLevel> {
        seq![LogLevel::Debug, LogLevel::Info, LogLevel::Warn, LogLevel::Error, LogLevel::Fatal]
    }

    /// The names of the levels, in rising order of severity.
    pub open spec fn names() -> Seq<Seq<char>> {
        seq!["DEBUG"@, "INFO"@, "WARN"@, "ERROR"@, "FATAL"@]
    }

    /// The name of the level as the service writes it.
    pub fn as_str(&self) -> (s: &'static str)
        ensures
            s@ == self.name(),
    {
        match self {
            LogLevel::Debug => "DEBUG",
            LogLevel::Info => "INFO",
            LogLevel::Warn => "WARN",
            LogLevel::Error => "ERROR",
            LogLevel::Fatal => "FATAL",
        }
    }

    /// The levels in rising order of severity.
    pub fn all() -> (levels: Vec<LogLevel>)
        ensures
            levels@ == Self::ordered(),
    {
        let mut levels: Vec<LogLevel> = Vec::new();
        levels.push(LogLevel::Debug);
        levels.push(LogLevel::Info);
        levels.push(LogLevel::Warn);
        levels.push(LogLevel::Error);
        levels.push(LogLevel::Fatal);
        assert(levels@ =~= Self::ordered());
        levels
    }
}

/// The names of the levels are pairwise different, and `names` lists the name
/// of each level of `ordered` at the same place.
pub proof fn lemma_level_names()
    ensures
        LogLevel::names().len() == 5,
        LogLevel::ordered().len() == 5,
        forall|i: int| 0 <= i < 5 ==> LogLevel::names()[i] == #[trigger] LogLevel::ordered()[i].name(),
        forall|i: int, j: int|
            0 <= i < j < 5 ==> #[trigger] LogLevel::names()[i] != #[trigger] LogLevel::names()[j],
{
    reveal_strlit("DEBUG");
    reveal_strlit("INFO");
    reveal_strlit("WARN");
    reveal_strlit("ERROR");
    reveal_strlit("FATAL");
    let names = LogLevel::names();
    assert(names[0].len() == 5 && names[0][0] == 'D');
    assert(names[1].len() == 4 && names[1][0] == 'I');
    assert(names[2].len() == 4 && names[2][0] == 'W');
    assert(names[3].len() == 5 && names[3][0] == 'E');
    assert(names[4].len() == 5 && names[4][0] == 'F');
}

/// One record of the log service. It is not changed after it has been received.
#[derive(Debug, Clone, PartialEq, Eq)]
pub struct Log {
    pub id: i64,
    pub app_id: i64,
    pub app_name: String,
    pub level: String,
    pub message: String,
    /// The structured payload, as JSON text.
    pub structured_data: Option<String>,
    /// The tags, each a key with its value, in the order they are shown.
    pub tags: Option<Vec<(String, String)>>,
    pub timestamp: Timestamp,
    pub created_at: Timestamp,
}

/// The criteria of a query. An empty `levels` means every level. The time range
/// runs from `start_time` up to, not including, `end_time`.
#[derive(Debug, Clone, PartialEq, Eq)]
pub struct LogFilters {
    pub app_id: Option<i64>,
    pub levels: Vec<String>,
    pub search: Option<String>,
    pub start_time: Option<Timestamp>,
    pub end_time: Option<Timestamp>,
    pub limit: usize,
    pub offset: usize,
}

/// The criteria of a query as plain values: what `LogFilters` stands for.
pub struct FilterCriteria {
    pub app_id: Option<i64>,
    pub levels: Seq<Seq<char>>,
    pub search: Option<Seq<char>>,
    pub start_time: Option<Timestamp>,
    pub end_time: Option<Timestamp>,
    pub limit: usize,
    pub offset: usize,
}

impl FilterCriteria {
    /// The criteria that select everything: no application, no level, no text,
    /// no time range, the first `DEFAULT_LIMIT` records.
    pub open spec fn unrestricted() -> FilterCriteria {
        FilterCriteria {
            app_id: None,
            levels: Seq::empty(),
            search: None,
            start_time: None,
            end_time: None,
            limit: DEFAULT_LIMIT,
            offset: 0,
        }
    }

    /// Whether a record of the level named `level` meets the level criterion:
    /// with no level selected every record does, else those of a selected level.
    pub open spec fn admits_level(self, level: Seq<char>) -> bool {
        self.levels.len() == 0 || self.levels.contains(level)
    }
}

impl View for LogFilters {
    type V = FilterCriteria;

    open spec fn view(&self) -> FilterCriteria {
        FilterCriteria {
            app_id: self.app_id,
            levels: self.levels.deep_view(),
            search: self.search.deep_view(),
            start_time: self.start_time,
            end_time: self.end_time,
            limit: self.limit,
            offset: self.offset,
        }
    }
}

impl Default for LogFilters {
    fn default() -> (filters: Self)
        ensures
            filters@ == FilterCriteria::unrestricted(),
    {
        let filters = LogFilters {
            app_id: None,
            levels: Vec::new(),
            search: None,
            start_time: None,
            end_time: None,
            limit: DEFAULT_LIMIT,
            offset: 0,
        };
        assert(filters.levels.deep_view() =~= Seq::empty());
        filters
    }
}

/// A source of records that a query can be narrowed to.
#[derive(Debug, PartialEq, Eq)]
pub struct Application {
    pub id: i64,
    pub name: String,
    pub created_at: Timestamp,
}

impl Clone for Application {
    fn clone(&self) -> (copy: Self)
        ensures
            copy == *self,
    {
        Application { id: self.id, name: self.name.clone(), created_at: self.created_at }
    }
}

/// Body of the login request.
#[derive(Debug, PartialEq, Eq)]
pub struct LoginRequest {
    pub username: String,
    pub password: String,
}

/// Body of the reply to a login that was accepted.
#[derive(Debug, PartialEq, Eq)]
pub struct LoginResponse {
    pub message: String,
    pub username: String,
    pub role: String,
    pub full_name: Option<String>,
}

/// Body of the reply to a count query.
#[derive(Debug, PartialEq, Eq)]
pub struct LogsCountResponse {
    pub total: u64,
}

/// File format of an export.
#[derive(Debug, Clone, Copy, PartialEq, Eq, Structural)]
pub enum ExportFormat {
    Json,
    Csv,
}

impl ExportFormat {
    /// The name of the format, which is also the file extension.
    pub open spec fn name(self) -> Seq<char> {
        match self {
            ExportFormat::Json => "json"@,
            ExportFormat::Csv => "csv"@,
        }
    }

    /// The name of the format, which is also the file extension.
    pub fn as_str(&self) -> (s: &'static str)
        ensures
            s@ == self.name(),
    {
        match self {
            ExportFormat::Json => "json",
            ExportFormat::Csv => "csv",
        }
    }
}

} // verus!
