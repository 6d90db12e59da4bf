//! State of the screens: the login form, the filter panel and the log view.

pub mod filters;
pub mod login;
pub mod logs;

pub use filters::{FilterField, FilterState, TimeRangePreset};
pub use login::{LoginField, LoginState};
pub use logs::LogsViewState;
