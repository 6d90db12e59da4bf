//! The login form.

use crate::input::{KeyCode, KeyEvent};
use crate::text::{pop_char, push_char};
use vstd::prelude::*;

verus! {

/// The field of the login form that the keys go to.
#[derive(Debug, Clone, Copy, PartialEq, Eq, Structural)]
pub enum LoginField {
    Username,
    Password,
}

impl LoginField {
    /// The other field.
    pub open spec fn other(self) -> LoginField {
        match self {
            LoginField::Username => LoginField::Password,
            LoginField::Password => LoginField::Username,
        }
    }
}

/// The login form: what was typed, where the keys go, the error of the last
/// attempt, and whether an attempt is under way.
#[derive(Debug)]
pub struct LoginState {
    pub username: String,
    pub password: String,
    pub active_field: LoginField,
    pub error_message: Option<String>,
    pub is_submitting: bool,
}

/// The login form as plain values.
pub struct LoginView {
    pub username: Seq<char>,
    pub password: Seq<char>,
    pub active_field: LoginField,
    pub error_message: Option<Seq<char>>,
    pub is_submitting: bool,
}

/// `text` without its last character; the empty text stays empty.
pub open spec fn erased(text: Seq<char>) -> Seq<char> {
    if text.len() > 0 {
        text.drop_last()
    } else {
        text
    }
}

impl LoginView {
    /// The empty form, with the keys going to the user name.
    pub open spec fn empty() -> LoginView {
        LoginView {
            username: Seq::empty(),
            password: Seq::empty(),
            active_field: LoginField::Username,
            error_message: None,
            is_submitting: false,
        }
    }

    /// Whether both fields are filled in.
    pub open spec fn is_complete(self) -> bool {
        self.username.len() > 0 && self.password.len() > 0
    }

    /// The text of the field that the keys go to.
    pub open spec fn active_text(self) -> Seq<char> {
        match self.active_field {
            LoginField::Username => self.username,
            LoginField::Password => self.password,
        }
    }

    /// The form with `text` in the field that the keys go to.
    pub open spec fn with_active_text(self, text: Seq<char>) -> LoginView {
        match self.active_field {
            LoginField::Username => LoginView { username: text, ..self },
            LoginField::Password => LoginView { password: text, ..self },
        }
    }

    /// The form after the key `key`: a character is appended to the active
    /// field, Backspace erases its last character, Tab moves to the other field,
    /// and every other key leaves the form as it is.
    pub open spec fn after_key(self, key: KeyEvent) -> LoginView {
        match key.code {
            KeyCode::Char(c) => self.with_active_text(self.active_text().push(c)),
            KeyCode::Backspace => self.with_active_text(erased(self.active_text())),
            KeyCode::Tab => LoginView { active_field: self.active_field.other(), ..self },
            _ => self,
        }
    }

    /// Whether the key `key` submits the form: Enter, with both fields filled in.
    pub open spec fn submits(self, key: KeyEvent) -> bool {
        key.code == KeyCode::Enter && self.is_complete()
    }

    /// The form showing the error `message`, with no attempt under way.
    pub open spec fn with_error(self, message: Seq<char>) -> LoginView {
        LoginView { error_message: Some(message), is_submitting: false, ..self }
    }

    /// The form showing no error.
    pub open spec fn without_error(self) -> LoginView {
        LoginView { error_message: None, ..self }
    }
}

impl View for LoginState {
    type V = LoginView;

    open spec fn view(&self) -> LoginView {
        LoginView {
            username: self.username@,
            password: self.password@,
            active_field: self.active_field,
            error_message: self.error_message.deep_view(),
            is_submitting: self.is_submitting,
        }
    }
}

impl Default for LoginState {
    fn default() -> (state: Self)
        ensures
            state@ == LoginView::empty(),
    {
        LoginState {
            username: String::new(),
            password: String::new(),
            active_field: LoginField::Username,
            error_message: None,
            is_submitting: false,
        }
    }
}

impl LoginState {
    /// Takes a key. Returns whether the form is to be submitted.
    pub fn handle_key(&mut self, key: KeyEvent) -> (submit: bool)
        ensures
            final(self)@ == old(self)@.after_key(key),
            submit == old(self)@.submits(key),
    {
        match key.code {
            KeyCode::Char(c) => {
                match self.active_field {
                    LoginField::Username => push_char(&mut self.username, c),
                    LoginField::Password => push_char(&mut self.password, c),
                }
                false
            },
            KeyCode::Backspace => {
                match self.active_field {
                    LoginField::Username => {
                        pop_char(&mut self.username);
                    },
                    LoginField::Password => {
                        pop_char(&mut self.password);
                    },
                }
                false
            },
            KeyCode::Tab => {
                self.active_field = match self.active_field {
                    LoginField::Username => LoginField::Password,
                    LoginField::Password => LoginField::Username,
                };
                false
            },
            KeyCode::Enter => {
                !self.username.as_str().is_empty() && !self.password.as_str().is_empty()
            },
            _ => false,
        }
    }

    /// Shows the error `message` and ends the attempt that is under way.
    pub fn set_error(&mut self, message: String)
        ensures
            final(self)@ == old(self)@.with_error(message@),
    {
        self.error_message = Some(message);
        self.is_submitting = false;
    }

    /// Shows no error any more.
    pub fn clear_error(&mut self)
        ensures
            final(self)@ == old(self)@.without_error(),
    {
        self.error_message = None;
    }
}

} // verus!
