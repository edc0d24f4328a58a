//! Errors shown to the user, and the list that collects them.

use vstd::prelude::*;

use image::ImageError;

use crate::pixels::error_text;

verus! {

/// Whether an error is real or only marks a benign outcome.
#[derive(Clone, Copy, Debug, PartialEq, Eq, Structural)]
pub enum ErrorType {
    /// An error to show.
    Normal,
    /// A benign outcome that is never shown, such as a file dialog closed
    /// without a choice.
    Fake,
}

/// An error with its message.
#[derive(Clone, Debug)]
pub struct AppError {
    /// Error message.
    pub message: String,
    /// Real or benign.
    pub error_type: ErrorType,
}

impl AppError {
    pub open spec fn fake(self) -> bool {
        self.error_type == ErrorType::Fake
    }

    /// A real error.
    pub fn new(message: String) -> (r: AppError)
        ensures
            r.message == message,
            !r.fake(),
    {
        AppError { message, error_type: ErrorType::Normal }
    }

    /// A benign outcome that callers drop instead of showing.
    pub fn new_fake(message: String) -> (r: AppError)
        ensures
            r.message == message,
            r.fake(),
    {
        AppError { message, error_type: ErrorType::Fake }
    }

    /// The error only marks a benign outcome.
    pub fn is_fake(&self) -> (r: bool)
        ensures
            r == self.fake(),
    {
        match self.error_type {
            ErrorType::Fake => true,
            ErrorType::Normal => false,
        }
    }

    /// A real error that carries the message of an image error.
    pub fn from_image_error(error: &ImageError) -> (r: AppError)
        ensures
            !r.fake(),
    {
        AppError::new(error_text(error))
    }
}

impl Default for AppError {
    /// A real error with an empty message.
    fn default() -> (r: AppError)
        ensures
            r.message@ == Seq::<char>::empty(),
            !r.fake(),
    {
        AppError::new(String::new())
    }
}

impl From<String> for AppError {
    fn from(message: String) -> (r: AppError) {
        AppError::new(message)
    }
}

impl vstd::std_specs::convert::FromSpecImpl<String> for AppError {
    open spec fn obeys_from_spec() -> bool {
        true
    }

    open spec fn from_spec(message: String) -> AppError {
        AppError { message, error_type: ErrorType::Normal }
    }
}

/// The errors gathered since the user last dismissed them, and whether their
/// window is open.
#[derive(Debug)]
pub struct ErrorManager {
    /// List of errors.
    pub errors: Vec<AppError>,
    /// The window is open.
    pub is_open: bool,
    /// The window was open in the previous frame.
    pub was_open: bool,
}

impl Default for ErrorManager {
    /// No errors, window closed.
    fn default() -> (r: ErrorManager)
        ensures
            r.errors@.len() == 0,
            !r.is_open,
            !r.was_open,
    {
        ErrorManager::new()
    }
}

impl ErrorManager {
    /// No errors, window closed.
    pub fn new() -> (r: ErrorManager)
        ensures
            r.errors@.len() == 0,
            !r.is_open,
            !r.was_open,
    {
        ErrorManager { errors: Vec::new(), is_open: false, was_open: false }
    }

    /// Records `error`, unless it only marks a benign outcome.
    pub fn add_error(&mut self, error: AppError)
        ensures
            final(self).is_open == old(self).is_open,
            final(self).was_open == old(self).was_open,
            final(self).errors@ == if error.fake() {
                old(self).errors@
            } else {
                old(self).errors@.push(error)
            },
    {
        if error.is_fake() {
            return;
        }
        self.errors.push(error);
    }

    /// The value of `result`, or `None` after recording its error.
    pub fn handle_error<T>(&mut self, result: Result<T, AppError>) -> (r: Option<T>)
        ensures
            final(self).is_open == old(self).is_open,
            final(self).was_open == old(self).was_open,
            match result {
                Ok(v) => r == Some(v) && final(self).errors@ == old(self).errors@,
                Err(e) => r is None && final(self).errors@ == if e.fake() {
                    old(self).errors@
                } else {
                    old(self).errors@.push(e)
                },
            },
    {
        match result {
            Ok(value) => Some(value),
            Err(e) => {
                self.add_error(e);
                None
            },
        }
    }

    /// Title of the error window.
    pub fn title(&self) -> (r: &'static str)
        ensures
            r@ == "Error window"@,
    {
        proof {
            reveal_strlit("Error window");
        }
        "Error window"
    }

    /// Before the window is drawn: new errors open it.
    pub fn prepare_show(&mut self)
        ensures
            final(self).errors == old(self).errors,
            final(self).was_open == old(self).was_open,
            final(self).is_open == (old(self).is_open || (!old(self).was_open
                && old(self).errors@.len() > 0)),
    {
        if !self.was_open && self.errors.len() > 0 {
            self.is_open = true;
        }
    }

    /// After the window is drawn: closing it dismisses the errors.
    pub fn finish_show(&mut self)
        ensures
            final(self).is_open == old(self).is_open,
            final(self).was_open == old(self).is_open,
            final(self).errors@ == if old(self).is_open {
                old(self).errors@
            } else {
                Seq::empty()
            },
    {
        if !self.is_open {
            self.errors.clear();
        }
        self.was_open = self.is_open;
    }

    /// Dismisses every error.
    pub fn clear_errors(&mut self)
        ensures
            final(self).errors@ == Seq::<AppError>::empty(),
            final(self).is_open == old(self).is_open,
            final(self).was_open == old(self).was_open,
    {
        self.errors.clear();
    }
}

} // verus!
