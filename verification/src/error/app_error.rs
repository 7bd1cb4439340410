use vstd::prelude::*;

use error_location::ErrorLocation;

verus! {

/// What went wrong, as the template's first error type names it.
#[derive(Debug)]
pub enum AppError {
    /// Something that was not expected.
    Unexpected { message: String, location: ErrorLocation },
    /// The theme directory at `path` could not be used.
    ThemeDirectory { path: String, message: String, location: ErrorLocation },
}

impl AppError {
    /// An unexpected error with `message`.
    pub fn unexpected(message: &str, location: ErrorLocation) -> (app_error: AppError)
        ensures
            app_error matches AppError::Unexpected { message: m, location: at } && m@ == message@ && at
                == location,
    {
        AppError::Unexpected { message: message.to_owned(), location }
    }

    /// The theme directory at `path` could not be used, as `message` says.
    pub fn theme_directory(path: &str, message: &str, location: ErrorLocation) -> (app_error: AppError)
        ensures
            app_error matches AppError::ThemeDirectory { path: p, message: m, location: at } && p@ == path@
                && m@ == message@ && at == location,
    {
        AppError::ThemeDirectory { path: path.to_owned(), message: message.to_owned(), location }
    }

    /// The kind of error, as the report names it.
    pub fn message(&self) -> (text: &'static str)
        ensures
            text@ == (match self {
                AppError::Unexpected { .. } => "Unexpected Error"@,
                AppError::ThemeDirectory { .. } => "Theme Directory Error"@,
            }),
    {
        match self {
            AppError::Unexpected { .. } => "Unexpected Error",
            AppError::ThemeDirectory { .. } => "Theme Directory Error",
        }
    }

    /// Where the error was made.
    pub fn location(&self) -> (at: ErrorLocation)
        ensures
            at == (match self {
                AppError::Unexpected { location, .. } => *location,
                AppError::ThemeDirectory { location, .. } => *location,
            }),
    {
        match self {
            AppError::Unexpected { location, .. } => *location,
            AppError::ThemeDirectory { location, .. } => *location,
        }
    }
}

} // verus!
