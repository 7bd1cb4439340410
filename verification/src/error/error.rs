use vstd::prelude::*;

use crate::hotkey::error_chain::error_message;
use error_location::ErrorLocation;

verus! {

/// What went wrong while the template application started.
#[derive(Debug)]
pub enum AppError {
    /// The main window could not be opened.
    MainWindow { message: String, location: ErrorLocation },
    /// The theme directory could not be watched.
    ThemeDirectory { path: String, message: String, location: ErrorLocation },
}

impl AppError {
    /// The main window could not be opened, for the reason `error` prints.
    pub fn main_window(error: &anyhow::Error, location: ErrorLocation) -> (app_error: AppError)
        ensures
            app_error matches AppError::MainWindow { message, location: at } && at == location
                && exists|reason: Seq<char>| message@ == "Failed to open main window "@ + reason,
    {
        Self::main_window_because(error_message(error).as_str(), location)
    }

    /// The main window could not be opened because of `reason`.
    pub fn main_window_because(reason: &str, location: ErrorLocation) -> (app_error: AppError)
        ensures
            app_error matches AppError::MainWindow { message, location: at } && message@
                == "Failed to open main window "@ + reason@ && at == location,
    {
        let mut message = "Failed to open main window ".to_owned();
        message.append(reason);
        AppError::MainWindow { message, location }
    }

    /// The theme directory at `path` could not be watched, for the reason `error` prints.
    pub fn theme_directory(path: &str, error: &anyhow::Error, location: ErrorLocation) -> (app_error: AppError)
        ensures
            app_error matches AppError::ThemeDirectory { path: p, message, location: at } && p@ == path@
                && at == location && exists|reason: Seq<char>|
                message@ == "Failed to access theme directory: "@ + reason,
    {
        Self::theme_directory_because(path, error_message(error).as_str(), location)
    }

    /// The theme directory at `path` could not be watched because of `reason`.
    pub fn theme_directory_because(path: &str, reason: &str, location: ErrorLocation) -> (app_error: AppError)
        ensures
            app_error matches AppError::ThemeDirectory { path: p, message, location: at } && p@ == path@
                && message@ == "Failed to access theme directory: "@ + reason@ && at == location,
    {
        let mut message = "Failed to access theme directory: ".to_owned();
        message.append(reason);
        AppError::ThemeDirectory { path: path.to_owned(), message, location }
    }

    /// The kind of error, as the report names it.
    pub fn message(&self) -> (text: &'static str)
        ensures
            text@ == (match self {
                AppError::MainWindow { .. } => "Main Window Error"@,
                AppError::ThemeDirectory { .. } => "Theme Directory Error"@,
            }),
    {
        match self {
            AppError::MainWindow { .. } => "Main Window Error",
            AppError::ThemeDirectory { .. } => "Theme Directory Error",
        }
    }

    /// Where the error was made.
    pub fn location(&self) -> (at: ErrorLocation)
        ensures
            at == (match self {
                AppError::MainWindow { location, .. } => *location,
                AppError::ThemeDirectory { location, .. } => *location,
            }),
    {
        match self {
            AppError::MainWindow { location, .. } => *location,
            AppError::ThemeDirectory { location, .. } => *location,
        }
    }
}

} // verus!
