use vstd::prelude::*;

use crate::hotkey::error_chain::error_message;
use error_location::ErrorLocation;

verus! {

/// What went wrong while the hotkey application started.
#[derive(Debug)]
pub enum AppError {
    /// The main window could not be opened.
    MainWindow { message: String, location: ErrorLocation },
    /// The hotkey backend could not be started.
    HotkeyRuntime { message: String, location: ErrorLocation },
}

impl AppError {
    /// The main window could not be opened, for the reason `error` prints.
    pub fn main_window(error: &anyhow::Error, location: ErrorLocation) -> (app_error: AppError)
        ensures
            app_error matches AppError::MainWindow { message, location: at } && at == location
                && exists|reason: Seq<char>| message@ == "Failed to open main window: "@ + reason,
    {
        Self::main_window_because(error_message(error).as_str(), location)
    }

    /// The main window could not be opened because of `reason`.
    pub fn main_window_because(reason: &str, location: ErrorLocation) -> (app_error: AppError)
        ensures
            app_error matches AppError::MainWindow { message, location: at } && message@
                == "Failed to open main window: "@ + reason@ && at == location,
    {
        let mut message = "Failed to open main window: ".to_owned();
        message.append(reason);
        AppError::MainWindow { message, location }
    }

    /// The hotkey backend could not be started, for the reason `error` prints.
    pub fn hotkey_runtime(error: &anyhow::Error, location: ErrorLocation) -> (app_error: AppError)
        ensures
            app_error matches AppError::HotkeyRuntime { message, location: at } && at == location
                && exists|reason: Seq<char>| message@ == "Failed to start hotkey runtime: "@ + reason,
    {
        Self::hotkey_runtime_because(error_message(error).as_str(), location)
    }

    /// The hotkey backend could not be started because of `reason`.
    pub fn hotkey_runtime_because(reason: &str, location: ErrorLocation) -> (app_error: AppError)
        ensures
            app_error matches AppError::HotkeyRuntime { message, location: at } && message@
                == "Failed to start hotkey runtime: "@ + reason@ && at == location,
    {
        let mut message = "Failed to start hotkey runtime: ".to_owned();
        message.append(reason);
        AppError::HotkeyRuntime { message, location }
    }

    /// The kind of error, as the report names it.
    pub fn message(&self) -> (text: &'static str)
        ensures
            text@ == (match self {
                AppError::MainWindow { .. } => "Main Window Error"@,
                AppError::HotkeyRuntime { .. } => "Hotkey Runtime Error"@,
            }),
    {
        match self {
            AppError::MainWindow { .. } => "Main Window Error",
            AppError::HotkeyRuntime { .. } => "Hotkey Runtime Error",
        }
    }

    /// Where the error was made.
    pub fn location(&self) -> (at: ErrorLocation)
        ensures
            at == (match self {
                AppError::MainWindow { location, .. } => *location,
                AppError::HotkeyRuntime { location, .. } => *location,
            }),
    {
        match self {
            AppError::MainWindow { location, .. } => *location,
            AppError::HotkeyRuntime { location, .. } => *location,
        }
    }
}

} // verus!
