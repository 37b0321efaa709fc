//! Why a tray operation failed.

use vstd::prelude::*;

verus! {

/// The error of a tray operation.
#[derive(Debug, PartialEq, Eq)]
pub enum TrayError {
    /// The application has no default window icon to put in the tray.
    NoDefaultIcon,
    /// A call on the GUI framework failed; the text is the framework's own.
    Framework(String),
}

/// The mathematical value of a [`TrayError`].
pub enum TrayErrorView {
    NoDefaultIcon,
    Framework(Seq<char>),
}

impl View for TrayError {
    type V = TrayErrorView;

    open spec fn view(&self) -> TrayErrorView {
        match *self {
            TrayError::NoDefaultIcon => TrayErrorView::NoDefaultIcon,
            TrayError::Framework(message) => TrayErrorView::Framework(message@),
        }
    }
}

impl TrayErrorView {
    /// The text shown to the user for this error.
    pub open spec fn message(self) -> Seq<char> {
        match self {
            TrayErrorView::NoDefaultIcon => "No default window icon available"@,
            TrayErrorView::Framework(message) => message,
        }
    }
}

impl TrayError {
    /// The text shown to the user for this error: the framework's message, or
    /// a fixed sentence where the default icon is missing.
    pub fn message(&self) -> (text: String)
        ensures
            text@ == self@.message(),
    {
        match self {
            TrayError::NoDefaultIcon => "No default window icon available".to_owned(),
            TrayError::Framework(message) => message.clone(),
        }
    }
}

/// The mathematical value of the result of a tray operation.
pub open spec fn result_view(result: Result<(), TrayError>) -> Result<(), TrayErrorView> {
    match result {
        Ok(_) => Ok(()),
        Err(error) => Err(error@),
    }
}

} // verus!
