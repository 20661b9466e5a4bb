use vstd::prelude::*;

verus! {

/// Errors reported by menu operations.
#[non_exhaustive]
#[derive(Debug, Clone, PartialEq, Eq)]
pub enum Error {
    /// The item is not a child of this `Menu` or `Submenu`.
    NotAChildOfThisMenu,
    /// The menu has not been attached to this window.
    NotInitialized,
    /// The menu has already been attached to this window.
    AlreadyInitialized,
    /// An accelerator's text could not be parsed; holds the offending text.
    AcceleratorParseError(String),
}

impl Error {
    /// A sentence that describes the error.
    pub fn message(&self) -> (r: String)
        ensures
            self is NotAChildOfThisMenu ==> r@ == "This menu item is not a child of this `Menu` or `Submenu`"@,
            self is NotInitialized ==> r@ == "This menu has not been initialized for this hwnd"@,
            self is AlreadyInitialized ==> r@ == "This menu has already been initialized for this hwnd"@,
            self is AcceleratorParseError ==> r@ == self->AcceleratorParseError_0@,
    {
        match self {
            Error::NotAChildOfThisMenu => "This menu item is not a child of this `Menu` or `Submenu`".to_owned(),
            Error::NotInitialized => "This menu has not been initialized for this hwnd".to_owned(),
            Error::AlreadyInitialized => "This menu has already been initialized for this hwnd".to_owned(),
            Error::AcceleratorParseError(text) => text.clone(),
        }
    }
}

/// The result type of menu operations.
pub type Result<T> = core::result::Result<T, Error>;

} // verus!
