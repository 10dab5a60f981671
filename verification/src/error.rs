use vstd::prelude::*;

verus! {

/// The recoverable failures surfaced by the registry's reference handles.
///
/// Lock poisoning and builder misuse are not represented here: they are
/// programming errors, and the registry treats them as fatal rather than
/// returning them to the caller.
#[derive(Debug)]
pub enum AppContextError {
    /// A resolved object cannot present the requested capability view.
    UnsupportedCast { obj_name: String, obj_type: String, expected_type: String },
    /// The registry and all of its objects no longer exist.
    AppContextDropped,
    /// No compatible object was ever registered; discovered lazily.
    ObjectNotFound { obj_name: String, obj_type: String },
    /// Catch-all for conditions not otherwise classified.
    UnexpectedError(String),
}

pub type AppContextResult<T> = Result<T, AppContextError>;

} // verus!
