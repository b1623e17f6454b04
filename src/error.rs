//! Errors shared by several parts of the tool.

use vstd::prelude::*;

verus! {

/// A plugin or version named in an invocation could not be found.
#[derive(Clone, Copy, Debug, PartialEq, Eq, Structural)]
pub enum NotFoundError {
    /// The plugin is not in the manifest.
    ManifestPlugin,
    /// The API has no such plugin.
    ApiPlugin,
    /// The plugin has no such version.
    Version,
}

impl NotFoundError {
    /// The message that describes this error.
    pub fn message(&self) -> (r: &'static str)
        ensures
            r@ == match *self {
                NotFoundError::ManifestPlugin => "Plugin was not found in the manifest."@,
                NotFoundError::ApiPlugin => "Could not find plugin in API."@,
                NotFoundError::Version => "Could not find this version of the plugin."@,
            },
    {
        match self {
            NotFoundError::ManifestPlugin => "Plugin was not found in the manifest.",
            NotFoundError::ApiPlugin => "Could not find plugin in API.",
            NotFoundError::Version => "Could not find this version of the plugin.",
        }
    }
}

/// An error of a request to a plugin API.
#[derive(Clone, Debug, PartialEq, Eq)]
pub enum ApiError {
    /// The API answered that the resource or version does not exist.
    NotFound(NotFoundError),
    /// The API answered with a status that is neither success nor "not found".
    UnexpectedHttpStatus(u16),
    /// An address of the API could not be formed.
    InvalidUrl,
    /// The request could not be sent or its answer not be read.
    Transport(String),
    /// The answer's body was not the expected JSON.
    Deserialize(String),
}

/// The outcome of an answer's HTTP status: 200 means success, 404 means that the thing
/// asked for does not exist, and any other status is unexpected.
pub open spec fn status_outcome(status: u16, missing: NotFoundError) -> Result<(), ApiError> {
    if status == 200 {
        Ok(())
    } else if status == 404 {
        Err(ApiError::NotFound(missing))
    } else {
        Err(ApiError::UnexpectedHttpStatus(status))
    }
}

/// Classifies the HTTP status of an API answer; `missing` is the error that a 404 means.
pub fn check_status(status: u16, missing: NotFoundError) -> (r: Result<(), ApiError>)
    ensures
        r == status_outcome(status, missing),
{
    if status == 200 {
        Ok(())
    } else if status == 404 {
        Err(ApiError::NotFound(missing))
    } else {
        Err(ApiError::UnexpectedHttpStatus(status))
    }
}

} // verus!
