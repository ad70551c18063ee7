//! The errors of a virtual server.

use vstd::prelude::*;

verus! {

/// Why a request to a virtual server failed. `T` is the error of the
/// handler behind the server.
#[derive(Clone, Debug)]
pub enum VirtualServerError<T> {
    /// The handler failed.
    InternalError(T),
    /// The request could not be decoded; the text is the decoder's.
    DecodeError(String),
    /// The response could not be encoded; the text is the encoder's.
    EncodeError(String),
    /// No view goes by this name.
    UnknownViewId(String),
    /// The data could not be written as JSON; the text is the writer's.
    InvalidJSON(String),
    Other(String),
}

impl<T> VirtualServerError<T> {
    /// The text that shows an error of the server's own. The handler's
    /// errors are shown by the handler.
    pub open spec fn text(self) -> Seq<char> {
        match self {
            VirtualServerError::InternalError(_) => Seq::empty(),
            VirtualServerError::DecodeError(msg) => msg@,
            VirtualServerError::EncodeError(msg) => msg@,
            VirtualServerError::UnknownViewId(id) => "View not found '"@ + id@ + "'"@,
            VirtualServerError::InvalidJSON(msg) => "Invalid JSON'"@ + msg@ + "'"@,
            VirtualServerError::Other(msg) => msg@,
        }
    }
}

impl VirtualServerError<String> {
    /// The text that shows the error, where the handler's error is held as
    /// the text that shows it.
    pub open spec fn full_text(self) -> Seq<char> {
        match self {
            VirtualServerError::InternalError(detail) => "External Error: "@ + detail@,
            other => other.text(),
        }
    }

    pub fn to_string(&self) -> (out: String)
        ensures
            out@ == self.full_text(),
    {
        match self {
            VirtualServerError::InternalError(detail) => "External Error: ".to_owned().concat(
                detail.as_str(),
            ),
            VirtualServerError::DecodeError(msg) => msg.clone(),
            VirtualServerError::EncodeError(msg) => msg.clone(),
            VirtualServerError::UnknownViewId(id) => "View not found '".to_owned().concat(
                id.as_str(),
            ).concat("'"),
            VirtualServerError::InvalidJSON(msg) => "Invalid JSON'".to_owned().concat(
                msg.as_str(),
            ).concat("'"),
            VirtualServerError::Other(msg) => msg.clone(),
        }
    }
}

/// Tells the handler's errors from the server's own.
pub trait ResultExt<X, T> {
    /// `Ok` as it is; the handler's error as `Err(Ok(..))`; an error of the
    /// server's own as `Err(Err(..))`, with the text that shows it.
    fn get_internal_error(self) -> Result<X, Result<T, String>>;
}

impl<X, T> ResultExt<X, T> for Result<X, VirtualServerError<T>> {
    fn get_internal_error(self) -> (out: Result<X, Result<T, String>>)
        ensures
            match self {
                Ok(x) => out == Ok::<X, Result<T, String>>(x),
                Err(VirtualServerError::InternalError(e)) => out == Err::<X, Result<T, String>>(
                    Ok(e),
                ),
                Err(other) => out is Err && out->Err_0 is Err && out->Err_0->Err_0@
                    == other.text(),
            },
    {
        match self {
            Ok(x) => Ok(x),
            Err(VirtualServerError::InternalError(e)) => Err(Ok(e)),
            Err(VirtualServerError::DecodeError(msg)) => Err(Err(msg)),
            Err(VirtualServerError::EncodeError(msg)) => Err(Err(msg)),
            Err(VirtualServerError::UnknownViewId(id)) => Err(
                Err("View not found '".to_owned().concat(id.as_str()).concat("'")),
            ),
            Err(VirtualServerError::InvalidJSON(msg)) => Err(
                Err("Invalid JSON'".to_owned().concat(msg.as_str()).concat("'")),
            ),
            Err(VirtualServerError::Other(msg)) => Err(Err(msg)),
        }
    }
}

} // verus!
