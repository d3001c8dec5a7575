use vstd::prelude::*;
use crate::error::AppResponseError;

verus! {

/// A plain message body.
#[derive(Clone, PartialEq, Eq, Debug)]
pub struct MessageResponse {
    pub message: String,
}

impl MessageResponse {
    /// Wraps a message.
    pub fn new(message: String) -> (r: MessageResponse)
        ensures
            r.message == message,
    {
        MessageResponse { message }
    }
}

/// A response that either carries a payload or reports an error.
#[derive(Clone, PartialEq, Eq, Debug)]
pub enum AppResultResponse<R> {
    Failure(AppResponseError),
    Success(R),
}

impl<R> AppResultResponse<R> {
    /// Whether the response carries a payload.
    pub fn is_ok(&self) -> (b: bool)
        ensures
            b == (self is Success),
    {
        match self {
            AppResultResponse::Success(_) => true,
            AppResultResponse::Failure(_) => false,
        }
    }

    /// Whether the response reports an error.
    pub fn is_err(&self) -> (b: bool)
        ensures
            b == !(self is Success),
    {
        !self.is_ok()
    }
}

/// Liveness of the process's side services.
#[derive(Clone, Copy, PartialEq, Eq, Structural, Debug)]
pub struct ServiceStatusResponse {
    pub db: bool,
    pub redis: bool,
    pub email: bool,
}

} // verus!
