//! The error body a BMC returns: `{"error": {"code", "message", "@Message.ExtendedInfo"}}`.
use vstd::prelude::*;

use crate::model::Message;

verus! {

#[derive(Clone, Debug)]
pub struct Error {
    pub error: ErrorInternal,
}

#[derive(Clone, Debug)]
pub struct ErrorInternal {
    pub code: String,
    pub message: String,
    pub extended: Vec<Message>,
}

} // verus!
