//! A client runtime for the Matrix client-server API.
//!
//! The library holds the decisions of the client: the session store, the
//! request-dispatch pipeline as a state machine that the caller drives with
//! the outcome of each outside step, and the sync polling state machine.
use vstd::prelude::*;

pub mod dispatch;
pub mod error;
pub mod session;
pub mod sync;
pub mod target;

pub use crate::error::{ClientError, ErrorKind, HttpRequesterError, InnerError};
pub use crate::session::{Session, SessionStore};
