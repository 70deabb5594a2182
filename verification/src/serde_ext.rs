//! The versioned session envelope that saved sessions travel in.

use vstd::prelude::*;
use crate::models::Session;

verus! {

/// Wire/disk format version. Bumped, with a migration, when `Session` changes
/// shape.
pub const SESSION_FORMAT_VERSION: u8 = 1;

/// A session tagged with the format version it was written in.
#[derive(Clone, Debug, PartialEq)]
pub struct SessionEnvelope {
    pub version: u8,
    pub session: Session,
}

impl SessionEnvelope {
    pub fn wrap(session: Session) -> (e: Self)
        ensures
            e.version == SESSION_FORMAT_VERSION,
            e.session == session,
    {
        SessionEnvelope { version: SESSION_FORMAT_VERSION, session }
    }
}

} // verus!
