//! The validation gate in front of the post handler.
//!
//! The HTTP layer parses a post body into its text field, refusing a body
//! that is not JSON of the expected shape or that is larger than
//! [`POST_BODY_LIMIT`]. Either way the outcome comes here: an accepted text
//! goes on to the post handler, a refusal becomes an error answer. Both
//! paths charge the worker's tally exactly once.
use vstd::prelude::*;
use actix_web::error::JsonPayloadError;
use crate::instance::{ServerInstance, answered_by, charged};
use crate::response::{PostError, PostResponse};
use crate::store::{MessageLog, appended};

verus! {

#[verifier::external_type_specification]
#[verifier::external_body]
pub struct ExJsonPayloadError(JsonPayloadError);

/// Largest post body accepted, in bytes; a larger one is refused like a
/// malformed one.
pub const POST_BODY_LIMIT: usize = 4096;

/// Relies on the `Display` impl of actix_web's `JsonPayloadError`: each
/// variant's message begins with fixed, non-empty text.
#[verifier::external_body]
fn describe(err: &JsonPayloadError) -> (r: String)
    ensures
        r@.len() > 0,
{
    format!("{}", err)
}

impl ServerInstance {
    /// Answers a refused post body: charges the request and says what was
    /// wrong, leaving the log alone.
    pub fn post_error(&mut self, err: &JsonPayloadError) -> (r: PostError)
        requires
            old(self).count() < usize::MAX,
        ensures
            charged(*old(self), *final(self)),
            answered_by(r.server_id, r.request_count, *final(self)),
            r.error@.len() > 0,
    {
        let request_count = self.increment_and_get();
        PostError { server_id: self.server_id(), request_count, error: describe(err) }
    }

    /// Handles a post whose body the HTTP layer has parsed into `body`: an
    /// accepted text is appended and echoed, a refused body is answered
    /// with an error and leaves the log as it was.
    pub fn send(&mut self, log: &mut MessageLog, body: Result<String, JsonPayloadError>) -> (r:
        Result<PostResponse, PostError>)
        requires
            old(self).count() < usize::MAX,
        ensures
            charged(*old(self), *final(self)),
            r is Ok <==> body is Ok,
            body matches Ok(m) ==> {
                &&& r matches Ok(p)
                &&& answered_by(p.server_id, p.request_count, *final(self))
                &&& p.message@ == m@
                &&& final(log)@ == appended(old(log)@, m@)
            },
            body is Err ==> {
                &&& r matches Err(e)
                &&& answered_by(e.server_id, e.request_count, *final(self))
                &&& e.error@.len() > 0
                &&& final(log)@ == old(log)@
            },
    {
        match body {
            Ok(message) => Ok(self.post(log, message)),
            Err(err) => Err(self.post_error(&err)),
        }
    }
}

} // verus!
