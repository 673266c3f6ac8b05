//! The life of a session: made once, handed out in an envelope, released
//! once.

use vstd::prelude::*;
use crate::envelope::ResultWrap;
use crate::error::Error;
use crate::release::{release_text, session_release_order, Release};

verus! {

/// Wraps what came of asking the engine for a session: the session as the
/// payload of a success, or `CannotCreateSession` with the words of what
/// failed as the diagnostic.
pub fn magika_session_new(outcome: Result<magika::Session, String>) -> (envelope: ResultWrap<
    magika::Session,
>)
    ensures
        outcome matches Ok(session) ==> envelope.is_success(session),
        outcome matches Err(why) ==> envelope.is_failure(Error::CannotCreateSession, Some(why@)),
        envelope.well_formed(),
{
    ResultWrap::from_outcome(outcome, Error::CannotCreateSession)
}

/// Releases the envelope of a session and what it owns: the engine's state
/// first, then the diagnostic, then the envelope, each only if it is there.
/// A null envelope is left alone. The steps taken are handed back in order.
pub fn magika_session_free(session: Option<ResultWrap<magika::Session>>) -> (released: Vec<Release>)
    ensures
        released@ == session_release_order(session),
        session is None ==> released@.len() == 0,
{
    let mut released: Vec<Release> = Vec::new();
    let envelope = match session {
        Some(envelope) => envelope,
        None => {
            return released;
        },
    };
    let ResultWrap { pointer, error: _, error_message } = envelope;
    if let Some(state) = pointer {
        release_state(state, &mut released);
    }
    if let Some(message) = error_message {
        release_text(message, Release::Diagnostic, &mut released);
    }
    released.push(Release::Envelope);
    assert(released@ =~= session_release_order(session));
    released
}

/// Releases the engine's state and notes the step.
fn release_state(state: magika::Session, released: &mut Vec<Release>)
    ensures
        final(released)@ == old(released)@.push(Release::EngineState),
{
    released.push(Release::EngineState);
    // `state` ends here, which closes the engine's session.
}

} // verus!
