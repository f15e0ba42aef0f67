//! Confirming a subscriber by the token from the confirmation link.
use crate::response::HttpStatus;
use crate::store::{StorageError, SubscriberId, SubscriberStore, confirm_rows, lookup_token};
use vstd::prelude::*;

verus! {

/// The query of a confirmation link.
pub struct Parameters {
    pub subscription_token: String,
}

/// What follows the lookup of a token.
#[derive(Clone, Copy, Debug, PartialEq, Eq, Structural)]
pub enum ConfirmStep {
    MarkConfirmed(SubscriberId),
    Respond(HttpStatus),
}

/// After the lookup: a storage failure is a server error, an unknown token
/// is unauthorized, a known one is confirmed next.
pub fn after_lookup(found: Result<Option<SubscriberId>, StorageError>) -> (r: ConfirmStep)
    ensures
        found is Err ==> r == ConfirmStep::Respond(HttpStatus::InternalServerError),
        found == Ok::<Option<SubscriberId>, StorageError>(None) ==> r == ConfirmStep::Respond(
            HttpStatus::Unauthorized,
        ),
        found matches Ok(Some(id)) ==> r == ConfirmStep::MarkConfirmed(id),
{
    match found {
        Err(_) => ConfirmStep::Respond(HttpStatus::InternalServerError),
        Ok(None) => ConfirmStep::Respond(HttpStatus::Unauthorized),
        Ok(Some(id)) => ConfirmStep::MarkConfirmed(id),
    }
}

/// After the status update: a storage failure is a server error, else the
/// subscriber is confirmed.
pub fn after_mark_confirmed(marked: Result<(), StorageError>) -> (r: HttpStatus)
    ensures
        marked is Err ==> r == HttpStatus::InternalServerError,
        marked is Ok ==> r == HttpStatus::Success,
{
    match marked {
        Ok(()) => HttpStatus::Success,
        Err(_) => HttpStatus::InternalServerError,
    }
}

/// Confirms the subscriber that the token was stored for: unauthorized
/// for a token never stored; confirming twice succeeds twice.
pub fn confirm(store: &mut SubscriberStore, parameters: &Parameters) -> (r: HttpStatus)
    requires
        old(store).wf(),
    ensures
        final(store).wf(),
        final(store).token_entries() == old(store).token_entries(),
        lookup_token(old(store).token_entries(), parameters.subscription_token@) is None ==> r
            == HttpStatus::Unauthorized && *final(store) == *old(store),
        lookup_token(old(store).token_entries(), parameters.subscription_token@) matches Some(id)
            ==> r == HttpStatus::Success && final(store).rows() == confirm_rows(
            old(store).rows(),
            id,
        ),
{
    let found = store.find_subscriber_id_by_token(parameters.subscription_token.as_str());
    match after_lookup(Ok(found)) {
        ConfirmStep::MarkConfirmed(id) => {
            store.mark_confirmed(id);
            after_mark_confirmed(Ok(()))
        },
        ConfirmStep::Respond(status) => status,
    }
}

} // verus!
