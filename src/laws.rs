use vstd::prelude::*;

use crate::accounts::{AddToken, Initialize, ToggleTokenStatus, TrackerError, UpdateTokenPrice};
use crate::instructions::{
    add_token_error, add_token_outcome, initialize_error, initialize_outcome,
    toggle_token_status_outcome, update_token_price_outcome,
};

verus! {

/// A tracker created from acceptable accounts and name is owned by the
/// signer, carries the given name, and counts no tokens.
pub proof fn lemma_initialize_creates_tracker(
    pre: Initialize,
    name: String,
    r: Result<(), TrackerError>,
    post: Initialize,
)
    requires
        initialize_outcome(pre, name, r, post),
        initialize_error(pre, name@) is None,
    ensures
        r is Ok,
        post.tracker.data is Some,
        post.tracker.data->Some_0.authority == pre.authority.key,
        post.tracker.data->Some_0.name == name,
        post.tracker.data->Some_0.name@ == name@,
        post.tracker.data->Some_0.token_count == 0,
{
}

/// Once a slot holds a tracker, a second `initialize` on that slot by a
/// signer fails with `AlreadyExists` and leaves the first tracker as it was.
pub proof fn lemma_initialize_twice_fails(
    pre: Initialize,
    name: String,
    r: Result<(), TrackerError>,
    mid: Initialize,
    again: Initialize,
    name2: String,
    r2: Result<(), TrackerError>,
    post: Initialize,
)
    requires
        initialize_outcome(pre, name, r, mid),
        r is Ok,
        again.tracker == mid.tracker,
        again.authority.is_signer,
        initialize_outcome(again, name2, r2, post),
    ensures
        r2 == Err::<(), TrackerError>(TrackerError::AlreadyExists),
        post == again,
        post.tracker == mid.tracker,
{
}

/// When the tracker's authority adds a token and nothing else stands in the
/// way, the count goes up by exactly one and the new record is active,
/// unscored and never priced.
pub proof fn lemma_add_token_by_owner(
    pre: AddToken,
    token_address: crate::state::Pubkey,
    token_name: String,
    token_symbol: String,
    r: Result<(), TrackerError>,
    post: AddToken,
)
    requires
        add_token_outcome(pre, token_address, token_name, token_symbol, r, post),
        add_token_error(pre, token_name@, token_symbol@) is None,
    ensures
        r is Ok,
        pre.tracker.data->Some_0.authority == pre.authority.key,
        post.tracker.data is Some,
        post.tracker.data->Some_0.token_count == pre.tracker.data->Some_0.token_count + 1,
        post.token_data.data is Some,
        post.token_data.data->Some_0.token_address == token_address,
        post.token_data.data->Some_0.is_active,
        post.token_data.data->Some_0.risk_score == 0,
        post.token_data.data->Some_0.last_price_update == 0,
{
}

/// A caller other than the tracker's authority cannot add a token: the
/// call fails with `AuthorizationFailure` and the count stays as it was.
pub proof fn lemma_add_token_by_stranger(
    pre: AddToken,
    token_address: crate::state::Pubkey,
    token_name: String,
    token_symbol: String,
    r: Result<(), TrackerError>,
    post: AddToken,
)
    requires
        add_token_outcome(pre, token_address, token_name, token_symbol, r, post),
        pre.tracker.data is Some,
        pre.tracker.data->Some_0.authority != pre.authority.key,
    ensures
        r == Err::<(), TrackerError>(TrackerError::AuthorizationFailure),
        post == pre,
        post.tracker.data->Some_0.token_count == pre.tracker.data->Some_0.token_count,
{
}

/// A price update stores the given prices and score, and, as the ledger's
/// clock never runs behind a record's creation, stamps a time no earlier
/// than the record's creation.
pub proof fn lemma_update_price_sets_fields(
    pre: UpdateTokenPrice,
    price_usd: u64,
    price_sol: u64,
    risk_score: u8,
    r: Result<(), TrackerError>,
    post: UpdateTokenPrice,
)
    requires
        update_token_price_outcome(pre, price_usd, price_sol, risk_score, r, post),
        pre.authority.is_signer,
        pre.token_data.data is Some,
        pre.clock.unix_timestamp >= pre.token_data.data->Some_0.added_at,
    ensures
        r is Ok,
        post.token_data.data is Some,
        post.token_data.data->Some_0.price_usd == price_usd,
        post.token_data.data->Some_0.price_sol == price_sol,
        post.token_data.data->Some_0.risk_score == risk_score,
        post.token_data.data->Some_0.last_price_update >= post.token_data.data->Some_0.added_at,
{
}

/// One toggle negates a record's active flag; a second one on the same
/// record restores it.
pub proof fn lemma_toggle_twice_restores(
    pre: ToggleTokenStatus,
    r: Result<(), TrackerError>,
    mid: ToggleTokenStatus,
    again: ToggleTokenStatus,
    r2: Result<(), TrackerError>,
    post: ToggleTokenStatus,
)
    requires
        toggle_token_status_outcome(pre, r, mid),
        r is Ok,
        again.token_data == mid.token_data,
        toggle_token_status_outcome(again, r2, post),
        r2 is Ok,
    ensures
        mid.token_data.data->Some_0.is_active == !pre.token_data.data->Some_0.is_active,
        post.token_data == pre.token_data,
{
}

/// Re-pricing an empty record slot fails with `NotFound` and changes nothing.
pub proof fn lemma_update_price_missing_record(
    pre: UpdateTokenPrice,
    price_usd: u64,
    price_sol: u64,
    risk_score: u8,
    r: Result<(), TrackerError>,
    post: UpdateTokenPrice,
)
    requires
        update_token_price_outcome(pre, price_usd, price_sol, risk_score, r, post),
        pre.authority.is_signer,
        pre.token_data.data is None,
    ensures
        r == Err::<(), TrackerError>(TrackerError::NotFound),
        post == pre,
{
}

/// Toggling an empty record slot fails with `NotFound` and changes nothing.
pub proof fn lemma_toggle_missing_record(
    pre: ToggleTokenStatus,
    r: Result<(), TrackerError>,
    post: ToggleTokenStatus,
)
    requires
        toggle_token_status_outcome(pre, r, post),
        pre.authority.is_signer,
        pre.token_data.data is None,
    ensures
        r == Err::<(), TrackerError>(TrackerError::NotFound),
        post == pre,
{
}

} // verus!
