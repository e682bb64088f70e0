use vstd::prelude::*;

use crate::accounts::{
    funding_needed, top_up, Account, AddToken, Initialize, Signer, ToggleTokenStatus,
    TrackerError, UpdateTokenPrice,
};
use crate::state::{
    token_data_fits, token_strings_fit, tracker_fits, tracker_name_fits, Pubkey, TokenData,
    TokenTracker,
};

verus! {

/// The error `initialize` rejects these accounts and name with, if any.
pub open spec fn initialize_error(ctx: Initialize, name: Seq<char>) -> Option<TrackerError> {
    if !ctx.authority.is_signer {
        Some(TrackerError::AuthorizationFailure)
    } else if ctx.tracker.data is Some {
        Some(TrackerError::AlreadyExists)
    } else if ctx.authority.lamports < funding_needed(ctx.tracker.lamports, ctx.rent) {
        Some(TrackerError::AllocationFailure)
    } else if !tracker_fits(name) {
        Some(TrackerError::DataTooLarge)
    } else {
        None
    }
}

/// The accounts after `initialize` succeeded: the slot funded up to `rent`
/// at the payer's cost, and holding a tracker owned by the signer, with the
/// given name and no tokens.
pub open spec fn initialized(ctx: Initialize, name: String) -> Initialize {
    let needed = funding_needed(ctx.tracker.lamports, ctx.rent);
    Initialize {
        tracker: Account {
            lamports: (ctx.tracker.lamports + needed) as u64,
            data: Some(TokenTracker { authority: ctx.authority.key, name, token_count: 0 }),
        },
        authority: Signer { lamports: (ctx.authority.lamports - needed) as u64, ..ctx.authority },
        rent: ctx.rent,
    }
}

/// What `initialize` does: rejected with `initialize_error` and nothing
/// changed, or accepted with the accounts `initialized`.
pub open spec fn initialize_outcome(
    pre: Initialize,
    name: String,
    r: Result<(), TrackerError>,
    post: Initialize,
) -> bool {
    match initialize_error(pre, name@) {
        Some(e) => r == Err::<(), TrackerError>(e) && post == pre,
        None => r is Ok && post == initialized(pre, name),
    }
}

/// Creates a tracker named `name` owned by the signer, in an empty slot.
pub fn initialize(ctx: &mut Initialize, name: String) -> (r: Result<(), TrackerError>)
    ensures
        initialize_outcome(*old(ctx), name, r, *final(ctx)),
{
    if !ctx.authority.is_signer {
        return Err(TrackerError::AuthorizationFailure);
    }
    if ctx.tracker.data.is_some() {
        return Err(TrackerError::AlreadyExists);
    }
    let needed = top_up(ctx.tracker.lamports, ctx.rent);
    if ctx.authority.lamports < needed {
        return Err(TrackerError::AllocationFailure);
    }
    if !tracker_name_fits(&name) {
        return Err(TrackerError::DataTooLarge);
    }
    ctx.authority.lamports = ctx.authority.lamports - needed;
    ctx.tracker.lamports = ctx.tracker.lamports + needed;
    ctx.tracker.data = Some(TokenTracker { authority: ctx.authority.key, name, token_count: 0 });
    Ok(())
}

/// The error `add_token` rejects these accounts and strings with, if any.
pub open spec fn add_token_error(ctx: AddToken, name: Seq<char>, symbol: Seq<char>) -> Option<
    TrackerError,
> {
    if !ctx.authority.is_signer {
        Some(TrackerError::AuthorizationFailure)
    } else if ctx.tracker.data is None {
        Some(TrackerError::NotFound)
    } else if ctx.tracker.data->Some_0.authority != ctx.authority.key {
        Some(TrackerError::AuthorizationFailure)
    } else if ctx.token_data.data is Some {
        Some(TrackerError::AlreadyExists)
    } else if ctx.authority.lamports < funding_needed(ctx.token_data.lamports, ctx.rent) {
        Some(TrackerError::AllocationFailure)
    } else if ctx.tracker.data->Some_0.token_count == u64::MAX {
        Some(TrackerError::CounterOverflow)
    } else if !token_data_fits(name, symbol) {
        Some(TrackerError::DataTooLarge)
    } else {
        None
    }
}

/// A token record as created at time `now`: unpriced, unscored and active.
pub open spec fn new_token_data(
    token_address: Pubkey,
    token_name: String,
    token_symbol: String,
    now: i64,
) -> TokenData {
    TokenData {
        token_address,
        token_name,
        token_symbol,
        added_at: now,
        last_price_update: 0,
        price_usd: 0,
        price_sol: 0,
        risk_score: 0,
        is_active: true,
    }
}

/// The accounts after `add_token` succeeded: the slot funded up to `rent` at
/// the authority's cost and holding the new record, and the tracker's count
/// one higher.
pub open spec fn token_added(
    ctx: AddToken,
    token_address: Pubkey,
    token_name: String,
    token_symbol: String,
) -> AddToken {
    let needed = funding_needed(ctx.token_data.lamports, ctx.rent);
    let t = ctx.tracker.data->Some_0;
    AddToken {
        tracker: Account {
            data: Some(TokenTracker { token_count: (t.token_count + 1) as u64, ..t }),
            ..ctx.tracker
        },
        token_data: Account {
            lamports: (ctx.token_data.lamports + needed) as u64,
            data: Some(
                new_token_data(token_address, token_name, token_symbol, ctx.clock.unix_timestamp),
            ),
        },
        authority: Signer { lamports: (ctx.authority.lamports - needed) as u64, ..ctx.authority },
        ..ctx
    }
}

/// What `add_token` does: rejected with `add_token_error` and nothing
/// changed, or accepted with the accounts `token_added`.
pub open spec fn add_token_outcome(
    pre: AddToken,
    token_address: Pubkey,
    token_name: String,
    token_symbol: String,
    r: Result<(), TrackerError>,
    post: AddToken,
) -> bool {
    match add_token_error(pre, token_name@, token_symbol@) {
        Some(e) => r == Err::<(), TrackerError>(e) && post == pre,
        None => r is Ok && post == token_added(pre, token_address, token_name, token_symbol),
    }
}

/// Registers a token under the tracker. Only the tracker's authority may do
/// so; the record and the counter change together or not at all.
pub fn add_token(
    ctx: &mut AddToken,
    token_address: Pubkey,
    token_name: String,
    token_symbol: String,
) -> (r: Result<(), TrackerError>)
    ensures
        add_token_outcome(*old(ctx), token_address, token_name, token_symbol, r, *final(ctx)),
{
    if !ctx.authority.is_signer {
        return Err(TrackerError::AuthorizationFailure);
    }
    let count: u64 = match &ctx.tracker.data {
        None => {
            return Err(TrackerError::NotFound);
        },
        Some(t) => {
            if t.authority != ctx.authority.key {
                return Err(TrackerError::AuthorizationFailure);
            }
            t.token_count
        },
    };
    if ctx.token_data.data.is_some() {
        return Err(TrackerError::AlreadyExists);
    }
    let needed = top_up(ctx.token_data.lamports, ctx.rent);
    if ctx.authority.lamports < needed {
        return Err(TrackerError::AllocationFailure);
    }
    if count == u64::MAX {
        return Err(TrackerError::CounterOverflow);
    }
    if !token_strings_fit(&token_name, &token_symbol) {
        return Err(TrackerError::DataTooLarge);
    }
    ctx.authority.lamports = ctx.authority.lamports - needed;
    ctx.token_data.lamports = ctx.token_data.lamports + needed;
    ctx.token_data.data = Some(
        TokenData {
            token_address,
            token_name,
            token_symbol,
            added_at: ctx.clock.unix_timestamp,
            last_price_update: 0,
            price_usd: 0,
            price_sol: 0,
            risk_score: 0,
            is_active: true,
        },
    );
    match &mut ctx.tracker.data {
        Some(t) => {
            t.token_count = count + 1;
        },
        None => {},
    }
    Ok(())
}

/// The error that `update_token_price` and `toggle_token_status` reject a
/// signer and a record slot with, if any. Any signer may act on any record:
/// a token record stores no authority to check the caller against.
pub open spec fn record_error(authority: Signer, token_data: Account<TokenData>) -> Option<
    TrackerError,
> {
    if !authority.is_signer {
        Some(TrackerError::AuthorizationFailure)
    } else if token_data.data is None {
        Some(TrackerError::NotFound)
    } else {
        None
    }
}

/// The record after a price update at time `now`.
pub open spec fn repriced(
    d: TokenData,
    price_usd: u64,
    price_sol: u64,
    risk_score: u8,
    now: i64,
) -> TokenData {
    TokenData { price_usd, price_sol, risk_score, last_price_update: now, ..d }
}

/// What `update_token_price` does: rejected with `record_error` and nothing
/// changed, or the record `repriced` at the clock's time.
pub open spec fn update_token_price_outcome(
    pre: UpdateTokenPrice,
    price_usd: u64,
    price_sol: u64,
    risk_score: u8,
    r: Result<(), TrackerError>,
    post: UpdateTokenPrice,
) -> bool {
    match record_error(pre.authority, pre.token_data) {
        Some(e) => r == Err::<(), TrackerError>(e) && post == pre,
        None => r is Ok && post == UpdateTokenPrice {
            token_data: Account {
                data: Some(
                    repriced(
                        pre.token_data.data->Some_0,
                        price_usd,
                        price_sol,
                        risk_score,
                        pre.clock.unix_timestamp,
                    ),
                ),
                ..pre.token_data
            },
            ..pre
        },
    }
}

/// Overwrites a record's prices and risk score and stamps the time. The
/// risk score is stored as given, without a range check.
pub fn update_token_price(
    ctx: &mut UpdateTokenPrice,
    price_usd: u64,
    price_sol: u64,
    risk_score: u8,
) -> (r: Result<(), TrackerError>)
    ensures
        update_token_price_outcome(*old(ctx), price_usd, price_sol, risk_score, r, *final(ctx)),
{
    if !ctx.authority.is_signer {
        return Err(TrackerError::AuthorizationFailure);
    }
    let now = ctx.clock.unix_timestamp;
    match &mut ctx.token_data.data {
        None => Err(TrackerError::NotFound),
        Some(d) => {
            d.price_usd = price_usd;
            d.price_sol = price_sol;
            d.risk_score = risk_score;
            d.last_price_update = now;
            Ok(())
        },
    }
}

/// The record with its active flag negated.
pub open spec fn toggled(d: TokenData) -> TokenData {
    TokenData { is_active: !d.is_active, ..d }
}

/// What `toggle_token_status` does: rejected with `record_error` and nothing
/// changed, or the record `toggled`.
pub open spec fn toggle_token_status_outcome(
    pre: ToggleTokenStatus,
    r: Result<(), TrackerError>,
    post: ToggleTokenStatus,
) -> bool {
    match record_error(pre.authority, pre.token_data) {
        Some(e) => r == Err::<(), TrackerError>(e) && post == pre,
        None => r is Ok && post == ToggleTokenStatus {
            token_data: Account {
                data: Some(toggled(pre.token_data.data->Some_0)),
                ..pre.token_data
            },
            ..pre
        },
    }
}

/// Flips a record between active and inactive.
pub fn toggle_token_status(ctx: &mut ToggleTokenStatus) -> (r: Result<(), TrackerError>)
    ensures
        toggle_token_status_outcome(*old(ctx), r, *final(ctx)),
{
    if !ctx.authority.is_signer {
        return Err(TrackerError::AuthorizationFailure);
    }
    match &mut ctx.token_data.data {
        None => Err(TrackerError::NotFound),
        Some(d) => {
            d.is_active = !d.is_active;
            Ok(())
        },
    }
}

} // verus!
