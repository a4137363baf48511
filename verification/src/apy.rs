//! The deposit yield engine.
//!
//! Two stablecoin-deposit snapshots roughly thirty days apart give an
//! exchange-rate delta; scaled by an annualization factor and divided
//! by the current rate, that delta becomes an annualized yield.  The
//! annualization factor — seconds per year over the snapshots' time
//! delta — is computed by the caller and handed in as a fixed-point
//! value, keeping the factor at floating-point precision on purpose.

use crate::dec::{dec_div, dec_mul, dec_sub, dec_checked_div, dec_checked_mul, dec_checked_sub, Dec};
use crate::error::BotError;
use crate::txmodel::DepositStableLog;
use vstd::prelude::*;

verus! {

/// Blocks in thirty days at the assumed six-second block time.
pub const HISTORY_OFFSET_BLOCKS: u64 = 432000;

/// The block height roughly thirty days before `height` (the height
/// itself when the chain is younger than that).
pub fn historic_height(height: u64) -> (r: u64)
    ensures
        height >= HISTORY_OFFSET_BLOCKS ==> r == height - HISTORY_OFFSET_BLOCKS,
        height < HISTORY_OFFSET_BLOCKS ==> r == 0,
{
    if height >= HISTORY_OFFSET_BLOCKS {
        height - HISTORY_OFFSET_BLOCKS
    } else {
        0
    }
}

/// The annualized yield derived from two deposit snapshots:
/// `((current rate - historic rate) * factor) / current rate`, in
/// fixed-point arithmetic throughout.
///
/// Fails with `DivisionUndefined` when the current exchange rate is
/// zero, and likewise when any step of the fixed-point chain has no
/// representable result.
pub fn deposit_stable_apy(latest: &DepositStableLog, historic: &DepositStableLog, factor: Dec) -> (r:
    Result<Dec, BotError>)
    requires
        latest.wf(),
        historic.wf(),
        factor.wf(),
    ensures
        r is Ok <==> dec_sub(latest.exchange_rate, historic.exchange_rate) is Some && dec_mul(
            factor,
            dec_sub(latest.exchange_rate, historic.exchange_rate)->0,
        ) is Some && dec_div(
            dec_mul(factor, dec_sub(latest.exchange_rate, historic.exchange_rate)->0)->0,
            latest.exchange_rate,
        ) is Some,
        r is Ok ==> r->Ok_0 == dec_div(
            dec_mul(factor, dec_sub(latest.exchange_rate, historic.exchange_rate)->0)->0,
            latest.exchange_rate,
        )->0,
        r is Ok ==> r->Ok_0.wf(),
        r is Err ==> r->Err_0 == BotError::DivisionUndefined,
        latest.exchange_rate.mantissa == 0 ==> r is Err,
{
    let delta = match dec_checked_sub(latest.exchange_rate, historic.exchange_rate) {
        Option::Some(d) => d,
        Option::None => {
            return Err(BotError::DivisionUndefined);
        },
    };
    let annualized = match dec_checked_mul(factor, delta) {
        Option::Some(d) => d,
        Option::None => {
            return Err(BotError::DivisionUndefined);
        },
    };
    match dec_checked_div(annualized, latest.exchange_rate) {
        Option::Some(apy) => Ok(apy),
        Option::None => Err(BotError::DivisionUndefined),
    }
}

} // verus!
