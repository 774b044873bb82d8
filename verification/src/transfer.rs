//! The transfer that a request asks the registry to prepare.

use vstd::prelude::*;

verus! {

/// An asset type: the party that administers it and its symbolic id.
#[derive(Debug)]
pub struct InstrumentId {
    pub admin: String,
    pub id: String,
}

/// Free-form key/value pairs attached to a transfer, in the order given.
#[derive(Debug)]
pub struct Meta {
    pub values: Option<Vec<(String, String)>>,
}

/// A transfer of `amount` of an instrument from `sender` to `receiver`.
///
/// `amount` is a decimal number kept as text. The two instants are counted in
/// microseconds since the Unix epoch, UTC.
#[derive(Debug)]
pub struct Transfer {
    pub sender: String,
    pub receiver: String,
    pub amount: String,
    pub instrument_id: InstrumentId,
    pub requested_at: i64,
    pub execute_before: i64,
    pub input_holding_cids: Option<Vec<String>>,
    pub meta: Option<Meta>,
}

/// Why a transfer could not be built.
#[derive(Debug, PartialEq, Eq)]
pub enum BuildError {
    /// The validity duration was zero or negative.
    NonPositiveValidity,
    /// The end of the validity window cannot be represented.
    WindowOutOfRange,
}

impl Transfer {
    /// The transfer must be executed strictly after it was requested.
    pub open spec fn window_is_valid(self) -> bool {
        self.requested_at < self.execute_before
    }

    /// Whether the validity window of this transfer is well formed.
    pub fn has_valid_window(&self) -> (ok: bool)
        ensures
            ok == self.window_is_valid(),
    {
        self.requested_at < self.execute_before
    }
}

/// The transfer that `build_transfer` assembles when the window is acceptable.
pub open spec fn assembled(
    sender: String,
    receiver: String,
    amount: String,
    instrument_id: InstrumentId,
    now: i64,
    validity: i64,
    input_holding_cids: Vec<String>,
    meta: Vec<(String, String)>,
) -> Transfer {
    Transfer {
        sender,
        receiver,
        amount,
        instrument_id,
        requested_at: now,
        execute_before: (now + validity) as i64,
        input_holding_cids: Some(input_holding_cids),
        meta: Some(Meta { values: Some(meta) }),
    }
}

/// Assembles a transfer requested at `now` that stays valid for `validity`
/// microseconds.
///
/// Fails on a duration that is not positive, and on a window whose end would
/// lie beyond the largest instant that can be represented. Every transfer it
/// returns has `execute_before` strictly after `requested_at`.
pub fn build_transfer(
    sender: String,
    receiver: String,
    amount: String,
    instrument_id: InstrumentId,
    now: i64,
    validity: i64,
    input_holding_cids: Vec<String>,
    meta: Vec<(String, String)>,
) -> (built: Result<Transfer, BuildError>)
    ensures
        validity <= 0 ==> built == Err::<Transfer, BuildError>(BuildError::NonPositiveValidity),
        validity > 0 && now + validity > i64::MAX ==> built == Err::<Transfer, BuildError>(
            BuildError::WindowOutOfRange,
        ),
        validity > 0 && now + validity <= i64::MAX ==> built == Ok::<Transfer, BuildError>(
            assembled(
                sender,
                receiver,
                amount,
                instrument_id,
                now,
                validity,
                input_holding_cids,
                meta,
            ),
        ),
        built is Ok ==> built->Ok_0.window_is_valid(),
{
    if validity <= 0 {
        return Err(BuildError::NonPositiveValidity);
    }
    if now > i64::MAX - validity {
        return Err(BuildError::WindowOutOfRange);
    }
    Ok(
        Transfer {
            sender,
            receiver,
            amount,
            instrument_id,
            requested_at: now,
            execute_before: now + validity,
            input_holding_cids: Some(input_holding_cids),
            meta: Some(Meta { values: Some(meta) }),
        },
    )
}

/// For every positive duration whose end can be represented, the assembled
/// transfer must be executed strictly after it was requested, and its window
/// is exactly as long as the duration.
pub proof fn window_follows_request(
    sender: String,
    receiver: String,
    amount: String,
    instrument_id: InstrumentId,
    now: i64,
    validity: i64,
    input_holding_cids: Vec<String>,
    meta: Vec<(String, String)>,
)
    requires
        validity > 0,
        now + validity <= i64::MAX,
    ensures
        ({
            let transfer = assembled(
                sender,
                receiver,
                amount,
                instrument_id,
                now,
                validity,
                input_holding_cids,
                meta,
            );
            transfer.window_is_valid() && transfer.execute_before - transfer.requested_at
                == validity
        }),
{
}

} // verus!
