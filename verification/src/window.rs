//! Trading-window gating.
//!
//! A market window is identified by its start timestamp (unix seconds) and
//! lasts a fixed duration.  Two questions gate the strategy: whether it is
//! still early enough before the window start to enter or hold a position,
//! and whether enough of the window has elapsed to permit a stop-loss exit.

use vstd::prelude::*;

verus! {

/// Length of one trading window in seconds.
pub const WINDOW_DURATION_SECONDS: i64 = 900;

/// Entering or holding a position is allowed while the current time is at
/// least `grace_seconds` before the window start.
pub open spec fn spec_allow_trade(now: int, market_timestamp: int, grace_seconds: int) -> bool {
    now <= market_timestamp - grace_seconds
}

/// A stop-loss exit is allowed only inside the window, once at least
/// `grace_seconds` have elapsed since the window start and before the window
/// duration has run out.
pub open spec fn spec_allow_stop_loss(now: int, market_timestamp: int, grace_seconds: int) -> bool {
    &&& market_timestamp <= now
    &&& now - market_timestamp < WINDOW_DURATION_SECONDS
    &&& grace_seconds <= now - market_timestamp
}

/// Decide, for the clock reading `now`, whether a new position may still be
/// entered or held for the window starting at `market_timestamp`.
pub fn allow_trade_at(now: i64, market_timestamp: i64, grace_seconds: i64) -> (r: bool)
    ensures
        r == spec_allow_trade(now as int, market_timestamp as int, grace_seconds as int),
{
    (now as i128) <= (market_timestamp as i128) - (grace_seconds as i128)
}

/// Decide, for the clock reading `now`, whether a stop-loss exit is allowed
/// for the window starting at `market_timestamp`.
pub fn allow_stop_loss_at(now: i64, market_timestamp: i64, grace_seconds: i64) -> (r: bool)
    ensures
        r == spec_allow_stop_loss(now as int, market_timestamp as int, grace_seconds as int),
{
    if now < market_timestamp {
        return false;
    }
    let since_start: i128 = (now as i128) - (market_timestamp as i128);
    since_start < (WINDOW_DURATION_SECONDS as i128) && (grace_seconds as i128) <= since_start
}

/// The next window boundary strictly after `now`: the smallest multiple of
/// the window duration greater than `now`.
pub fn nearest_quarter_hour_at(now: i64) -> (r: i64)
    requires
        0 <= now <= i64::MAX - WINDOW_DURATION_SECONDS,
    ensures
        r == WINDOW_DURATION_SECONDS * (now as int / (WINDOW_DURATION_SECONDS as int))
            + WINDOW_DURATION_SECONDS,
        now < r <= now + WINDOW_DURATION_SECONDS,
        r % WINDOW_DURATION_SECONDS == 0,
{
    proof {
        crate::fixed::lemma_trunc_nonneg(now as int, WINDOW_DURATION_SECONDS as int);
        vstd::arithmetic::div_mod::lemma_mod_multiples_basic(
            now as int / (WINDOW_DURATION_SECONDS as int) + 1,
            WINDOW_DURATION_SECONDS as int,
        );
        vstd::arithmetic::mul::lemma_mul_is_distributive_add(
            WINDOW_DURATION_SECONDS as int,
            now as int / (WINDOW_DURATION_SECONDS as int),
            1,
        );
        vstd::arithmetic::mul::lemma_mul_is_commutative(
            WINDOW_DURATION_SECONDS as int,
            now as int / (WINDOW_DURATION_SECONDS as int) + 1,
        );
    }
    (now / WINDOW_DURATION_SECONDS) * WINDOW_DURATION_SECONDS + WINDOW_DURATION_SECONDS
}

/// Relies on `std::time::SystemTime::now` and
/// `SystemTime::duration_since(UNIX_EPOCH)`: the wall clock read as whole
/// seconds since the unix epoch, clamped into the nonnegative `i64` range.
#[verifier::external_body]
fn unix_now() -> (r: i64)
    ensures
        0 <= r,
{
    match std::time::SystemTime::now().duration_since(std::time::UNIX_EPOCH) {
        Ok(d) => {
            let s = d.as_secs();
            if s > i64::MAX as u64 {
                i64::MAX
            } else {
                s as i64
            }
        },
        Err(_) => 0,
    }
}

/// Whether a new position may still be entered or held for the window
/// starting at `market_timestamp`, judged against the wall clock.  The
/// returned value is `allow_trade_at` applied to some nonnegative clock
/// reading; callers that need an exact statement pass their own reading to
/// `allow_trade_at`.
pub fn allow_trade(market_timestamp: i64, grace_seconds: i64) -> (r: bool)
    ensures
        exists|now: int|
            0 <= now && r == #[trigger] spec_allow_trade(
                now,
                market_timestamp as int,
                grace_seconds as int,
            ),
{
    let now = unix_now();
    let r = allow_trade_at(now, market_timestamp, grace_seconds);
    proof {
        assert(r == spec_allow_trade(now as int, market_timestamp as int, grace_seconds as int));
    }
    r
}

/// Whether a stop-loss exit is allowed for the window starting at
/// `market_timestamp`, judged against the wall clock.  The returned value is
/// `allow_stop_loss_at` applied to some nonnegative clock reading.
pub fn allow_stop_loss(market_timestamp: i64, grace_seconds: i64) -> (r: bool)
    ensures
        exists|now: int|
            0 <= now && r == #[trigger] spec_allow_stop_loss(
                now,
                market_timestamp as int,
                grace_seconds as int,
            ),
{
    let now = unix_now();
    let r = allow_stop_loss_at(now, market_timestamp, grace_seconds);
    proof {
        assert(r == spec_allow_stop_loss(
            now as int,
            market_timestamp as int,
            grace_seconds as int,
        ));
    }
    r
}

/// The next window boundary strictly after the current wall-clock time.
pub fn nearest_quarter_hour() -> (r: i64)
    ensures
        r % WINDOW_DURATION_SECONDS == 0,
        r >= WINDOW_DURATION_SECONDS,
{
    let now = unix_now();
    let clamped = if now > i64::MAX - WINDOW_DURATION_SECONDS {
        i64::MAX - WINDOW_DURATION_SECONDS
    } else {
        now
    };
    let r = nearest_quarter_hour_at(clamped);
    proof {
        vstd::arithmetic::div_mod::lemma_div_pos_is_pos(
            clamped as int,
            WINDOW_DURATION_SECONDS as int,
        );
        vstd::arithmetic::mul::lemma_mul_nonnegative(
            WINDOW_DURATION_SECONDS as int,
            clamped as int / (WINDOW_DURATION_SECONDS as int),
        );
    }
    r
}

} // verus!
