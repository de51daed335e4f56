//! Connection state and the reconnection policy of a managed BLE connection:
//! after a failed read or write the connection is retried with exponential
//! backoff, up to a configured number of attempts.

use vstd::prelude::*;

use crate::text::{dec_digits, push_decimal, push_str};

verus! {

/// Connection state observable by consumers.
#[derive(Clone, Copy, Debug, PartialEq, Eq, Structural)]
pub enum ConnectionState {
    Disconnected,
    Connecting,
    Connected,
    Reconnecting { attempt: u32 },
}

pub open spec fn connection_state_text(s: ConnectionState) -> Seq<char> {
    match s {
        ConnectionState::Disconnected => "Disconnected"@,
        ConnectionState::Connecting => "Connecting"@,
        ConnectionState::Connected => "Connected"@,
        ConnectionState::Reconnecting { attempt } => "Reconnecting (attempt "@ + dec_digits(
            attempt as nat,
        ) + ")"@,
    }
}

impl ConnectionState {
    /// Display text, e.g. `Reconnecting (attempt 3)`.
    pub fn to_string(&self) -> (r: String)
        ensures
            r@ == connection_state_text(*self),
    {
        let mut s = String::new();
        match self {
            ConnectionState::Disconnected => push_str(&mut s, "Disconnected"),
            ConnectionState::Connecting => push_str(&mut s, "Connecting"),
            ConnectionState::Connected => push_str(&mut s, "Connected"),
            ConnectionState::Reconnecting { attempt } => {
                push_str(&mut s, "Reconnecting (attempt ");
                push_decimal(&mut s, *attempt as u64);
                push_str(&mut s, ")");
            },
        }
        assert(s@ =~= connection_state_text(*self));
        s
    }
}

/// Configuration for connection behavior. Durations are in milliseconds.
#[derive(Clone, Copy, Debug, PartialEq, Eq, Structural)]
pub struct ConnectionConfig {
    /// Maximum number of reconnection attempts before giving up.
    pub max_reconnect_attempts: u32,
    /// Base delay between reconnection attempts (exponential backoff applied).
    pub reconnect_base_delay: u64,
    /// Maximum delay between reconnection attempts.
    pub reconnect_max_delay: u64,
    /// Timeout for initial connection.
    pub connect_timeout: u64,
    /// Timeout for GATT service discovery after connection.
    pub discovery_timeout: u64,
    /// Interval for connection health checks (keepalive reads).
    pub keepalive_interval: u64,
}

impl Default for ConnectionConfig {
    /// 10 attempts, backoff from 500 ms up to 30 s, 15 s connect timeout,
    /// 10 s discovery timeout, 5 s keepalive.
    fn default() -> (r: Self)
        ensures
            r == (ConnectionConfig {
                max_reconnect_attempts: 10,
                reconnect_base_delay: 500,
                reconnect_max_delay: 30_000,
                connect_timeout: 15_000,
                discovery_timeout: 10_000,
                keepalive_interval: 5_000,
            }),
    {
        ConnectionConfig {
            max_reconnect_attempts: 10,
            reconnect_base_delay: 500,
            reconnect_max_delay: 30_000,
            connect_timeout: 15_000,
            discovery_timeout: 10_000,
            keepalive_interval: 5_000,
        }
    }
}

/// 2 to the power `e`.
pub open spec fn pow2(e: nat) -> nat
    decreases e,
{
    if e == 0 {
        1
    } else {
        2 * pow2((e - 1) as nat)
    }
}

/// `2u32.saturating_pow(e)`: 2^e, or `u32::MAX` when that does not fit.
pub open spec fn pow2_saturating(e: nat) -> nat {
    if pow2(e) > u32::MAX {
        u32::MAX as nat
    } else {
        pow2(e)
    }
}

/// The delay before reconnection attempt `attempt` (1-based):
/// `min(base * 2^(attempt-1), max)`, the power saturating at `u32::MAX`.
pub open spec fn backoff_delay(base: u64, max: u64, attempt: nat) -> int {
    let raw = base * pow2_saturating((attempt - 1) as nat);
    if raw < max {
        raw
    } else {
        max as int
    }
}

/// The delay computation does not overflow a `Duration`: the product stays
/// within `u64::MAX` whole seconds.
pub open spec fn backoff_fits(base: u64, attempt: nat) -> bool {
    base * pow2_saturating((attempt - 1) as nat) < (u64::MAX as int + 1) * 1000
}

proof fn lemma_pow2_grows(e: nat)
    ensures
        pow2(e) >= 1,
        pow2(e + 1) == 2 * pow2(e),
        e >= 32 ==> pow2(e) > u32::MAX,
    decreases e,
{
    if e > 0 {
        lemma_pow2_grows((e - 1) as nat);
    }
    if e == 32 {
        reveal_with_fuel(pow2, 33);
        assert(pow2(32) == 4294967296);
    }
}

/// `2u32.saturating_pow(e)`.
fn pow2_saturating_u32(e: u32) -> (r: u32)
    ensures
        r == pow2_saturating(e as nat),
{
    let mut p: u64 = 1;
    let mut i: u32 = 0;
    while i < e
        invariant
            i <= e,
            p == pow2(i as nat),
            p <= u32::MAX,
        decreases e - i,
    {
        proof {
            lemma_pow2_grows(i as nat);
        }
        if p * 2 > u32::MAX as u64 {
            proof {
                lemma_pow2_monotone((i + 1) as nat, e as nat);
            }
            return u32::MAX;
        }
        p = p * 2;
        i = i + 1;
    }
    p as u32
}

proof fn lemma_pow2_monotone(a: nat, b: nat)
    requires
        a <= b,
    ensures
        pow2(a) <= pow2(b),
    decreases b - a,
{
    if a < b {
        lemma_pow2_monotone(a, (b - 1) as nat);
        lemma_pow2_grows((b - 1) as nat);
    }
}

/// The delay in milliseconds before reconnection attempt `attempt`
/// (1-based): `min(base * 2^(attempt-1), max)`.
pub fn reconnect_delay(config: &ConnectionConfig, attempt: u32) -> (r: u64)
    requires
        attempt >= 1,
        backoff_fits(config.reconnect_base_delay, attempt as nat),
    ensures
        r == backoff_delay(config.reconnect_base_delay, config.reconnect_max_delay, attempt as nat),
{
    let factor = pow2_saturating_u32(attempt - 1);
    let raw: u128 = config.reconnect_base_delay as u128 * factor as u128;
    proof {
        assert(raw == config.reconnect_base_delay * pow2_saturating((attempt - 1) as nat));
    }
    if raw < config.reconnect_max_delay as u128 {
        raw as u64
    } else {
        config.reconnect_max_delay
    }
}

/// Whether the backoff for attempt `attempt` (1-based) can be computed
/// without overflowing a `Duration`, so that `reconnect_delay` may be called.
pub fn backoff_in_range(config: &ConnectionConfig, attempt: u32) -> (r: bool)
    requires
        attempt >= 1,
    ensures
        r == backoff_fits(config.reconnect_base_delay, attempt as nat),
{
    let factor = pow2_saturating_u32(attempt - 1);
    let base = config.reconnect_base_delay;
    proof {
        assert(base as u128 * factor as u128 <= u64::MAX as u128 * u32::MAX as u128)
            by (nonlinear_arith);
    }
    let raw: u128 = base as u128 * factor as u128;
    raw < 18446744073709551616000u128
}

/// What the reconnection loop does next.
#[derive(Clone, Copy, Debug, PartialEq, Eq, Structural)]
pub enum ReconnectAction {
    /// Wait `delay` milliseconds, then try attempt number `attempt`.
    Attempt { attempt: u32, delay: u64 },
    /// The last attempt succeeded: the connection is back.
    Reconnected,
    /// Every attempt failed: give up.
    GiveUp,
}

/// The action after attempt `last_attempt` (0 before the first attempt)
/// finished, successfully or not.
pub open spec fn reconnect_action(config: ConnectionConfig, last_attempt: nat, succeeded: bool) -> ReconnectAction {
    if succeeded {
        ReconnectAction::Reconnected
    } else if last_attempt < config.max_reconnect_attempts {
        ReconnectAction::Attempt {
            attempt: (last_attempt + 1) as u32,
            delay: backoff_delay(
                config.reconnect_base_delay,
                config.reconnect_max_delay,
                last_attempt + 1,
            ) as u64,
        }
    } else {
        ReconnectAction::GiveUp
    }
}

/// The state observers see while an action is carried out.
pub open spec fn action_state(a: ReconnectAction) -> ConnectionState {
    match a {
        ReconnectAction::Attempt { attempt, .. } => ConnectionState::Reconnecting { attempt },
        ReconnectAction::Reconnected => ConnectionState::Connected,
        ReconnectAction::GiveUp => ConnectionState::Disconnected,
    }
}

/// Decide the next step of reconnection after attempt `last_attempt`
/// (0 before the first attempt) and whether it succeeded.
pub fn next_reconnect_action(config: &ConnectionConfig, last_attempt: u32, succeeded: bool) -> (r: ReconnectAction)
    requires
        last_attempt <= config.max_reconnect_attempts,
        last_attempt < config.max_reconnect_attempts && !succeeded ==> backoff_fits(
            config.reconnect_base_delay,
            (last_attempt + 1) as nat,
        ),
    ensures
        r == reconnect_action(*config, last_attempt as nat, succeeded),
{
    if succeeded {
        ReconnectAction::Reconnected
    } else if last_attempt < config.max_reconnect_attempts {
        let attempt = last_attempt + 1;
        ReconnectAction::Attempt { attempt, delay: reconnect_delay(config, attempt) }
    } else {
        ReconnectAction::GiveUp
    }
}

impl ReconnectAction {
    /// The connection state to publish while carrying out this action.
    pub fn state(&self) -> (r: ConnectionState)
        ensures
            r == action_state(*self),
    {
        match self {
            ReconnectAction::Attempt { attempt, .. } => ConnectionState::Reconnecting {
                attempt: *attempt,
            },
            ReconnectAction::Reconnected => ConnectionState::Connected,
            ReconnectAction::GiveUp => ConnectionState::Disconnected,
        }
    }
}

/// The error message when every attempt failed.
pub fn give_up_message(config: &ConnectionConfig) -> (r: String)
    ensures
        r@ == "Failed to reconnect after "@ + dec_digits(config.max_reconnect_attempts as nat)
            + " attempts"@,
{
    let mut s = String::new();
    push_str(&mut s, "Failed to reconnect after ");
    push_decimal(&mut s, config.max_reconnect_attempts as u64);
    push_str(&mut s, " attempts");
    s
}

/// Backoff delays never decrease from one attempt to the next and never
/// exceed the configured maximum.
pub proof fn backoff_is_monotone_and_bounded(base: u64, max: u64, attempt: nat)
    requires
        attempt >= 1,
    ensures
        backoff_delay(base, max, attempt) <= backoff_delay(base, max, attempt + 1),
        backoff_delay(base, max, attempt) <= max,
        0 <= backoff_delay(base, max, attempt),
{
    let e = (attempt - 1) as nat;
    lemma_pow2_grows(e);
    assert(pow2_saturating(e) <= pow2_saturating(e + 1));
    vstd::arithmetic::mul::lemma_mul_inequality(
        pow2_saturating(e) as int,
        pow2_saturating(e + 1) as int,
        base as int,
    );
    vstd::arithmetic::mul::lemma_mul_is_commutative(base as int, pow2_saturating(e) as int);
    vstd::arithmetic::mul::lemma_mul_is_commutative(base as int, pow2_saturating(e + 1) as int);
}

/// The reconnection loop makes at most `max_reconnect_attempts` attempts:
/// after the last one fails it gives up and reports the connection as
/// disconnected, and after a success it reports it as connected.
pub proof fn reconnection_gives_up_after_max_attempts(config: ConnectionConfig, last_attempt: nat, succeeded: bool)
    ensures
        reconnect_action(config, last_attempt, succeeded) matches ReconnectAction::Attempt { attempt, .. }
            ==> attempt == last_attempt + 1 && attempt <= config.max_reconnect_attempts,
        (!succeeded && last_attempt >= config.max_reconnect_attempts) ==> action_state(
            reconnect_action(config, last_attempt, succeeded),
        ) == ConnectionState::Disconnected,
        succeeded ==> action_state(reconnect_action(config, last_attempt, succeeded))
            == ConnectionState::Connected,
{
}

} // verus!
