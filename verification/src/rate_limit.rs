//! Per-address request rate limiting over fixed time windows.

use vstd::prelude::*;

use crate::errors::ContractError;
use crate::storage::{
    rate_limit_entry, set_rate_limit_entry, store_rate_limit_config, stored_rate_limit_config,
    Storage, StorageModel,
};
use crate::types::Address;

verus! {

/// Rate limit configuration.
#[derive(Clone, Copy, Debug, PartialEq, Eq, Structural)]
pub struct RateLimitConfig {
    /// Requests allowed per window.
    pub max_requests: u32,
    /// Window length in seconds.
    pub window_seconds: u64,
    /// Whether rate limiting is on.
    pub enabled: bool,
}

/// Requests counted for one address in its current window.
#[derive(Clone, Copy, Debug, PartialEq, Eq, Structural)]
pub struct RateLimitEntry {
    /// Requests accepted in the current window.
    pub request_count: u32,
    /// Start of the current window.
    pub window_start: u64,
}

/// Default number of requests per window.
pub const DEFAULT_MAX_REQUESTS: u32 = 100;

/// Default window length in seconds.
pub const DEFAULT_WINDOW_SECONDS: u64 = 60;

/// Seconds added to the window length to obtain the lifetime of an entry.
pub const ENTRY_TTL_MARGIN_SECONDS: u64 = 3600;

/// The configuration in force when none is stored.
pub open spec fn default_rate_limit_config() -> RateLimitConfig {
    RateLimitConfig { max_requests: 100, window_seconds: 60, enabled: true }
}

/// The configuration in force in `m`.
pub open spec fn effective_config(m: StorageModel) -> RateLimitConfig {
    match m.rate_limit_config {
        Some(c) => c,
        None => default_rate_limit_config(),
    }
}

/// The entry of `addr` in `m`, or a fresh one opened at `now`.
pub open spec fn entry_at(m: StorageModel, addr: Seq<u8>, now: u64) -> RateLimitEntry {
    if m.rate_limit_entries.contains_key(addr) {
        m.rate_limit_entries[addr]
    } else {
        RateLimitEntry { request_count: 0, window_start: now }
    }
}

/// Seconds from `start` to `now`, or 0 when `now` is earlier.
pub open spec fn elapsed(now: u64, start: u64) -> u64 {
    if now >= start { (now - start) as u64 } else { 0 }
}

/// Whether the window of `e` has ended at `now` under `c`.
pub open spec fn window_expired(c: RateLimitConfig, e: RateLimitEntry, now: u64) -> bool {
    elapsed(now, e.window_start) >= c.window_seconds
}

/// One request at `now` against entry `e` under an enabled configuration
/// `c`: whether it is accepted, and the entry afterwards.
pub open spec fn rate_limit_step(c: RateLimitConfig, e: RateLimitEntry, now: u64) -> (bool, RateLimitEntry) {
    if window_expired(c, e, now) {
        (true, RateLimitEntry { request_count: 1, window_start: now })
    } else if e.request_count >= c.max_requests {
        (false, e)
    } else {
        (true, RateLimitEntry { request_count: (e.request_count + 1) as u32, window_start: e.window_start })
    }
}

/// The entry after requests at `times`, one after the other, starting from `e`.
pub open spec fn rate_limit_run(c: RateLimitConfig, e: RateLimitEntry, times: Seq<u64>) -> RateLimitEntry
    decreases times.len(),
{
    if times.len() == 0 {
        e
    } else {
        rate_limit_step(c, rate_limit_run(c, e, times.drop_last()), times.last()).1
    }
}

/// The requests accepted in the window current after requests at `times`:
/// those accepted since that window opened, plus, when it opened before the
/// run, the requests `e` had already counted in it.
pub open spec fn accepted_in_window(c: RateLimitConfig, e: RateLimitEntry, times: Seq<u64>) -> int
    decreases times.len(),
{
    if times.len() == 0 {
        e.request_count as int
    } else {
        let before = rate_limit_run(c, e, times.drop_last());
        if window_expired(c, before, times.last()) {
            1
        } else if rate_limit_step(c, before, times.last()).0 {
            accepted_in_window(c, e, times.drop_last()) + 1
        } else {
            accepted_in_window(c, e, times.drop_last())
        }
    }
}

/// Over any run of requests with rate limiting on and a limit of at least
/// one, no window accepts more than `max_requests` requests, and the stored
/// count is the number accepted in the current window. (Every window is the
/// current one at the end of the run up to its last request; an address
/// without an entry starts from `entry_at`'s fresh entry, with a count of 0.)
pub proof fn lemma_window_limit(c: RateLimitConfig, e: RateLimitEntry, times: Seq<u64>)
    requires
        c.enabled,
        c.max_requests >= 1,
        e.request_count <= c.max_requests,
    ensures
        accepted_in_window(c, e, times) == rate_limit_run(c, e, times).request_count,
        accepted_in_window(c, e, times) <= c.max_requests,
    decreases times.len(),
{
    if times.len() > 0 {
        lemma_window_limit(c, e, times.drop_last());
    }
}

/// Stores the default configuration (100 requests per 60 seconds, enabled).
pub fn init_rate_limit(store: &mut Storage)
    ensures
        final(store)@ == (StorageModel { rate_limit_config: Some(default_rate_limit_config()), ..old(store)@ }),
{
    let config = RateLimitConfig {
        max_requests: DEFAULT_MAX_REQUESTS,
        window_seconds: DEFAULT_WINDOW_SECONDS,
        enabled: true,
    };
    store_rate_limit_config(store, config);
}

/// The configuration in force: the stored one, or the default.
pub fn get_rate_limit_config(store: &Storage) -> (c: RateLimitConfig)
    ensures
        c == effective_config(store@),
{
    match stored_rate_limit_config(store) {
        Some(c) => c,
        None => RateLimitConfig {
            max_requests: DEFAULT_MAX_REQUESTS,
            window_seconds: DEFAULT_WINDOW_SECONDS,
            enabled: true,
        },
    }
}

/// Replaces the configuration.
pub fn set_rate_limit_config(store: &mut Storage, config: RateLimitConfig)
    ensures
        final(store)@ == (StorageModel { rate_limit_config: Some(config), ..old(store)@ }),
{
    store_rate_limit_config(store, config);
}

/// Counts one request of `address` at time `now`.
///
/// With rate limiting off every request passes and nothing is recorded.
/// Otherwise a request in an expired window opens a new window with a count
/// of 1; a request in the current window passes while fewer than
/// `max_requests` were accepted in it, and is refused with
/// `RateLimitExceeded` (recording nothing) once `max_requests` were.
pub fn check_rate_limit(store: &mut Storage, address: &Address, now: u64) -> (r: Result<(), ContractError>)
    ensures
        ({
            let c = effective_config(old(store)@);
            let e = entry_at(old(store)@, address@, now);
            if !c.enabled {
                r is Ok && final(store)@ == old(store)@
            } else if window_expired(c, e, now) {
                r is Ok && final(store)@ == (StorageModel {
                    rate_limit_entries: old(store)@.rate_limit_entries.insert(
                        address@,
                        RateLimitEntry { request_count: 1, window_start: now },
                    ),
                    ..old(store)@
                })
            } else if e.request_count >= c.max_requests {
                r == Err::<(), ContractError>(ContractError::RateLimitExceeded) && final(store)@ == old(store)@
            } else {
                r is Ok && final(store)@ == (StorageModel {
                    rate_limit_entries: old(store)@.rate_limit_entries.insert(
                        address@,
                        RateLimitEntry { request_count: (e.request_count + 1) as u32, window_start: e.window_start },
                    ),
                    ..old(store)@
                })
            }
        }),
        // The request is the step of the rate limit run on the address's entry.
        effective_config(old(store)@).enabled ==> {
            let step = rate_limit_step(effective_config(old(store)@), entry_at(old(store)@, address@, now), now);
            &&& (r is Ok) == step.0
            &&& r is Ok ==> final(store)@.rate_limit_entries == old(store)@.rate_limit_entries.insert(address@, step.1)
        },
        // Within one window no more requests are accepted than the limit allows.
        r is Ok && effective_config(old(store)@).enabled ==> {
            let e2 = entry_at(final(store)@, address@, now);
            e2.request_count <= effective_config(final(store)@).max_requests || e2.request_count == 1
        },
{
    let config = get_rate_limit_config(store);
    if !config.enabled {
        return Ok(());
    }
    let mut entry = match rate_limit_entry(store, address) {
        Some(e) => e,
        None => RateLimitEntry { request_count: 0, window_start: now },
    };
    let window_elapsed = now.saturating_sub(entry.window_start);
    if window_elapsed >= config.window_seconds {
        entry.request_count = 1;
        entry.window_start = now;
    } else {
        if entry.request_count >= config.max_requests {
            return Err(ContractError::RateLimitExceeded);
        }
        entry.request_count = entry.request_count.saturating_add(1);
    }
    set_rate_limit_entry(store, address.duplicate(), entry);
    Ok(())
}

/// Lifetime of a rate limit entry under `config`: the window length plus an
/// hour, saturating, as the 32-bit value the ledger takes.
pub fn rate_limit_ttl(config: &RateLimitConfig) -> (ttl: u32)
    ensures
        ttl == (if config.window_seconds + 3600 > u64::MAX { u64::MAX } else { (config.window_seconds + 3600) as u64 }) as u32,
{
    let ttl = config.window_seconds.saturating_add(ENTRY_TTL_MARGIN_SECONDS);
    ttl as u32
}

/// `(requests in the current window, max_requests, window_seconds)` for
/// `address` at time `now`; the count is 0 once the window has ended.
pub fn get_rate_limit_status(store: &Storage, address: &Address, now: u64) -> (s: (u32, u32, u64))
    ensures
        ({
            let c = effective_config(store@);
            let e = entry_at(store@, address@, now);
            s == (if window_expired(c, e, now) { 0 } else { e.request_count }, c.max_requests, c.window_seconds)
        }),
{
    let config = get_rate_limit_config(store);
    let entry = match rate_limit_entry(store, address) {
        Some(e) => e,
        None => RateLimitEntry { request_count: 0, window_start: now },
    };
    let window_elapsed = now.saturating_sub(entry.window_start);
    if window_elapsed >= config.window_seconds {
        (0, config.max_requests, config.window_seconds)
    } else {
        (entry.request_count, config.max_requests, config.window_seconds)
    }
}

} // verus!
