//! A stand-alone watchdog over the host: it expires when the host has not
//! been heard from for longer than the timeout.

use vstd::prelude::*;
use crate::config::HOST_WATCHDOG_DEFAULT_TIMEOUT_MS;
use crate::state_machine::timed_out;

verus! {

/// What the watchdog can be told.
#[derive(Clone, Copy, Debug, PartialEq, Eq, Structural)]
pub enum HostWatchdogEvents {
    /// The host is alive.
    Ping,
    /// Set the timeout in milliseconds; 0 never expires.
    SetTimeoutMs(u16),
    /// Switch the watchdog on or off.
    EnableWatchdog(bool),
}

/// The watchdog: its timeout, when the host was last heard from, and
/// whether it is switched on.
#[derive(Clone, Copy, Debug, PartialEq, Eq, Structural)]
pub struct HostWatchdogConfig {
    pub timeout_ms: u16,
    pub last_ping: u64,
    pub enabled: bool,
}

/// The watchdog after `event` at time `now`. A ping, and switching the
/// watchdog on, count as hearing from the host.
pub open spec fn watchdog_after(
    watchdog: HostWatchdogConfig,
    event: HostWatchdogEvents,
    now: u64,
) -> HostWatchdogConfig {
    match event {
        HostWatchdogEvents::Ping => HostWatchdogConfig { last_ping: now, ..watchdog },
        HostWatchdogEvents::SetTimeoutMs(timeout_ms) => HostWatchdogConfig {
            timeout_ms,
            ..watchdog
        },
        HostWatchdogEvents::EnableWatchdog(enabled) => HostWatchdogConfig {
            enabled,
            last_ping: if enabled {
                now
            } else {
                watchdog.last_ping
            },
            ..watchdog
        },
    }
}

/// Whether the watchdog has expired at `now`: it is switched on, its timeout
/// is above zero, and the host has been silent for longer than that.
pub open spec fn watchdog_expired(watchdog: HostWatchdogConfig, now: u64) -> bool {
    watchdog.enabled && watchdog.timeout_ms > 0 && timed_out(
        now,
        watchdog.last_ping,
        watchdog.timeout_ms as u64,
    )
}

impl HostWatchdogConfig {
    /// A watchdog that is switched off and has never heard from the host.
    pub fn new(timeout_ms: u16) -> (watchdog: HostWatchdogConfig)
        ensures
            watchdog == (HostWatchdogConfig { timeout_ms, last_ping: 0, enabled: false }),
    {
        HostWatchdogConfig { timeout_ms, last_ping: 0, enabled: false }
    }

    /// A watchdog with the compiled-in timeout, switched off, that counts
    /// from `now`.
    pub fn with_default_timeout(now: u64) -> (watchdog: HostWatchdogConfig)
        ensures
            watchdog == (HostWatchdogConfig {
                timeout_ms: HOST_WATCHDOG_DEFAULT_TIMEOUT_MS,
                last_ping: now,
                enabled: false,
            }),
    {
        HostWatchdogConfig {
            timeout_ms: HOST_WATCHDOG_DEFAULT_TIMEOUT_MS,
            last_ping: now,
            enabled: false,
        }
    }

    /// Takes `event` at time `now`.
    pub fn handle_event(&mut self, event: HostWatchdogEvents, now: u64)
        ensures
            *final(self) == watchdog_after(*old(self), event, now),
    {
        match event {
            HostWatchdogEvents::Ping => {
                self.last_ping = now;
            },
            HostWatchdogEvents::SetTimeoutMs(timeout_ms) => {
                self.timeout_ms = timeout_ms;
            },
            HostWatchdogEvents::EnableWatchdog(enabled) => {
                self.enabled = enabled;
                if enabled {
                    self.last_ping = now;
                }
            },
        }
    }

    /// Checks the watchdog at time `now`. Returns whether it has expired; an
    /// expired watchdog starts counting anew.
    pub fn poll(&mut self, now: u64) -> (expired: bool)
        ensures
            expired == watchdog_expired(*old(self), now),
            *final(self) == if expired {
                HostWatchdogConfig { last_ping: now, ..*old(self) }
            } else {
                *old(self)
            },
    {
        if !self.enabled {
            return false;
        }
        let silent: u64 = if now >= self.last_ping {
            now - self.last_ping
        } else {
            0
        };
        if silent > self.timeout_ms as u64 && self.timeout_ms > 0 {
            self.last_ping = now;
            true
        } else {
            false
        }
    }
}

} // verus!
