//! The decisions of the monitoring service's round: whether the history store
//! is opened or closed, whether the processor's power readings are refreshed,
//! and when the locked power limits are checked again.

use vstd::prelude::*;

verus! {

/// What a round does to the history store.
#[derive(Clone, Copy, Debug, PartialEq, Eq, Structural)]
pub enum PersistenceAction {
    Open,
    Close,
    Keep,
}

/// The store is open while the history is recorded and a battery is present;
/// it is opened when it should be and is not, closed when it is and should not.
pub open spec fn persistence_decision(record_history: bool, has_battery: bool, is_open: bool) -> PersistenceAction {
    if record_history && has_battery {
        if is_open {
            PersistenceAction::Keep
        } else {
            PersistenceAction::Open
        }
    } else if is_open {
        PersistenceAction::Close
    } else {
        PersistenceAction::Keep
    }
}

/// Whether the store is open after `action`.
pub open spec fn open_after(is_open: bool, action: PersistenceAction) -> bool {
    match action {
        PersistenceAction::Open => true,
        PersistenceAction::Close => false,
        PersistenceAction::Keep => is_open,
    }
}

/// What a round does to the history store.
pub fn persistence_action(record_history: bool, has_battery: bool, is_open: bool) -> (a: PersistenceAction)
    ensures
        a == persistence_decision(record_history, has_battery, is_open),
{
    if record_history && has_battery {
        if is_open {
            PersistenceAction::Keep
        } else {
            PersistenceAction::Open
        }
    } else if is_open {
        PersistenceAction::Close
    } else {
        PersistenceAction::Keep
    }
}

/// After a round the store is open exactly when the history is recorded and a
/// battery is present.
pub proof fn lemma_persistence_follows_settings(record_history: bool, has_battery: bool, is_open: bool)
    ensures
        open_after(is_open, persistence_decision(record_history, has_battery, is_open)) == (
        record_history && has_battery),
{
}

/// What a round does about the processor's power readings.
#[derive(Clone, Copy, Debug, PartialEq, Eq, Structural)]
pub enum PowerRefresh {
    /// Read the power figures again.
    Refresh,
    /// No power reader exists: give up the power limit support.
    DropSupport,
    /// Nothing.
    Skip,
}

/// The power figures are read when running as administrator on a processor
/// whose limits can be set; without a power reader the support is dropped.
pub fn power_refresh(is_admin: bool, supported: bool, has_power: bool) -> (r: PowerRefresh)
    ensures
        !(is_admin && supported) ==> r == PowerRefresh::Skip,
        is_admin && supported && has_power ==> r == PowerRefresh::Refresh,
        is_admin && supported && !has_power ==> r == PowerRefresh::DropSupport,
{
    if is_admin && supported {
        if has_power {
            PowerRefresh::Refresh
        } else {
            PowerRefresh::DropSupport
        }
    } else {
        PowerRefresh::Skip
    }
}

/// The locked power limits are checked when the lock is on, the service runs
/// as administrator on a processor whose limits can be set, more than ten
/// seconds have passed since the last check, and the power figures exist.
pub open spec fn power_lock_check_due(
    enabled: bool,
    is_admin: bool,
    supported: bool,
    now: int,
    lastcheck: int,
    has_power: bool,
) -> bool {
    enabled && is_admin && supported && now - lastcheck > 10 && has_power
}

/// The state of the power lock that the service keeps.
#[derive(Debug)]
pub struct PowerLockClock {
    pub lastcheck: i64,
}

impl PowerLockClock {
    /// Says whether the locked limits are checked in this round and, when they
    /// are, remembers `now` as the time of the check.
    pub fn check_due(
        &mut self,
        enabled: bool,
        is_admin: bool,
        supported: bool,
        now: i64,
        has_power: bool,
    ) -> (due: bool)
        ensures
            due == power_lock_check_due(
                enabled,
                is_admin,
                supported,
                now as int,
                old(self).lastcheck as int,
                has_power,
            ),
            due ==> final(self).lastcheck == now,
            !due ==> final(self).lastcheck == old(self).lastcheck,
    {
        let due = enabled && is_admin && supported && (now as i128) - (self.lastcheck as i128) > 10
            && has_power;
        if due {
            self.lastcheck = now;
        }
        due
    }
}

/// Once checked at `now`, the limits are not checked again until more than ten
/// seconds later.
pub proof fn lemma_power_lock_waits(
    enabled: bool,
    is_admin: bool,
    supported: bool,
    now: int,
    later: int,
    has_power: bool,
)
    requires
        later <= now + 10,
    ensures
        !power_lock_check_due(enabled, is_admin, supported, later, now, has_power),
{
}

} // verus!
