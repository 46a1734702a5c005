//! Holders of locked voting power and what is shown of one holder's lock.

use crate::decay::{Checkpoint, VeBalanceChart};
use crate::primitives::Address;
use vstd::prelude::*;

verus! {

/// One event of the vote escrow's log. Kinds that nothing here reads are
/// `Other`.
#[derive(Clone, Copy, Debug, PartialEq, Eq)]
pub enum EscrowEvent {
    UpdateLock { user: Address },
    Other,
}

/// The users of `events` that updated a lock, each once, in the order in
/// which they first did.
pub open spec fn holders_in(events: Seq<EscrowEvent>) -> Seq<Address>
    decreases events.len(),
{
    if events.len() == 0 {
        Seq::empty()
    } else {
        let earlier = holders_in(events.drop_last());
        match events.last() {
            EscrowEvent::UpdateLock { user } => if earlier.contains(user) {
                earlier
            } else {
                earlier.push(user)
            },
            EscrowEvent::Other => earlier,
        }
    }
}

/// No holder is listed twice.
pub proof fn holders_are_distinct(events: Seq<EscrowEvent>)
    ensures
        holders_in(events).no_duplicates(),
    decreases events.len(),
{
    if events.len() > 0 {
        holders_are_distinct(events.drop_last());
    }
}

/// The holders are exactly the users that updated a lock.
pub proof fn holders_are_the_lockers(events: Seq<EscrowEvent>, user: Address)
    ensures
        holders_in(events).contains(user) <==> exists|k: int|
            0 <= k < events.len() && #[trigger] events[k] == (EscrowEvent::UpdateLock { user }),
    decreases events.len(),
{
    if events.len() > 0 {
        let rest = events.drop_last();
        let earlier = holders_in(rest);
        holders_are_the_lockers(rest, user);
        if holders_in(events).contains(user) {
            if earlier.contains(user) {
                let k = choose|k: int|
                    0 <= k < rest.len() && #[trigger] rest[k] == (EscrowEvent::UpdateLock {
                        user,
                    });
                assert(events[k] == rest[k]);
            } else {
                assert(events[events.len() - 1] == (EscrowEvent::UpdateLock { user }));
            }
        }
        if exists|k: int|
            0 <= k < events.len() && #[trigger] events[k] == (EscrowEvent::UpdateLock { user }) {
            let k = choose|k: int|
                0 <= k < events.len() && #[trigger] events[k] == (EscrowEvent::UpdateLock {
                    user,
                });
            if k < events.len() - 1 {
                assert(rest[k] == events[k]);
                assert(earlier.contains(user));
                if holders_in(events) != earlier {
                    let at = choose|i: int| 0 <= i < earlier.len() && earlier[i] == user;
                    assert(holders_in(events)[at] == user);
                }
            } else {
                if !earlier.contains(user) {
                    assert(holders_in(events)[earlier.len() as int] == user);
                }
            }
        }
    }
}

/// Whether `user` is among `list`.
pub fn contains_address(list: &Vec<Address>, user: &Address) -> (found: bool)
    ensures
        found == list@.contains(*user),
{
    let mut i: usize = 0;
    while i < list.len()
        invariant
            i <= list.len(),
            forall|k: int| 0 <= k < i ==> list@[k] != *user,
        decreases list.len() - i,
    {
        if list[i].same(user) {
            return true;
        }
        i += 1;
    }
    false
}

/// The holders of locked voting power: the users that updated a lock, each
/// once, in the order in which they first did.
pub fn holders_of(events: &Vec<EscrowEvent>) -> (holders: Vec<Address>)
    ensures
        holders@ == holders_in(events@),
{
    let mut holders: Vec<Address> = Vec::new();
    let mut i: usize = 0;
    while i < events.len()
        invariant
            i <= events.len(),
            holders@ == holders_in(events@.take(i as int)),
        decreases events.len() - i,
    {
        assert(events@.take(i + 1).drop_last() == events@.take(i as int));
        match events[i] {
            EscrowEvent::UpdateLock { user } => {
                if !contains_address(&holders, &user) {
                    holders.push(user);
                }
            },
            EscrowEvent::Other => {},
        }
        i += 1;
    }
    assert(events@.take(events.len() as int) == events@);
    holders
}

/// What the vote escrow says of a user's lock. `expiry` is the instant at
/// which the lock ends; `history_length` counts the user's checkpoints.
#[derive(Clone, Copy, Debug, PartialEq, Eq)]
pub struct LockPosition {
    pub ve_fyde_balance: u128,
    pub fyde_locked: u128,
    pub expiry: u64,
    pub history_length: u64,
}

/// What is shown of a user's lock.
#[derive(Debug)]
pub struct VeFydeUser {
    pub ve_fyde_balance: u128,
    pub fyde_locked: u128,
    pub last_locking_date: u64,
    pub history_length: u64,
    pub lock_duration_in_days: u64,
    pub unlock_date: u64,
    pub ve_balance_chart: Option<VeBalanceChart>,
}

impl LockPosition {
    /// The user never locked, or the lock has no end.
    pub open spec fn is_empty(self) -> bool {
        self.history_length == 0 || self.expiry == 0
    }

    /// The place in the user's history of the checkpoint to read next: the
    /// latest one. `None` where the position is empty and nothing more is to
    /// be read.
    pub fn last_checkpoint_index(&self) -> (index: Option<u64>)
        ensures
            index == if self.is_empty() {
                None
            } else {
                Some((self.history_length - 1) as u64)
            },
    {
        if self.history_length == 0 || self.expiry == 0 {
            None
        } else {
            Some(self.history_length - 1)
        }
    }
}

impl VeFydeUser {
    /// Nothing is locked: every number is zero and there is no chart.
    pub open spec fn is_blank(self) -> bool {
        &&& self.ve_fyde_balance == 0
        &&& self.fyde_locked == 0
        &&& self.last_locking_date == 0
        &&& self.history_length == 0
        &&& self.lock_duration_in_days == 0
        &&& self.unlock_date == 0
        &&& self.ve_balance_chart.is_none()
    }

    /// What is shown of a lock whose latest checkpoint is `checkpoint`.
    pub open spec fn shows(
        self,
        position: LockPosition,
        checkpoint: Checkpoint,
        draw_vefyde_chart: bool,
    ) -> bool {
        &&& self.ve_fyde_balance == position.ve_fyde_balance
        &&& self.fyde_locked == position.fyde_locked
        &&& self.last_locking_date == checkpoint.timestamp
        &&& self.history_length == position.history_length
        &&& self.lock_duration_in_days == if position.expiry >= checkpoint.timestamp {
            position.expiry - checkpoint.timestamp
        } else {
            0
        }
        &&& self.unlock_date == position.expiry
        &&& match self.ve_balance_chart {
            Some(chart) => draw_vefyde_chart && chart.is_decay_graph(
                checkpoint.timestamp,
                position.expiry,
                checkpoint,
            ),
            None => !draw_vefyde_chart,
        }
    }

    /// What to show of a user's lock. An empty position shows as blank.
    /// Otherwise the lock runs from the checkpoint's instant to the
    /// position's expiry; its length is their distance in seconds, and zero
    /// where the expiry lies before the checkpoint. The decay chart is drawn
    /// on request.
    pub fn describe(position: &LockPosition, checkpoint: Checkpoint, draw_vefyde_chart: bool) -> (user:
        VeFydeUser)
        ensures
            position.is_empty() ==> user.is_blank(),
            !position.is_empty() ==> user.shows(*position, checkpoint, draw_vefyde_chart),
    {
        if position.history_length == 0 || position.expiry == 0 {
            return VeFydeUser::default();
        }
        let last_locking_date = checkpoint.timestamp;
        let lock_duration: u64 = if position.expiry >= last_locking_date {
            position.expiry - last_locking_date
        } else {
            0
        };
        let ve_balance_chart = if draw_vefyde_chart {
            Some(VeBalanceChart::get_decay_graph(last_locking_date, position.expiry, checkpoint))
        } else {
            None
        };
        VeFydeUser {
            ve_fyde_balance: position.ve_fyde_balance,
            fyde_locked: position.fyde_locked,
            last_locking_date,
            history_length: position.history_length,
            lock_duration_in_days: lock_duration,
            unlock_date: position.expiry,
            ve_balance_chart,
        }
    }
}

impl Default for VeFydeUser {
    /// The blank user.
    fn default() -> (user: VeFydeUser)
        ensures
            user.is_blank(),
    {
        VeFydeUser {
            ve_fyde_balance: 0,
            fyde_locked: 0,
            last_locking_date: 0,
            history_length: 0,
            lock_duration_in_days: 0,
            unlock_date: 0,
            ve_balance_chart: None,
        }
    }
}

} // verus!
