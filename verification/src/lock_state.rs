use vstd::prelude::*;

verus! {

/// The capability that a guard carries or that a request asks for.
#[derive(Debug, Clone, Copy, PartialEq, Eq, Structural)]
pub enum Access {
    /// Shared access.
    Read,
    /// Exclusive access.
    Write,
    /// Shared access together with the right to ask for an upgrade.
    UpgradableRead,
}

/// The state word of a reader-writer lock.
#[derive(Debug, Clone, Copy, PartialEq, Eq, Structural)]
pub enum LockState {
    /// No guard is outstanding.
    Unlocked,
    /// `count` reader guards are outstanding and nothing else.
    ReadLocked { count: usize },
    /// One writer guard is outstanding and nothing else.
    WriteLocked,
    /// One upgradable guard is outstanding beside `readers` reader guards;
    /// `pending` tells whether it was turned into an upgrade ticket.
    UpgradableLocked { readers: usize, pending: bool },
}

impl LockState {
    /// A read-locked word counts at least one reader, and beside an
    /// upgradable guard there is room for the reader it may turn into.
    pub open spec fn wf(self) -> bool {
        match self {
            LockState::ReadLocked { count } => count >= 1,
            LockState::UpgradableLocked { readers, pending } => readers < usize::MAX,
            _ => true,
        }
    }

    /// The number of outstanding reader guards.
    pub open spec fn readers(self) -> nat {
        match self {
            LockState::ReadLocked { count } => count as nat,
            LockState::UpgradableLocked { readers, pending } => readers as nat,
            _ => 0,
        }
    }

    /// The number of outstanding writer guards.
    pub open spec fn writers(self) -> nat {
        if self is WriteLocked {
            1
        } else {
            0
        }
    }

    /// The number of outstanding upgradable guards, an upgrade ticket
    /// counting as the guard it was made of.
    pub open spec fn upgradables(self) -> nat {
        if self is UpgradableLocked {
            1
        } else {
            0
        }
    }

    /// Whether an upgrade ticket is outstanding.
    pub open spec fn upgrade_pending(self) -> bool {
        self matches LockState::UpgradableLocked { readers, pending } && pending
    }

    /// Whether a guard of the given capability can be handed out in this
    /// state. While an upgrade ticket is outstanding a read request is
    /// treated as a write request would be: it is not admitted.
    pub open spec fn admits(self, access: Access) -> bool {
        match (access, self) {
            (_, LockState::Unlocked) => true,
            (Access::Read, LockState::ReadLocked { count }) => count < usize::MAX,
            (Access::Read, LockState::UpgradableLocked { readers, pending }) => !pending && readers
                + 1 < usize::MAX,
            (Access::UpgradableRead, LockState::ReadLocked { count }) => count < usize::MAX,
            _ => false,
        }
    }

    /// The state after a guard of the given capability was handed out.
    pub open spec fn granted(self, access: Access) -> LockState {
        match (access, self) {
            (Access::Read, LockState::Unlocked) => LockState::ReadLocked { count: 1 },
            (Access::Read, LockState::ReadLocked { count }) => LockState::ReadLocked {
                count: (count + 1) as usize,
            },
            (Access::Read, LockState::UpgradableLocked { readers, pending }) => {
                LockState::UpgradableLocked { readers: (readers + 1) as usize, pending }
            },
            (Access::Write, LockState::Unlocked) => LockState::WriteLocked,
            (Access::UpgradableRead, LockState::Unlocked) => LockState::UpgradableLocked {
                readers: 0,
                pending: false,
            },
            (Access::UpgradableRead, LockState::ReadLocked { count }) => {
                LockState::UpgradableLocked { readers: count, pending: false }
            },
            _ => self,
        }
    }

    /// Whether a guard of the given capability is outstanding. An upgrade
    /// ticket is no guard.
    pub open spec fn holds(self, access: Access) -> bool {
        match access {
            Access::Read => self.readers() >= 1,
            Access::Write => self is WriteLocked,
            Access::UpgradableRead => self is UpgradableLocked && !self.upgrade_pending(),
        }
    }

    /// The state after a guard of the given capability was given up.
    pub open spec fn released(self, access: Access) -> LockState {
        match (access, self) {
            (Access::Read, LockState::ReadLocked { count }) => if count == 1 {
                LockState::Unlocked
            } else {
                LockState::ReadLocked { count: (count - 1) as usize }
            },
            (Access::Read, LockState::UpgradableLocked { readers, pending }) => {
                LockState::UpgradableLocked { readers: (readers - 1) as usize, pending }
            },
            (Access::Write, LockState::WriteLocked) => LockState::Unlocked,
            (Access::UpgradableRead, LockState::UpgradableLocked { readers, pending }) => {
                if readers == 0 {
                    LockState::Unlocked
                } else {
                    LockState::ReadLocked { count: readers }
                }
            },
            _ => self,
        }
    }

    /// The state after the upgradable guard, or the ticket made of it, became
    /// the writer guard. It is for a state without reader guards.
    pub open spec fn upgraded(self) -> LockState {
        LockState::WriteLocked
    }

    /// The state after the upgradable guard gave up its upgrade right and
    /// became one more reader guard.
    pub open spec fn downgraded(self) -> LockState {
        LockState::ReadLocked { count: (self.readers() + 1) as usize }
    }

    /// The state after the writer guard became a reader guard.
    pub open spec fn downgraded_to_reader(self) -> LockState {
        LockState::ReadLocked { count: 1 }
    }

    /// The state after the writer guard became the upgradable guard.
    pub open spec fn downgraded_to_upgradable(self) -> LockState {
        LockState::UpgradableLocked { readers: 0, pending: false }
    }

    /// The state with the mark of an outstanding upgrade ticket set or
    /// cleared.
    pub open spec fn with_pending(self, pending: bool) -> LockState {
        LockState::UpgradableLocked { readers: self.readers() as usize, pending }
    }

    pub fn can_admit(self, access: Access) -> (b: bool)
        ensures
            b == self.admits(access),
    {
        match self {
            LockState::Unlocked => true,
            LockState::ReadLocked { count } => match access {
                Access::Write => false,
                _ => count < usize::MAX,
            },
            LockState::WriteLocked => false,
            LockState::UpgradableLocked { readers, pending } => match access {
                Access::Read => !pending && readers < usize::MAX - 1,
                _ => false,
            },
        }
    }

    pub fn grant(self, access: Access) -> (s: LockState)
        requires
            self.wf(),
            self.admits(access),
        ensures
            s == self.granted(access),
            s.wf(),
            s.holds(access),
    {
        match access {
            Access::Read => match self {
                LockState::ReadLocked { count } => LockState::ReadLocked { count: count + 1 },
                LockState::UpgradableLocked { readers, pending } => LockState::UpgradableLocked {
                    readers: readers + 1,
                    pending,
                },
                _ => LockState::ReadLocked { count: 1 },
            },
            Access::Write => LockState::WriteLocked,
            Access::UpgradableRead => match self {
                LockState::ReadLocked { count } => LockState::UpgradableLocked {
                    readers: count,
                    pending: false,
                },
                _ => LockState::UpgradableLocked { readers: 0, pending: false },
            },
        }
    }

    pub fn has(self, access: Access) -> (b: bool)
        ensures
            b == self.holds(access),
    {
        match self {
            LockState::Unlocked => false,
            LockState::ReadLocked { count } => match access {
                Access::Read => count >= 1,
                _ => false,
            },
            LockState::WriteLocked => match access {
                Access::Write => true,
                _ => false,
            },
            LockState::UpgradableLocked { readers, pending } => match access {
                Access::Read => readers >= 1,
                Access::Write => false,
                Access::UpgradableRead => !pending,
            },
        }
    }

    pub fn release(self, access: Access) -> (s: LockState)
        requires
            self.wf(),
            self.holds(access),
        ensures
            s == self.released(access),
            s.wf(),
    {
        match self {
            LockState::ReadLocked { count } => if count == 1 {
                LockState::Unlocked
            } else {
                LockState::ReadLocked { count: count - 1 }
            },
            LockState::UpgradableLocked { readers, pending } => match access {
                Access::Read => LockState::UpgradableLocked { readers: readers - 1, pending },
                _ => if readers == 0 {
                    LockState::Unlocked
                } else {
                    LockState::ReadLocked { count: readers }
                },
            },
            _ => LockState::Unlocked,
        }
    }
}

/// In every well-formed state at most one writer guard is outstanding, and
/// beside it neither a reader guard nor an upgradable guard.
pub proof fn lemma_writer_is_alone(s: LockState)
    requires
        s.wf(),
    ensures
        s.writers() <= 1,
        s.writers() == 1 ==> s.readers() == 0 && s.upgradables() == 0,
        s.writers() == 1 ==> forall|a: Access| !s.admits(a),
        s.admits(Access::Write) ==> s.readers() == 0 && s.writers() == 0 && s.upgradables() == 0,
{
}

/// Reader guards add up, also beside an upgradable guard; an upgradable guard
/// is the only one of its kind and never stands beside a writer.
pub proof fn lemma_readers_share(s: LockState)
    requires
        s.wf(),
    ensures
        s.upgradables() <= 1,
        s.upgradables() == 1 ==> s.writers() == 0 && !s.admits(Access::UpgradableRead)
            && !s.admits(Access::Write),
        s.admits(Access::Read) ==> {
            &&& s.granted(Access::Read).readers() == s.readers() + 1
            &&& s.granted(Access::Read).writers() == 0
            &&& s.granted(Access::Read).upgradables() == s.upgradables()
            &&& s.granted(Access::Read).wf()
        },
        s.admits(Access::UpgradableRead) ==> {
            &&& s.granted(Access::UpgradableRead).readers() == s.readers()
            &&& s.granted(Access::UpgradableRead).writers() == 0
            &&& s.granted(Access::UpgradableRead).upgradables() == 1
            &&& s.granted(Access::UpgradableRead).wf()
        },
        s.readers() >= 1 && s.readers() + s.upgradables() + 1 < usize::MAX
            && !s.upgrade_pending() ==> s.admits(Access::Read),
{
}

/// A writer guard that is turned into a reader guard or into the upgradable
/// guard leaves a state that is locked and admits no writer: nobody finds
/// the lock free in between.
pub proof fn lemma_downgrade_keeps_locked(s: LockState)
    requires
        s is WriteLocked,
    ensures
        s.downgraded_to_reader().wf(),
        !(s.downgraded_to_reader() is Unlocked),
        !s.downgraded_to_reader().admits(Access::Write),
        s.downgraded_to_reader().readers() == 1,
        s.downgraded_to_reader().writers() == 0,
        s.downgraded_to_reader() == s.released(Access::Write).granted(Access::Read),
        s.downgraded_to_upgradable().wf(),
        !(s.downgraded_to_upgradable() is Unlocked),
        !s.downgraded_to_upgradable().admits(Access::Write),
        s.downgraded_to_upgradable().holds(Access::UpgradableRead),
        s.downgraded_to_upgradable().writers() == 0,
        s.downgraded_to_upgradable() == s.released(Access::Write).granted(Access::UpgradableRead),
{
}

/// An upgrade is open exactly to an upgradable guard without reader guards
/// beside it; it makes its holder the only guard.
pub proof fn lemma_upgrade_takes_no_readers(s: LockState)
    requires
        s.wf(),
        s is UpgradableLocked,
    ensures
        s.readers() == 0 ==> s.upgraded().writers() == 1 && s.upgraded().readers() == 0
            && s.upgraded().upgradables() == 0,
        s.readers() == 0 ==> s.upgraded() == s.with_pending(false).released(
            Access::UpgradableRead,
        ).granted(Access::Write),
        s.readers() > 0 ==> !s.with_pending(false).released(Access::UpgradableRead).admits(
            Access::Write,
        ),
{
}

/// Taking an upgrade ticket and handing it back leaves the state as it was.
pub proof fn lemma_ticket_returned(s: LockState)
    requires
        s.wf(),
        s.holds(Access::UpgradableRead),
    ensures
        s.with_pending(true).upgrade_pending(),
        s.with_pending(true).wf(),
        !s.with_pending(true).admits(Access::Read),
        s.with_pending(true).with_pending(false) == s,
{
}

/// Every transition leads from a well-formed state to a well-formed state.
pub proof fn lemma_transitions_keep_wf(s: LockState, access: Access)
    requires
        s.wf(),
    ensures
        s.admits(access) ==> s.granted(access).wf(),
        s.holds(access) ==> s.released(access).wf(),
        s.holds(Access::UpgradableRead) ==> s.downgraded().wf() && s.with_pending(true).wf(),
        s.upgrade_pending() ==> s.with_pending(false).wf(),
        s.upgraded().wf(),
        s.downgraded_to_reader().wf(),
        s.downgraded_to_upgradable().wf(),
{
}

/// Giving a guard up undoes handing it out.
pub proof fn lemma_release_undoes_grant(s: LockState, access: Access)
    requires
        s.wf(),
        s.admits(access),
    ensures
        s.granted(access).holds(access),
        s.granted(access).released(access) == s,
{
}

} // verus!
