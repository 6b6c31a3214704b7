//! The emergency switch: an administrator pauses and resumes a contract,
//! and critical operations ask whether it is paused. Callers are named by
//! the accounts that the host has authenticated them as.

use vstd::prelude::*;
use crate::account::{opt_name, Account};

verus! {

/// Why an operation of the pausable contract was rejected.
#[derive(Copy, Clone, Debug, PartialEq, Eq, Structural)]
pub enum PausableError {
    NotInitialized,
    Unauthorized,
    ContractPaused,
    ContractNotPaused,
}

impl PausableError {
    /// The numeric code under which the error is reported.
    pub fn code(&self) -> (code: u32)
        ensures
            code == match *self {
                PausableError::NotInitialized => 1u32,
                PausableError::Unauthorized => 2u32,
                PausableError::ContractPaused => 3u32,
                PausableError::ContractNotPaused => 4u32,
            },
    {
        match self {
            PausableError::NotInitialized => 1,
            PausableError::Unauthorized => 2,
            PausableError::ContractPaused => 3,
            PausableError::ContractNotPaused => 4,
        }
    }
}

/// What the pausable contract reports, for its host to publish.
#[derive(Debug, PartialEq, Eq)]
pub enum PauseEvent {
    Initialized { admin: Account },
    Paused { by: Account },
    Unpaused { by: Account },
    AdminChanged { from: Account, to: Account },
}

impl PauseEvent {
    /// The pair of topic words under which the event is published.
    pub fn topics(&self) -> (topics: (&'static str, &'static str))
        ensures
            topics.0@ == "pausable"@,
            self is Initialized ==> topics.1@ == "initialized"@,
            self is Paused ==> topics.1@ == "paused"@,
            self is Unpaused ==> topics.1@ == "unpaused"@,
            self is AdminChanged ==> topics.1@ == "admin_changed"@,
    {
        match self {
            PauseEvent::Initialized { .. } => ("pausable", "initialized"),
            PauseEvent::Paused { .. } => ("pausable", "paused"),
            PauseEvent::Unpaused { .. } => ("pausable", "unpaused"),
            PauseEvent::AdminChanged { .. } => ("pausable", "admin_changed"),
        }
    }
}

/// The state of the pausable contract.
pub struct PausableContract {
    pub admin: Option<Account>,
    pub paused: bool,
    /// The events that were collected and not yet taken.
    pub events: Vec<PauseEvent>,
}

/// The message with which a second initialization is refused.
pub open spec fn already_initialized() -> Seq<char> {
    "Contract already initialized"@
}

/// The message with which a question to a contract without administrator
/// is refused.
pub open spec fn not_initialized() -> Seq<char> {
    "Contract not initialized"@
}

impl PausableContract {
    /// The contract before initialization: not paused.
    pub fn new() -> (contract: PausableContract)
        ensures
            contract.admin is None,
            !contract.paused,
            contract.events@.len() == 0,
    {
        PausableContract { admin: None, paused: false, events: Vec::new() }
    }

    /// Whether `caller` is the administrator.
    pub open spec fn is_admin(&self, caller: Seq<char>) -> bool {
        opt_name(self.admin) == Some(caller)
    }

    /// Why `caller` may not administer the contract, if it may not.
    pub open spec fn admin_error(&self, caller: Seq<char>) -> Option<PausableError> {
        if self.admin is None {
            Some(PausableError::NotInitialized)
        } else if !self.is_admin(caller) {
            Some(PausableError::Unauthorized)
        } else {
            None
        }
    }

    /// Makes `admin` the administrator of a contract that has none, and
    /// resumes it. A second initialization is refused and changes nothing.
    pub fn initialize(&mut self, admin: Account) -> (result: Result<(), &'static str>)
        ensures
            old(self).admin is Some ==> result is Err && result->Err_0@ == already_initialized()
                && *final(self) == *old(self),
            old(self).admin is None ==> {
                &&& result is Ok
                &&& final(self).is_admin(admin@)
                &&& !final(self).paused
                &&& final(self).events@.len() == old(self).events@.len() + 1
                &&& final(self).events@.drop_last() == old(self).events@
                &&& final(self).events@.last() matches PauseEvent::Initialized { admin: a } && a@
                    == admin@
            },
    {
        if self.admin.is_some() {
            return Err("Contract already initialized");
        }
        self.events.push(PauseEvent::Initialized { admin: admin.clone() });
        self.admin = Some(admin);
        self.paused = false;
        assert(self.events@.drop_last() =~= old(self).events@);
        Ok(())
    }

    /// `NotInitialized` where there is no administrator, `Unauthorized`
    /// where it is not `caller`.
    pub fn require_admin(&self, caller: &Account) -> (result: Result<(), PausableError>)
        ensures
            match self.admin_error(caller@) {
                Some(e) => result == Err::<(), PausableError>(e),
                None => result is Ok,
            },
    {
        match &self.admin {
            None => Err(PausableError::NotInitialized),
            Some(admin) => {
                if admin.same(caller) {
                    Ok(())
                } else {
                    Err(PausableError::Unauthorized)
                }
            },
        }
    }

    /// `ContractPaused` while the contract is paused.
    pub fn require_not_paused(&self) -> (result: Result<(), PausableError>)
        ensures
            self.paused ==> result == Err::<(), PausableError>(PausableError::ContractPaused),
            !self.paused ==> result is Ok,
    {
        if self.paused {
            Err(PausableError::ContractPaused)
        } else {
            Ok(())
        }
    }

    /// Why `caller` cannot bring the contract into the state `paused`, if
    /// it cannot: for its standing, or because the contract is there.
    pub open spec fn switch_error(&self, caller: Seq<char>, paused: bool) -> Option<PausableError> {
        if self.admin_error(caller) is Some {
            self.admin_error(caller)
        } else if self.paused == paused {
            Some(
                if paused {
                    PausableError::ContractPaused
                } else {
                    PausableError::ContractNotPaused
                },
            )
        } else {
            None
        }
    }

    /// Pauses the contract on behalf of the administrator.
    pub fn pause(&mut self, caller: Account) -> (result: Result<(), PausableError>)
        ensures
            match old(self).switch_error(caller@, true) {
                Some(e) => result == Err::<(), PausableError>(e) && *final(self) == *old(self),
                None => {
                    &&& result is Ok
                    &&& final(self).paused
                    &&& final(self).admin == old(self).admin
                    &&& final(self).events@.len() == old(self).events@.len() + 1
                    &&& final(self).events@.drop_last() == old(self).events@
                    &&& final(self).events@.last() matches PauseEvent::Paused { by } && by@ == caller@
                },
            },
    {
        match self.require_admin(&caller) {
            Err(e) => {
                return Err(e);
            },
            Ok(()) => {},
        }
        if self.paused {
            return Err(PausableError::ContractPaused);
        }
        self.paused = true;
        self.events.push(PauseEvent::Paused { by: caller });
        assert(self.events@.drop_last() =~= old(self).events@);
        Ok(())
    }

    /// Resumes the contract on behalf of the administrator.
    pub fn unpause(&mut self, caller: Account) -> (result: Result<(), PausableError>)
        ensures
            match old(self).switch_error(caller@, false) {
                Some(e) => result == Err::<(), PausableError>(e) && *final(self) == *old(self),
                None => {
                    &&& result is Ok
                    &&& !final(self).paused
                    &&& final(self).admin == old(self).admin
                    &&& final(self).events@.len() == old(self).events@.len() + 1
                    &&& final(self).events@.drop_last() == old(self).events@
                    &&& final(self).events@.last() matches PauseEvent::Unpaused { by } && by@ == caller@
                },
            },
    {
        match self.require_admin(&caller) {
            Err(e) => {
                return Err(e);
            },
            Ok(()) => {},
        }
        if !self.paused {
            return Err(PausableError::ContractNotPaused);
        }
        self.paused = false;
        self.events.push(PauseEvent::Unpaused { by: caller });
        assert(self.events@.drop_last() =~= old(self).events@);
        Ok(())
    }

    /// Whether the contract is paused.
    pub fn is_paused(&self) -> (paused: bool)
        ensures
            paused == self.paused,
    {
        self.paused
    }

    /// The administrator; refused where there is none.
    pub fn get_admin(&self) -> (result: Result<Account, &'static str>)
        ensures
            match self.admin {
                Some(admin) => result is Ok && result->Ok_0@ == admin@,
                None => result is Err && result->Err_0@ == not_initialized(),
            },
    {
        match &self.admin {
            Some(admin) => Ok(admin.clone()),
            None => Err("Contract not initialized"),
        }
    }

    /// Hands the administration over from `current_admin` to `new_admin`.
    pub fn set_admin(&mut self, current_admin: Account, new_admin: Account) -> (result: Result<
        (),
        PausableError,
    >)
        ensures
            match old(self).admin_error(current_admin@) {
                Some(e) => result == Err::<(), PausableError>(e) && *final(self) == *old(self),
                None => {
                    &&& result is Ok
                    &&& final(self).is_admin(new_admin@)
                    &&& final(self).paused == old(self).paused
                    &&& final(self).events@.len() == old(self).events@.len() + 1
                    &&& final(self).events@.drop_last() == old(self).events@
                    &&& final(self).events@.last() matches PauseEvent::AdminChanged { from, to }
                        && from@ == current_admin@ && to@ == new_admin@
                },
            },
    {
        match self.require_admin(&current_admin) {
            Err(e) => {
                return Err(e);
            },
            Ok(()) => {},
        }
        self.events.push(PauseEvent::AdminChanged { from: current_admin, to: new_admin.clone() });
        self.admin = Some(new_admin);
        assert(self.events@.drop_last() =~= old(self).events@);
        Ok(())
    }

    /// Hands out the collected events, oldest first, and forgets them.
    pub fn take_events(&mut self) -> (events: Vec<PauseEvent>)
        ensures
            events@ == old(self).events@,
            final(self).events@.len() == 0,
            final(self).admin == old(self).admin,
            final(self).paused == old(self).paused,
    {
        let mut events: Vec<PauseEvent> = Vec::new();
        std::mem::swap(&mut self.events, &mut events);
        events
    }
}

} // verus!
