//! An upgradeable proxy's bookkeeping: which implementation calls are
//! forwarded to, and who may change that.

use vstd::prelude::*;
use crate::primitives::AccountId;

verus! {

/// Why a proxy operation was refused.
#[derive(Clone, Copy, Debug, PartialEq, Eq, Structural)]
pub enum Error {
    /// The caller is not the proxy's administrator.
    Unauthorized,
    UpgradeFailed,
}

/// Notifies that calls are now forwarded to another implementation.
#[derive(Clone, Copy, Debug, PartialEq, Eq)]
pub struct Upgraded {
    pub new_code_hash: crate::primitives::Hash,
}

/// Notifies that the proxy has another administrator.
#[derive(Clone, Copy, Debug, PartialEq, Eq)]
pub struct AdminChanged {
    pub new_admin: AccountId,
}

/// Any notification of the proxy.
#[derive(Clone, Copy, Debug, PartialEq, Eq)]
pub enum Event {
    Upgraded(Upgraded),
    AdminChanged(AdminChanged),
}

/// The state of a proxy.
pub struct ProxyState {
    pub code_hash: crate::primitives::Hash,
    pub admin: AccountId,
    /// Notifications queued and not yet taken by the host, oldest first.
    pub events: Seq<Event>,
}

impl ProxyState {
    /// Everything but reading is reserved to the administrator.
    pub open spec fn refusal(self, caller: AccountId) -> Option<Error> {
        if caller != self.admin {
            Some(Error::Unauthorized)
        } else {
            None
        }
    }

    /// The proxy after an upgrade, which is notified.
    pub open spec fn after_upgrade(self, new_code_hash: crate::primitives::Hash) -> ProxyState {
        ProxyState {
            code_hash: new_code_hash,
            events: self.events.push(Event::Upgraded(Upgraded { new_code_hash })),
            ..self
        }
    }

    /// The proxy after the role was handed over, which is notified.
    pub open spec fn after_change_admin(self, new_admin: AccountId) -> ProxyState {
        ProxyState {
            admin: new_admin,
            events: self.events.push(Event::AdminChanged(AdminChanged { new_admin })),
            ..self
        }
    }
}

/// A transparent proxy: the hash of the implementation in force and the
/// administrator who may replace it.
pub struct TransparentProxy {
    code_hash: crate::primitives::Hash,
    admin: AccountId,
    events: Vec<Event>,
}

impl View for TransparentProxy {
    type V = ProxyState;

    closed spec fn view(&self) -> ProxyState {
        ProxyState { code_hash: self.code_hash, admin: self.admin, events: self.events@ }
    }
}

impl TransparentProxy {
    /// A proxy in front of `code_hash`, administered by `admin`.
    pub fn new(admin: AccountId, code_hash: crate::primitives::Hash) -> (r: Self)
        ensures
            r@ == (ProxyState { code_hash, admin, events: Seq::empty() }),
    {
        TransparentProxy { code_hash, admin, events: Vec::new() }
    }

    /// Succeeds exactly when `caller` is the administrator.
    pub fn ensure_admin(&self, caller: AccountId) -> (r: Result<(), Error>)
        ensures
            match self@.refusal(caller) {
                Some(e) => r == Err::<(), Error>(e),
                None => r.is_ok(),
            },
    {
        if caller != self.admin {
            return Err(Error::Unauthorized);
        }
        Ok(())
    }

    /// Points the proxy at another implementation. Only the administrator
    /// may.
    pub fn upgrade_to(&mut self, caller: AccountId, new_code_hash: crate::primitives::Hash) -> (r:
        Result<(), Error>)
        ensures
            match old(self)@.refusal(caller) {
                Some(e) => r == Err::<(), Error>(e) && final(self)@ == old(self)@,
                None => r.is_ok() && final(self)@ == old(self)@.after_upgrade(new_code_hash),
            },
    {
        match self.ensure_admin(caller) {
            Ok(_) => {},
            Err(e) => {
                return Err(e);
            },
        }
        self.code_hash = new_code_hash;
        self.events.push(Event::Upgraded(Upgraded { new_code_hash }));
        Ok(())
    }

    /// Hands the administrator's role to `new_admin`. Only the current
    /// administrator may.
    pub fn change_admin(
        &mut self,
        caller: AccountId,
        new_admin: AccountId,
    ) -> (r: Result<(), Error>)
        ensures
            match old(self)@.refusal(caller) {
                Some(e) => r == Err::<(), Error>(e) && final(self)@ == old(self)@,
                None => r.is_ok() && final(self)@ == old(self)@.after_change_admin(new_admin),
            },
    {
        match self.ensure_admin(caller) {
            Ok(_) => {},
            Err(e) => {
                return Err(e);
            },
        }
        self.admin = new_admin;
        self.events.push(Event::AdminChanged(AdminChanged { new_admin }));
        Ok(())
    }

    /// The implementation that calls are forwarded to.
    pub fn code_hash(&self) -> (r: crate::primitives::Hash)
        ensures
            r == self@.code_hash,
    {
        self.code_hash
    }

    /// The administrator.
    pub fn admin(&self) -> (r: AccountId)
        ensures
            r == self@.admin,
    {
        self.admin
    }

    /// Hands over the queued notifications, oldest first, and empties the
    /// queue.
    pub fn take_events(&mut self) -> (r: Vec<Event>)
        ensures
            r@ == old(self)@.events,
            final(self)@ == (ProxyState { events: Seq::empty(), ..old(self)@ }),
    {
        let mut taken: Vec<Event> = Vec::new();
        core::mem::swap(&mut self.events, &mut taken);
        taken
    }
}

/// Once the administrator has handed the role over, the former
/// administrator can change nothing any more, and the new one can.
pub proof fn law_admin_handover(
    s: ProxyState,
    new_admin: AccountId,
)
    ensures
        s.admin != new_admin ==> s.after_change_admin(new_admin).refusal(s.admin) == Some(
            Error::Unauthorized,
        ),
        s.after_change_admin(new_admin).refusal(new_admin).is_none(),
{
}

} // verus!
