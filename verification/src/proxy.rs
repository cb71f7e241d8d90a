use vstd::prelude::*;
use crate::types::Address;

verus! {

/// Storage of the upgradeable proxy: its administrator, the implementation
/// calls are forwarded to, the pause flag raised while an upgrade migrates
/// state, and the history of upgrades as (timestamp, implementation).
pub struct StellAIverseProxy {
    pub initialized: bool,
    pub admin: Option<Address>,
    pub implementation: Option<Address>,
    pub paused: bool,
    pub history: Vec<(u64, Address)>,
}

impl StellAIverseProxy {
    /// Storage of a proxy that has not been initialised.
    pub fn new() -> (p: Self)
        ensures
            !p.initialized && p.admin is None && p.implementation is None && !p.paused,
            p.history@ == Seq::<(u64, Address)>::empty(),
    {
        StellAIverseProxy { initialized: false, admin: None, implementation: None, paused: false, history: Vec::new() }
    }

    /// One-time set-up: records the administrator and the first
    /// implementation, unpaused, with an empty upgrade history.
    pub fn init_proxy(&mut self, admin: Address, initial_implementation: Address)
        requires
            !old(self).initialized,
        ensures
            final(self).initialized,
            final(self).admin == Some(admin),
            final(self).implementation == Some(initial_implementation),
            !final(self).paused,
            final(self).history@ == Seq::<(u64, Address)>::empty(),
    {
        self.admin = Some(admin);
        self.implementation = Some(initial_implementation);
        self.paused = false;
        self.history = Vec::new();
        self.initialized = true;
    }

    /// The administrator whose authorisation upgrades, pauses and resumes need.
    pub fn admin(&self) -> (a: Address)
        requires
            self.admin is Some,
        ensures
            a == self.admin->0,
    {
        self.admin.unwrap()
    }

    /// First half of an upgrade (the administrator authorised): pauses the
    /// proxy, records the upgrade at `now` and points the proxy at
    /// `new_implementation`.  The host then runs the new implementation's
    /// `migrate` and finishes with `complete_upgrade`.
    pub fn upgrade(&mut self, new_implementation: Address, now: u64)
        requires
            old(self).admin is Some,
        ensures
            final(self).paused,
            final(self).implementation == Some(new_implementation),
            final(self).history@ == old(self).history@.push((now, new_implementation)),
            final(self).admin == old(self).admin,
            final(self).initialized == old(self).initialized,
    {
        self.paused = true;
        self.history.push((now, new_implementation));
        self.implementation = Some(new_implementation);
    }

    /// Second half of an upgrade, once the migration ran: unpauses the proxy.
    pub fn complete_upgrade(&mut self)
        ensures
            !final(self).paused,
            final(self).implementation == old(self).implementation,
            final(self).history@ == old(self).history@,
            final(self).admin == old(self).admin,
            final(self).initialized == old(self).initialized,
    {
        self.paused = false;
    }

    /// Pauses the proxy (the administrator authorised).
    pub fn pause(&mut self)
        requires
            old(self).admin is Some,
        ensures
            final(self).paused,
            final(self).implementation == old(self).implementation,
            final(self).history@ == old(self).history@,
            final(self).admin == old(self).admin,
            final(self).initialized == old(self).initialized,
    {
        self.paused = true;
    }

    /// Resumes the proxy (the administrator authorised).
    pub fn resume(&mut self)
        requires
            old(self).admin is Some,
        ensures
            !final(self).paused,
            final(self).implementation == old(self).implementation,
            final(self).history@ == old(self).history@,
            final(self).admin == old(self).admin,
            final(self).initialized == old(self).initialized,
    {
        self.paused = false;
    }

    /// Whether the proxy is paused.
    pub fn is_paused(&self) -> (b: bool)
        ensures
            b == self.paused,
    {
        self.paused
    }

    /// The current implementation.
    pub fn implementation(&self) -> (a: Address)
        requires
            self.implementation is Some,
        ensures
            a == self.implementation->0,
    {
        self.implementation.unwrap()
    }

    /// The upgrades made so far, oldest first.
    pub fn upgrade_history(&self) -> (h: &Vec<(u64, Address)>)
        ensures
            h@ == self.history@,
    {
        &self.history
    }

    /// The implementation a call is forwarded to; calls are refused while
    /// the proxy is paused.
    pub fn dispatch(&self) -> (target: Address)
        requires
            !self.paused,
            self.implementation is Some,
        ensures
            target == self.implementation->0,
    {
        self.implementation.unwrap()
    }
}

/// An upgrade leaves the proxy paused until it completes, then unpaused and
/// pointing at the new implementation, with one more history entry.
pub proof fn upgrade_then_complete(before: StellAIverseProxy, during: StellAIverseProxy, after: StellAIverseProxy,
    new_implementation: Address, now: u64)
    requires
        during.paused,
        during.implementation == Some(new_implementation),
        during.history@ == before.history@.push((now, new_implementation)),
        !after.paused,
        after.implementation == during.implementation,
        after.history@ == during.history@,
    ensures
        after.implementation == Some(new_implementation),
        !after.paused,
        after.history@.len() == before.history@.len() + 1,
        after.history@.last() == (now, new_implementation),
{
}

/// A test contract that remembers the last number it was pinged with.
pub struct Receiver {
    pub last: Option<u32>,
}

impl Receiver {
    /// A receiver that was never pinged.
    pub fn new() -> (r: Self)
        ensures
            r.last is None,
    {
        Receiver { last: None }
    }

    /// Remembers `input` and answers with its successor.
    pub fn ping(&mut self, input: u32) -> (out: u32)
        requires
            input < u32::MAX,
        ensures
            out == input + 1,
            final(self).last == Some(input),
    {
        self.last = Some(input);
        input + 1
    }

    /// The last number pinged, if any.
    pub fn last(&self) -> (r: Option<u32>)
        ensures
            r == self.last,
    {
        self.last
    }
}

} // verus!
