//! The two-phase lifecycle binding protocol. The host calls the setup
//! entry point exactly once at program start, then the per-cycle entry
//! point once per tick. Setup runs user logic, stores the user state it
//! returns, and as its last action sets the guard to the sentinel. The
//! per-cycle entry point first checks the guard: if it is not the
//! sentinel the call is a documented no-op — the user state is neither
//! read nor constructed — otherwise user logic runs with exclusive,
//! call-confined borrows of the state image and the stored user state.
//! The borrows are tied to the entry point's own call frame, so user code
//! cannot stash either one beyond the current cycle.

use vstd::prelude::*;
use crate::layout::GUARD_SET;
use crate::state::Wasm4;

verus! {

/// User logic: what a program supplies to the two entry points. `setup`
/// creates the user state once; `cycle` runs every tick with confined
/// exclusive borrows of the user state and the state image. Neither
/// carries a contract: user logic is arbitrary.
pub trait Program: Sized {
    /// One-time user setup logic; its result is the persistent user state.
    fn setup(hw: &mut Wasm4) -> Self;

    /// Per-tick user logic.
    fn cycle(&mut self, hw: &mut Wasm4);
}

/// The process-wide storage behind the two entry points: the guard byte
/// and the slot holding the user state. `Uninitialized -> Ready` is the
/// only transition, driven once by `start`; `Ready` is terminal.
pub struct Runtime<P> {
    guard: u8,
    state: Option<P>,
}

impl<P> Runtime<P> {
    /// The guard byte's current value.
    pub closed spec fn spec_guard(self) -> u8 {
        self.guard
    }

    /// The stored user state, if setup has stored one.
    pub closed spec fn spec_state(self) -> Option<P> {
        self.state
    }

    /// Has one-time setup completed?
    pub open spec fn is_ready(self) -> bool {
        self.spec_guard() == GUARD_SET
    }

    /// Well-formedness: whenever the guard holds the sentinel, the user
    /// state has been stored. Constructors establish it and every method
    /// preserves it.
    pub open spec fn wf(self) -> bool {
        self.is_ready() ==> self.spec_state() is Some
    }

    /// Storage as the process starts: guard unset, no user state. Before
    /// setup runs the guard's value is never trusted as "set".
    pub fn new() -> (rt: Self)
        ensures
            rt.spec_guard() == 0,
            !rt.is_ready(),
            rt.spec_state() is None,
            rt.wf(),
    {
        Runtime { guard: 0, state: None }
    }

    /// Does the guard byte hold the sentinel?
    pub fn ready(&self) -> (r: bool)
        ensures
            r == self.is_ready(),
    {
        self.guard == GUARD_SET
    }
}

impl<P: Program> Runtime<P> {
    /// The setup entry point: runs user setup logic with a confined
    /// borrow of the state image, stores the returned user state, and as
    /// its last action writes the sentinel to the guard.
    pub fn start(&mut self, hw: &mut Wasm4)
        ensures
            final(self).is_ready(),
            final(self).spec_guard() == GUARD_SET,
            final(self).spec_state() is Some,
            final(self).wf(),
    {
        let s = P::setup(hw);
        self.state = Some(s);
        self.guard = GUARD_SET;
    }

    /// The per-cycle entry point. If the guard does not hold the sentinel
    /// the call returns at once — the user state is not read, nothing is
    /// changed, and no error is raised; the host calling too early is a
    /// documented no-op. Otherwise user cycle logic runs with exclusive
    /// borrows of the state image and the stored user state, both
    /// confined to this call.
    pub fn update(&mut self, hw: &mut Wasm4) -> (ran: bool)
        requires
            old(self).wf(),
        ensures
            final(self).wf(),
            ran == old(self).is_ready(),
            !ran ==> *final(self) == *old(self) && *final(hw) == *old(hw),
            final(self).spec_guard() == old(self).spec_guard(),
            ran ==> final(self).spec_state() is Some,
    {
        if self.guard != GUARD_SET {
            return false;
        }
        match &mut self.state {
            Some(s) => {
                s.cycle(hw);
            },
            None => {},
        }
        true
    }

    /// A read-only view of the stored user state, if one is stored.
    pub fn state(&self) -> (s: Option<&P>)
        ensures
            match s {
                Some(p) => self.spec_state() == Some(*p),
                None => self.spec_state() is None,
            },
    {
        match &self.state {
            Some(p) => Some(p),
            None => None,
        }
    }
}

} // verus!
