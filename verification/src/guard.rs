//! The process-wide instance guard.
//!
//! At most one session exists per process.  The guard owns the single slot
//! that holds it and is the one source of truth for "is a session alive":
//! `init` claims the slot atomically or fails, construction installs the
//! session or aborts, and `deinit` releases it.  A partially constructed
//! session is never visible in the slot.
//!
//! `init` itself is long-running: the shell that drives the native loop
//! claims the slot, performs the toolkit and widget construction stages,
//! reports each stage's outcome here, and only returns to its caller after
//! the loop has been stopped by `deinit`.

use vstd::prelude::*;
use crate::builder::BuildFailure;
use crate::protocol;
use crate::session::TraySession;
use vstd::string::StringExecFns;

verus! {

/// Why an `init` call failed, per failure stage.
#[derive(Debug, PartialEq, Eq)]
pub enum InitError {
    /// A session was already active (or being built); the call had no other
    /// effect.
    AlreadyActive,
    /// The underlying UI toolkit could not start; carries the toolkit's own
    /// description of the failure.
    ToolkitInit(String),
    /// A widget or resource failed to construct; names the failing step and
    /// carries the toolkit's description.
    Build(BuildFailure),
}

/// The status code returned over the boundary for an `init` outcome: a
/// distinct negative integer per failure stage, zero for success.
pub open spec fn spec_status_code(r: Result<(), InitError>) -> int {
    match r {
        Ok(()) => 0,
        Err(InitError::AlreadyActive) => -1,
        Err(InitError::ToolkitInit(_)) => -2,
        Err(InitError::Build(_)) => -3,
    }
}

/// The description that an init-time failure is reported with.
pub open spec fn spec_failure_description(e: InitError) -> Seq<char> {
    match e {
        InitError::AlreadyActive => "Already inited"@,
        InitError::ToolkitInit(detail) => "Nwg init error: "@ + detail@,
        InitError::Build(failure) => "Tray build error: "@ + failure.detail@,
    }
}

/// The status code for an `init` outcome.
pub fn status_code(r: &Result<(), InitError>) -> (c: i32)
    ensures
        c == spec_status_code(*r),
{
    match r {
        Ok(()) => 0,
        Err(InitError::AlreadyActive) => -1,
        Err(InitError::ToolkitInit(_)) => -2,
        Err(InitError::Build(_)) => -3,
    }
}

/// The `!`-tagged message duplicating an init-time failure onto the
/// callback channel, so a host polling only the callback observes it.
pub fn failure_report(e: &InitError) -> (r: String)
    ensures
        r@ == protocol::spec_failure_message(spec_failure_description(*e)),
{
    let desc = match e {
        InitError::AlreadyActive => String::from_str("Already inited"),
        InitError::ToolkitInit(detail) => {
            let mut d = String::from_str("Nwg init error: ");
            d.append(detail.as_str());
            d
        },
        InitError::Build(failure) => {
            let mut d = String::from_str("Tray build error: ");
            d.append(failure.detail.as_str());
            d
        },
    };
    protocol::failure_message(desc.as_str())
}

/// The slot that holds at most one live session.
///
/// `building` marks a claim whose construction is still under way; while it
/// stands, no session is in the slot, so neither `deinit` nor the event
/// dispatch can ever observe a partially constructed session.
pub struct InstanceGuard {
    pub building: bool,
    pub session: Option<TraySession>,
}

/// The slot after the claim step: an empty slot is claimed for building,
/// any other slot is left exactly as it is.
pub open spec fn spec_claim(g: InstanceGuard) -> (InstanceGuard, Result<(), InitError>) {
    if g.is_empty() {
        (InstanceGuard { building: true, session: None }, Ok(()))
    } else {
        (g, Err(InitError::AlreadyActive))
    }
}

/// The slot after a session is installed into a claimed slot.
pub open spec fn spec_install(g: InstanceGuard, session: TraySession) -> InstanceGuard {
    InstanceGuard { building: false, session: Some(session) }
}

/// The slot after `deinit`'s release: whatever session was there is gone; a
/// claim still being built is untouched, since no session is visible in it.
pub open spec fn spec_release(g: InstanceGuard) -> InstanceGuard {
    InstanceGuard { building: g.building, session: None }
}

impl InstanceGuard {
    /// The slot holds no session and no construction is under way.
    pub open spec fn is_empty(self) -> bool {
        !self.building && self.session is None
    }

    /// A session is live in the slot.
    pub open spec fn is_active(self) -> bool {
        self.session is Some
    }

    /// A claimed or occupied slot never holds both marks, and any session
    /// in it is well formed.
    pub open spec fn wf(self) -> bool {
        &&& self.building ==> self.session is None
        &&& self.session is Some ==> self.session.unwrap().wf()
    }

    /// A fresh, empty slot.
    pub fn new() -> (r: InstanceGuard)
        ensures
            r.wf(),
            r.is_empty(),
    {
        InstanceGuard { building: false, session: None }
    }

    /// The claim-or-fail step of `init`.  On an empty slot the claim
    /// succeeds and construction may begin; on any other slot the double
    /// initialization is refused as `AlreadyActive` and the guard — and so
    /// the live session's whole state — is left exactly as it was.
    pub fn try_claim(&mut self) -> (r: Result<(), InitError>)
        requires
            old(self).wf(),
        ensures
            final(self).wf(),
            (*final(self), r) == spec_claim(*old(self)),
    {
        if !self.building && self.session.is_none() {
            self.building = true;
            Ok(())
        } else {
            Err(InitError::AlreadyActive)
        }
    }

    /// Abandon a claimed slot after a failed construction stage: the slot
    /// is empty again, and no partially built session was ever visible.
    pub fn abort_build(&mut self)
        requires
            old(self).wf(),
            old(self).building,
        ensures
            final(self).wf(),
            final(self).is_empty(),
    {
        self.building = false;
    }

    /// Install the completely built session into the claimed slot.
    pub fn install(&mut self, session: TraySession)
        requires
            old(self).wf(),
            old(self).building,
            session.wf(),
        ensures
            final(self).wf(),
            *final(self) == spec_install(*old(self), session),
            final(self).is_active(),
    {
        self.building = false;
        self.session = Some(session);
    }

    /// The slot-release effect of `deinit`.  It is safe on any slot: with
    /// no session it does nothing at all, with a live session it removes
    /// it; the released session's native resources are then dropped
    /// together by the shell.  It returns nothing and emits no protocol
    /// message, so the host callback is never invoked by a release.
    pub fn release(&mut self)
        requires
            old(self).wf(),
        ensures
            final(self).wf(),
            *final(self) == spec_release(*old(self)),
            final(self).session is None,
            old(self).session is None ==> *final(self) == *old(self),
    {
        self.session = None;
    }
}

/// Law: `init` twice without an intervening `deinit` fails.  After a first
/// claim and a successful install of a session, a second claim returns
/// `AlreadyActive` and leaves the guard — including the installed session's
/// configuration and menu enablement — unchanged.
pub proof fn lemma_double_init_rejected(g: InstanceGuard, session: TraySession)
    requires
        g.wf(),
        g.is_empty(),
    ensures
        ({
            let claimed = spec_claim(g);
            let active = spec_install(claimed.0, session);
            let second = spec_claim(active);
            &&& claimed.1 is Ok
            &&& second.1 == Err::<(), InitError>(InitError::AlreadyActive)
            &&& second.0 == active
            &&& second.0.session == Some(session)
        }),
{
}

/// Law: `deinit` is idempotent.  Releasing a slot that holds no session
/// changes nothing, and releasing any slot a second (or nth) time is the
/// same as releasing it once; no release ever produces a protocol message.
pub proof fn lemma_release_idempotent(g: InstanceGuard)
    ensures
        g.session is None ==> spec_release(g) == g,
        spec_release(spec_release(g)) == spec_release(g),
{
}

/// Law: the slot is correctly released.  After a claim, an install and a
/// release — the lifecycle of a session whose loop `deinit` has stopped,
/// upon which the blocking `init` call returns — a wholly new `init` claim
/// succeeds again.
pub proof fn lemma_reinit_after_release(g: InstanceGuard, session: TraySession)
    requires
        g.wf(),
        g.is_empty(),
    ensures
        ({
            let claimed = spec_claim(g);
            let active = spec_install(claimed.0, session);
            let released = spec_release(active);
            &&& claimed.1 is Ok
            &&& released.is_empty()
            &&& spec_claim(released).1 is Ok
        }),
{
}

} // verus!
