//! The sync engine: the session state and the two running-service handles,
//! modelled as presence flags, with the start/shutdown decision logic. The
//! surrounding application performs the network work a plan asks for and
//! reports completion back; each handle's presence flag is the authoritative
//! "is running" state — there is no separate boolean.

use vstd::prelude::*;

verus! {

use crate::session::SessionState;

/// What a `start_server` call still has to bring up: the services without a
/// live handle. Both false means the call is a no-op.
pub struct StartPlan {
    pub start_mdns: bool,
    pub start_http: bool,
}

/// What a `shutdown_server` call has to tear down: the services whose handle
/// was present and has now been consumed. Both false means the call is a
/// no-op; shutdown never errors.
pub struct ShutdownPlan {
    pub stop_mdns: bool,
    pub stop_http: bool,
}

/// The engine object: session state plus the discovery daemon's and the
/// receiver's running flags.
pub struct SyncEngine {
    session: SessionState,
    mdns_running: bool,
    http_running: bool,
}

impl SyncEngine {
    /// The engine's session state.
    pub closed spec fn spec_session(&self) -> SessionState {
        self.session
    }

    /// Whether the discovery daemon's handle is present.
    pub closed spec fn spec_mdns_running(&self) -> bool {
        self.mdns_running
    }

    /// Whether the receiver's shutdown signal is present.
    pub closed spec fn spec_http_running(&self) -> bool {
        self.http_running
    }

    /// The engine is well-formed when its session state is.
    pub open spec fn wf(&self) -> bool {
        self.spec_session().wf()
    }

    /// A fresh engine: no PIN, nothing running.
    pub fn new() -> (r: SyncEngine)
        ensures
            r.wf(),
            r.spec_session().spec_pin() is None,
            !r.spec_mdns_running(),
            !r.spec_http_running(),
    {
        SyncEngine { session: SessionState::new(), mdns_running: false, http_running: false }
    }

    /// Whether the discovery daemon is running.
    pub fn is_mdns_running(&self) -> (r: bool)
        ensures
            r == self.spec_mdns_running(),
    {
        self.mdns_running
    }

    /// Whether the receiver is running.
    pub fn is_http_server_running(&self) -> (r: bool)
        ensures
            r == self.spec_http_running(),
    {
        self.http_running
    }

    /// A consistent read of the session's pairing hash and key, for the
    /// receiver and the sender; the key, when present, is 32 bytes long.
    pub fn snapshot(&self) -> (r: (Option<String>, Option<Vec<u8>>))
        requires
            self.wf(),
        ensures
            r.0.deep_view() == self.spec_session().spec_hash(),
            r.1.deep_view() == self.spec_session().spec_key(),
            r.1 matches Some(k) ==> k@.len() == 32,
    {
        proof {
            self.session.lemma_wf();
            match self.session.spec_key() {
                Option::Some(k) => {
                    assert(self.session.spec_key() matches Some(s) && s.len() == 32);
                },
                Option::None => {},
            }
        }
        let r = self.session.snapshot();
        proof {
            match &r.1 {
                Option::Some(k) => {
                    assert(r.1.deep_view() matches Some(s) && s =~= k@);
                },
                Option::None => {},
            }
        }
        r
    }

    /// Configure the session from the given PIN, then say which services
    /// must still be brought up. Starting while already running asks for
    /// nothing and, with an identical PIN, changes nothing at all.
    pub fn start_server(&mut self, pin: Option<String>) -> (r: StartPlan)
        requires
            old(self).wf(),
        ensures
            final(self).wf(),
            final(self).spec_session().spec_pin() == pin.deep_view(),
            old(self).spec_session().spec_pin() == pin.deep_view() ==> final(self).spec_session()
                == old(self).spec_session(),
            final(self).spec_mdns_running() == old(self).spec_mdns_running(),
            final(self).spec_http_running() == old(self).spec_http_running(),
            r.start_mdns == !old(self).spec_mdns_running(),
            r.start_http == !old(self).spec_http_running(),
    {
        self.session.configure(pin);
        StartPlan { start_mdns: !self.mdns_running, start_http: !self.http_running }
    }

    /// Record that the discovery daemon came up and its handle is held.
    pub fn mdns_started(&mut self)
        ensures
            final(self).spec_mdns_running(),
            final(self).spec_http_running() == old(self).spec_http_running(),
            final(self).spec_session() == old(self).spec_session(),
    {
        self.mdns_running = true;
    }

    /// Record that the receiver came up and its shutdown signal is held.
    pub fn http_server_started(&mut self)
        ensures
            final(self).spec_http_running(),
            final(self).spec_mdns_running() == old(self).spec_mdns_running(),
            final(self).spec_session() == old(self).spec_session(),
    {
        self.http_running = true;
    }

    /// Consume the discovery daemon's handle. Says whether teardown must be
    /// performed; a no-op when nothing is running.
    pub fn shutdown_mdns(&mut self) -> (r: bool)
        ensures
            !final(self).spec_mdns_running(),
            final(self).spec_http_running() == old(self).spec_http_running(),
            final(self).spec_session() == old(self).spec_session(),
            r == old(self).spec_mdns_running(),
    {
        let was_running = self.mdns_running;
        self.mdns_running = false;
        was_running
    }

    /// Consume the receiver's shutdown signal. Says whether it must be
    /// fired; a no-op when nothing is running.
    pub fn shutdown_http_server(&mut self) -> (r: bool)
        ensures
            !final(self).spec_http_running(),
            final(self).spec_mdns_running() == old(self).spec_mdns_running(),
            final(self).spec_session() == old(self).spec_session(),
            r == old(self).spec_http_running(),
    {
        let was_running = self.http_running;
        self.http_running = false;
        was_running
    }

    /// Tear the engine down: consume both handles and say which services
    /// the caller must actually stop. Never errors; idempotent.
    pub fn shutdown_server(&mut self) -> (r: ShutdownPlan)
        ensures
            final(self).spec_session() == old(self).spec_session(),
            !final(self).spec_mdns_running(),
            !final(self).spec_http_running(),
            r.stop_mdns == old(self).spec_mdns_running(),
            r.stop_http == old(self).spec_http_running(),
    {
        let stop_mdns = self.shutdown_mdns();
        let stop_http = self.shutdown_http_server();
        ShutdownPlan { stop_mdns, stop_http }
    }
}

/// Law (idempotence): a second `start_server` with an identical PIN while
/// both services are already running leaves the engine exactly as it was
/// and asks for no action — no duplicate registration, no error. Stated
/// over the engine's functional contract: from any well-formed running
/// state whose PIN already equals the one given, the ensured final state is
/// the old state and the ensured plan starts nothing.
pub proof fn lemma_start_idempotent(e: SyncEngine, pin: Option<Seq<char>>)
    requires
        e.wf(),
        e.spec_mdns_running(),
        e.spec_http_running(),
        e.spec_session().spec_pin() == pin,
    ensures
        forall|e2: SyncEngine, r: StartPlan|
            (
            // the ensures of `start_server` on (e, pin), for outcome (e2, r)
            e2.spec_session().spec_pin() == pin && (e.spec_session().spec_pin() == pin
                ==> e2.spec_session() == e.spec_session()) && e2.spec_mdns_running()
                == e.spec_mdns_running() && e2.spec_http_running() == e.spec_http_running()
                && r.start_mdns == !e.spec_mdns_running() && r.start_http
                == !e.spec_http_running()) ==> (e2.spec_session() == e.spec_session()
            && e2.spec_mdns_running() && e2.spec_http_running() && !r.start_mdns && !r.start_http),
{
}

/// Law (idempotence): `shutdown_server` on an engine with nothing running
/// reports nothing to stop and leaves the session untouched; it never
/// errors.
pub proof fn lemma_shutdown_idempotent(e: SyncEngine)
    requires
        !e.spec_mdns_running(),
        !e.spec_http_running(),
    ensures
        forall|e2: SyncEngine, r: ShutdownPlan|
            (e2.spec_session() == e.spec_session() && !e2.spec_mdns_running()
                && !e2.spec_http_running() && r.stop_mdns == e.spec_mdns_running() && r.stop_http
                == e.spec_http_running()) ==> (e2.spec_session() == e.spec_session()
            && !r.stop_mdns && !r.stop_http),
{
}

} // verus!
