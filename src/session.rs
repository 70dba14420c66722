use vstd::prelude::*;

verus! {

/// Why a capture could not be started.
#[derive(Debug, Clone, Copy, PartialEq, Eq, Structural)]
pub enum CaptureError {
    /// A capture session is already running; the running one is left untouched.
    AlreadyCapturing,
}

impl CaptureError {
    /// Text of the error, as reported to the UI layer.
    pub fn message(&self) -> (r: String)
        ensures
            r@ == "Already capturing"@,
    {
        String::from_str("Already capturing")
    }
}

/// The single source of truth for whether a capture is running.
///
/// Each successful `start` opens a new logical session, identified by a
/// token. The sampling loop of a session keeps running only while that
/// session is the current one (`keeps_running`), so a loop left over from a
/// stopped session can never run beside a newer one.
#[derive(Debug, Clone, Copy, PartialEq, Eq, Structural)]
pub struct CaptureSession {
    pub is_capturing: bool,
    pub active_monitor: Option<u32>,
    /// Token of the most recently started session.
    pub generation: u64,
}

impl CaptureSession {
    /// `active_monitor` is present exactly while a capture runs.
    pub open spec fn wf(self) -> bool {
        self.is_capturing <==> self.active_monitor is Some
    }

    /// The state after `start(monitor_id)`.
    pub open spec fn started(self, monitor_id: u32) -> CaptureSession {
        if self.is_capturing {
            self
        } else {
            CaptureSession {
                is_capturing: true,
                active_monitor: Some(monitor_id),
                generation: next_token(self.generation),
            }
        }
    }

    /// The state after `stop()`.
    pub open spec fn stopped(self) -> CaptureSession {
        CaptureSession { is_capturing: false, active_monitor: None, generation: self.generation }
    }

    /// Whether the sampling loop holding `token` may run another iteration.
    pub open spec fn live(self, token: u64) -> bool {
        self.is_capturing && self.generation == token
    }

    /// An idle controller, as at process start.
    pub fn new() -> (r: CaptureSession)
        ensures
            r.wf(),
            !r.is_capturing,
            r.active_monitor is None,
            r.generation == 0,
    {
        CaptureSession { is_capturing: false, active_monitor: None, generation: 0 }
    }

    /// Opens a session on `monitor_id` and returns its token, or refuses
    /// without any change while a session is running.
    pub fn start(&mut self, monitor_id: u32) -> (r: Result<u64, CaptureError>)
        ensures
            *final(self) == old(self).started(monitor_id),
            old(self).is_capturing ==> r == Err::<u64, CaptureError>(CaptureError::AlreadyCapturing),
            !old(self).is_capturing ==> r == Ok::<u64, CaptureError>(final(self).generation),
            r matches Ok(token) ==> final(self).live(token),
            old(self).wf() ==> final(self).wf(),
    {
        if self.is_capturing {
            return Err(CaptureError::AlreadyCapturing);
        }
        let token: u64 = if self.generation == u64::MAX { 0 } else { self.generation + 1 };
        self.is_capturing = true;
        self.active_monitor = Some(monitor_id);
        self.generation = token;
        Ok(token)
    }

    /// Ends whatever session is running; a no-op when idle. The loop notices
    /// on its next iteration boundary.
    pub fn stop(&mut self)
        ensures
            *final(self) == old(self).stopped(),
            final(self).wf(),
            !final(self).is_capturing,
            final(self).active_monitor is None,
    {
        self.is_capturing = false;
        self.active_monitor = None;
    }

    /// Checked by the sampling loop once per iteration: whether the session
    /// that `token` identifies is still the running one.
    pub fn keeps_running(&self, token: u64) -> (r: bool)
        ensures
            r == self.live(token),
    {
        self.is_capturing && self.generation == token
    }

    /// Called by a loop that cannot go on (its monitor is gone): ends its own
    /// session, and leaves a newer session alone.
    pub fn abandon(&mut self, token: u64)
        ensures
            old(self).live(token) ==> *final(self) == old(self).stopped(),
            !old(self).live(token) ==> *final(self) == *old(self),
            !final(self).live(token),
            old(self).wf() ==> final(self).wf(),
    {
        if self.keeps_running(token) {
            self.stop();
        }
    }
}

/// The token after `t`, wrapping at the end of the range.
pub open spec fn next_token(t: u64) -> u64 {
    if t == u64::MAX { 0 } else { (t + 1) as u64 }
}

/// A request from the UI layer to the controller.
#[derive(Debug, Clone, Copy, PartialEq, Eq, Structural)]
pub enum SessionRequest {
    Start(u32),
    Stop,
}

/// The controller's state after serving `requests` in order from `s`.
pub open spec fn serve_all(s: CaptureSession, requests: Seq<SessionRequest>) -> CaptureSession
    decreases requests.len(),
{
    if requests.len() == 0 {
        s
    } else {
        let before = serve_all(s, requests.drop_last());
        match requests.last() {
            SessionRequest::Start(m) => before.started(m),
            SessionRequest::Stop => before.stopped(),
        }
    }
}

/// Whatever the requests, the controller stays well formed, and at most one
/// logical session is live: two loops that may both go on hold one token.
pub proof fn lemma_single_session(s: CaptureSession, requests: Seq<SessionRequest>, a: u64, b: u64)
    requires
        s.wf(),
    ensures
        serve_all(s, requests).wf(),
        serve_all(s, requests).live(a) && serve_all(s, requests).live(b) ==> a == b,
    decreases requests.len(),
{
    if requests.len() > 0 {
        lemma_single_session(s, requests.drop_last(), a, b);
    }
}

/// A start while capturing is refused and leaves the running session, its
/// monitor and its token as they were.
pub proof fn lemma_start_while_capturing(s: CaptureSession, monitor_id: u32)
    requires
        s.is_capturing,
    ensures
        s.started(monitor_id) == s,
        s.started(monitor_id).active_monitor == s.active_monitor,
{
}

/// Stopping twice is the same as stopping once, and stopping an idle
/// controller changes nothing of its observable state.
pub proof fn lemma_stop_idempotent(s: CaptureSession)
    ensures
        s.stopped().stopped() == s.stopped(),
        !s.is_capturing && s.wf() ==> s.stopped() == s,
{
}

} // verus!
