//! Per-connection extension instances and the outbound-call correlation
//! protocol.
//!
//! An instance is identified by the opaque numeric context identity the
//! host assigned to it, shares an immutable configuration snapshot and the
//! plugin's metric handles with its siblings, and tracks at most one
//! pending outbound call.  Every issued correlation handle must be matched
//! by exactly one completion callback carrying the same handle.

use std::rc::Rc;
use vstd::prelude::*;

use crate::config::ExtensionConfig;
use crate::host::{ExtensionError, ExtensionResult};

verus! {

/// An opaque correlation token pairing an issued outbound call with its
/// eventual completion callback.
#[derive(Copy, Clone, PartialEq, Eq, Structural, Hash, Debug)]
pub struct RequestHandle(pub u32);

/// Handles to the plugin-level metrics the host registered.  The metrics
/// themselves live on the host side; sharing the handle values shares the
/// metrics.
#[derive(Copy, Clone, PartialEq, Eq, Structural, Debug)]
pub struct StatsHandles {
    /// Handle of the counter of requests seen.
    pub requests_total: u32,
    /// Handle of the gauge of outbound calls in flight.
    pub requests_active: u32,
}

/// Mathematical state of one extension instance.
pub ghost struct InstanceView {
    /// The context identity the host assigned to this instance.
    pub context_id: u32,
    /// The configuration snapshot shared with the factory that created it.
    pub config: Seq<u8>,
    /// The metric handles shared with the factory that created it.
    pub stats: StatsHandles,
    /// The correlation handle of the outbound call awaiting completion.
    pub active: Option<u32>,
    /// How many outbound calls were ever issued.
    pub issued: nat,
    /// How many completion callbacks were ever consumed.
    pub completed: nat,
}

impl InstanceView {
    /// The state a freshly created instance starts in.
    pub open spec fn init(context_id: u32, config: Seq<u8>, stats: StatsHandles) -> InstanceView {
        InstanceView {
            context_id,
            config,
            stats,
            active: None,
            issued: 0,
            completed: 0,
        }
    }

    /// Correlation bookkeeping is balanced: every issued handle but the
    /// active one has been completed.
    pub open spec fn wf(self) -> bool {
        &&& self.issued <= u64::MAX
        &&& match self.active {
            Some(_) => self.issued == self.completed + 1,
            None => self.issued == self.completed,
        }
    }
}

/// How issuing an outbound call with handle `h` changes an instance.
pub open spec fn send_step(v: InstanceView, h: u32) -> InstanceView {
    InstanceView { active: Some(h), issued: v.issued + 1, ..v }
}

/// How a completion callback carrying handle `h` changes an instance: the
/// state after the callback, and whether the handle matched the active one.
/// A mismatched handle changes nothing.
pub open spec fn response_step(v: InstanceView, h: u32) -> (InstanceView, bool) {
    if v.active == Some(h) {
        (InstanceView { active: None, completed: v.completed + 1, ..v }, true)
    } else {
        (v, false)
    }
}

/// One extension instance: the per-connection unit of business logic.
pub struct ExtensionInstance {
    context_id: u32,
    config: Rc<ExtensionConfig>,
    stats: StatsHandles,
    active_request: Option<RequestHandle>,
    issued: u64,
    completed: u64,
}

impl View for ExtensionInstance {
    type V = InstanceView;

    closed spec fn view(&self) -> InstanceView {
        InstanceView {
            context_id: self.context_id,
            config: self.config@,
            stats: self.stats,
            active: match self.active_request {
                Some(h) => Some(h.0),
                None => None,
            },
            issued: self.issued as nat,
            completed: self.completed as nat,
        }
    }
}

impl ExtensionInstance {
    /// Creates an instance under the given context identity, sharing the
    /// factory's current configuration snapshot and metric handles.
    pub(crate) fn new(context_id: u32, config: Rc<ExtensionConfig>, stats: StatsHandles) -> (r:
        ExtensionInstance)
        ensures
            r@ == InstanceView::init(context_id, config@, stats),
            r@.wf(),
    {
        ExtensionInstance {
            context_id,
            config,
            stats,
            active_request: None,
            issued: 0,
            completed: 0,
        }
    }

    /// The context identity the host assigned to this instance.
    pub fn context_id(&self) -> (r: u32)
        ensures
            r == self@.context_id,
    {
        self.context_id
    }

    /// The configuration snapshot this instance was created under.
    pub fn config_value(&self) -> (r: &Vec<u8>)
        ensures
            r@ == self@.config,
    {
        &self.config.value
    }

    /// The metric handles this instance shares with its factory.
    pub fn stats(&self) -> (r: StatsHandles)
        ensures
            r == self@.stats,
    {
        self.stats
    }

    /// The correlation handle of the outbound call awaiting completion,
    /// if one is pending.
    pub fn active_request(&self) -> (r: Option<RequestHandle>)
        ensures
            match r {
                Some(h) => self@.active == Some(h.0),
                None => self@.active is None,
            },
    {
        self.active_request
    }

    /// How many outbound calls this instance has issued.
    pub fn issued_count(&self) -> (r: u64)
        ensures
            r == self@.issued,
    {
        self.issued
    }

    /// How many completion callbacks this instance has consumed.
    pub fn completed_count(&self) -> (r: u64)
        ensures
            r == self@.completed,
    {
        self.completed
    }

    /// Records that an outbound call was issued under `handle`.  The
    /// instance stores the handle before any host call could reenter, so a
    /// nested callback never observes stale state.
    pub fn record_issued(&mut self, handle: RequestHandle)
        requires
            old(self)@.wf(),
            old(self)@.active is None,
            old(self)@.issued < u64::MAX,
        ensures
            final(self)@ == send_step(old(self)@, handle.0),
            final(self)@.wf(),
    {
        self.active_request = Some(handle);
        self.issued = self.issued + 1;
    }

    /// Issues a fire-and-forget outbound HTTP call through the host and
    /// stores the correlation handle the host assigned as this instance's
    /// active request.  Refused by the host only with a host error, which
    /// leaves the instance untouched.
    pub fn send_request(
        &mut self,
        upstream: &str,
        headers: &Vec<(String, String)>,
        body: Option<&[u8]>,
        trailers: &Vec<(String, String)>,
        timeout_ms: u32,
    ) -> (r: ExtensionResult<RequestHandle>)
        requires
            old(self)@.wf(),
            old(self)@.active is None,
            old(self)@.issued < u64::MAX,
        ensures
            final(self)@.wf(),
            r matches Ok(h) ==> final(self)@ == send_step(old(self)@, h.0),
            r is Err ==> (r matches Err(e) && e matches ExtensionError::HostCall(_))
                && final(self)@ == old(self)@,
    {
        match crate::abi::dispatch_call(upstream, headers, body, trailers, timeout_ms) {
            Ok(token) => {
                let handle = RequestHandle(token);
                self.record_issued(handle);
                Ok(handle)
            },
            Err(e) => Err(ExtensionError::HostCall(e)),
        }
    }

    /// Consumes the completion callback for `handle`.  The handle must
    /// equal the instance's active one; a mismatch means host and guest
    /// bookkeeping are out of step, and is reported without touching any
    /// counter.
    pub fn on_http_call_response(&mut self, handle: RequestHandle) -> (r: ExtensionResult<()>)
        requires
            old(self)@.wf(),
        ensures
            final(self)@ == response_step(old(self)@, handle.0).0,
            final(self)@.wf(),
            r is Ok == response_step(old(self)@, handle.0).1,
            r is Err ==> r == ExtensionResult::<()>::Err(ExtensionError::CorrelationMismatch)
                && final(self)@ == old(self)@,
    {
        match self.active_request {
            Some(active) => {
                if active == handle {
                    self.active_request = None;
                    self.completed = self.completed + 1;
                    Ok(())
                } else {
                    Err(ExtensionError::CorrelationMismatch)
                }
            },
            None => Err(ExtensionError::CorrelationMismatch),
        }
    }
}

/// Correlation invariant: in every balanced state the active-request slot
/// is empty exactly when every issued handle has been completed.
pub proof fn lemma_correlation_balance(v: InstanceView)
    requires
        v.wf(),
    ensures
        (v.active is None) <==> (v.issued == v.completed),
{
}

/// One full send/complete cycle: issuing a handle and consuming its
/// matching completion returns the instance to a balanced state with
/// issued and completed counts both one higher, leaving identity,
/// configuration and metric handles untouched.
pub proof fn lemma_request_cycle(v: InstanceView, h: u32)
    requires
        v.wf(),
        v.active is None,
        v.issued < u64::MAX,
    ensures
        send_step(v, h).wf(),
        send_step(v, h).active == Some(h),
        response_step(send_step(v, h), h).1,
        response_step(send_step(v, h), h).0.wf(),
        response_step(send_step(v, h), h).0.active is None,
        response_step(send_step(v, h), h).0.issued == v.issued + 1,
        response_step(send_step(v, h), h).0.completed == v.completed + 1,
        response_step(send_step(v, h), h).0.context_id == v.context_id,
        response_step(send_step(v, h), h).0.config == v.config,
        response_step(send_step(v, h), h).0.stats == v.stats,
{
}

/// One correlation event in an instance's life: an outbound call issued
/// under a handle, or a completion callback carrying a handle.
pub ghost enum CorrelationEvent {
    /// An outbound call was issued under this handle.
    Send { handle: u32 },
    /// A completion callback arrived carrying this handle.
    Response { handle: u32 },
}

/// How one correlation event changes an instance.  Calls are issued
/// strictly one at a time: a send while one is pending, or past the
/// counter's range, does not happen and changes nothing, as a mismatched
/// completion does not.
pub open spec fn apply_event(v: InstanceView, e: CorrelationEvent) -> InstanceView {
    match e {
        CorrelationEvent::Send { handle } => {
            if v.active is None && v.issued < u64::MAX {
                send_step(v, handle)
            } else {
                v
            }
        },
        CorrelationEvent::Response { handle } => response_step(v, handle).0,
    }
}

/// The state an instance reaches after a whole sequence of correlation
/// events.
pub open spec fn apply_trace(v: InstanceView, t: Seq<CorrelationEvent>) -> InstanceView
    decreases t.len(),
{
    if t.len() == 0 {
        v
    } else {
        apply_trace(apply_event(v, t[0]), t.drop_first())
    }
}

/// Correlation invariant over whole histories: however many sends and
/// completions an instance lives through, its bookkeeping stays balanced,
/// and its identity, configuration and metric handles never change.
pub proof fn lemma_trace_preserves_balance(v: InstanceView, t: Seq<CorrelationEvent>)
    requires
        v.wf(),
    ensures
        apply_trace(v, t).wf(),
        apply_trace(v, t).context_id == v.context_id,
        apply_trace(v, t).config == v.config,
        apply_trace(v, t).stats == v.stats,
    decreases t.len(),
{
    if t.len() > 0 {
        lemma_trace_preserves_balance(apply_event(v, t[0]), t.drop_first());
    }
}

/// Mismatch detection: a completion callback whose handle differs from the
/// active one is rejected and updates no counter and no slot.
pub proof fn lemma_mismatch_preserves_state(v: InstanceView, h: u32)
    requires
        v.active != Some(h),
    ensures
        response_step(v, h).0 == v,
        !response_step(v, h).1,
{
}

} // verus!
