//! The factory abstraction: plugin-level configuration acceptance, drain
//! handling, and creation of extension instances.
//!
//! A factory owns the configuration snapshot in force and the plugin-level
//! metric handles.  Accepting a new configuration swaps the snapshot
//! wholesale; rejecting one leaves every piece of prior state untouched.
//! Once a drain has been accepted, directly or through a deferred
//! acknowledgement, the factory refuses to create further instances.

use std::rc::Rc;
use vstd::prelude::*;

use crate::config::{decode_spec, ConfigStatus, ExtensionConfig};
use crate::host::{ExtensionError, ExtensionResult, HostResult};
use crate::instance::{
    response_step, send_step, ExtensionInstance, InstanceView, StatsHandles,
};

verus! {

/// Capability handed to a configuration callback: read access to the
/// configuration buffer the host holds, nothing more.
pub trait ConfigureOps {
    /// Returns the configuration buffer the host holds for this extension,
    /// if any.
    fn get_configuration(&self) -> HostResult<Option<Vec<u8>>>;
}

/// Capability handed to a drain callback: the acknowledgement that a
/// previously deferred drain has completed, nothing more.
pub trait DrainOps {
    /// Tells the host that draining is complete.
    fn done(&self) -> HostResult<()>;
}

/// The full set of capabilities a factory callback may receive.
pub trait Ops: ConfigureOps + DrainOps {
}

impl<T: ConfigureOps + DrainOps> Ops for T {
}

/// The factory capability implementation bound to the actual host ABI.
pub struct Host;

impl ConfigureOps for Host {
    /// Under this host binding a failed configuration fetch aborts the
    /// callback rather than returning, so the call only ever succeeds.
    fn get_configuration(&self) -> (r: HostResult<Option<Vec<u8>>>)
        ensures
            r is Ok,
    {
        crate::abi::fetch_configuration()
    }
}

impl DrainOps for Host {
    /// Under this host binding a failed acknowledgement aborts the
    /// callback rather than returning, so the call only ever succeeds.
    fn done(&self) -> (r: HostResult<()>)
        ensures
            r is Ok,
    {
        crate::abi::acknowledge_done()
    }
}

/// A factory of extension instances, driven by plugin-level host events.
pub trait Factory {
    /// The kind of extension instance this factory creates.
    type Extension;

    /// Called when the host (re-)configures the plugin.  Returns `Ok(true)`
    /// to accept the configuration, `Ok(false)` to reject it; the default
    /// accepts without reading it.
    fn on_configure<O: ConfigureOps>(&mut self, _plugin_configuration_size: usize, _ops: &O) -> (r:
        ExtensionResult<bool>)
        default_ensures
            r == Ok::<bool, ExtensionError>(true),
    {
        Ok(true)
    }

    /// Called to create a unique extension instance for the context the
    /// host identified by `context_id`.
    fn new_extension(&mut self, context_id: u32) -> ExtensionResult<Box<Self::Extension>>;

    /// Called when the host asks the plugin to drain.  Returns `Ok(true)`
    /// when drained, `Ok(false)` to defer and acknowledge later through
    /// [`DrainOps::done`]; the default accepts immediately.
    fn on_drain<O: DrainOps>(&mut self, _ops: &O) -> (r: ExtensionResult<bool>)
        default_ensures
            r == Ok::<bool, ExtensionError>(true),
    {
        Ok(true)
    }
}

/// Where the factory stands in its drain lifecycle.
#[derive(Copy, Clone, PartialEq, Eq, Structural, Debug)]
pub enum DrainState {
    /// No drain was requested.
    Active,
    /// A drain was requested and deferred; the acknowledgement is pending.
    Draining,
    /// The drain was accepted: no further instances may be created.
    Drained,
}

/// Mathematical state of a factory.
pub ghost struct FactoryView {
    /// The configuration snapshot in force.
    pub config: Seq<u8>,
    /// The plugin-level metric handles.
    pub stats: StatsHandles,
    /// Whether any configuration was ever accepted.
    pub configured: bool,
    /// Where the factory stands in its drain lifecycle.
    pub drain: DrainState,
}

impl FactoryView {
    /// The state a fresh factory starts in: unconfigured, with the empty
    /// default snapshot in force.
    pub open spec fn init(stats: StatsHandles) -> FactoryView {
        FactoryView {
            config: Seq::<u8>::empty(),
            stats,
            configured: false,
            drain: DrainState::Active,
        }
    }
}

/// The configuration buffer as the specification sees it.
pub open spec fn raw_view(raw: Option<Vec<u8>>) -> Option<Seq<u8>> {
    match raw {
        Some(b) => Some(b@),
        None => None,
    }
}

/// How a configuration attempt changes a factory: the state afterwards and
/// the status reported.  A missing buffer restores the default snapshot; a
/// buffer that decodes replaces the snapshot wholesale; a buffer that does
/// not decode is rejected and changes nothing.
pub open spec fn configure_step(v: FactoryView, raw: Option<Seq<u8>>) -> (FactoryView,
    ConfigStatus) {
    match raw {
        None => (
            FactoryView { config: Seq::<u8>::empty(), configured: true, ..v },
            ConfigStatus::Accepted,
        ),
        Some(b) => match decode_spec(b) {
            Some(c) => (FactoryView { config: c, configured: true, ..v }, ConfigStatus::Accepted),
            None => (v, ConfigStatus::Rejected),
        },
    }
}

/// How a drain request changes a factory: accepted immediately when the
/// factory is ready (or already drained), deferred otherwise.
pub open spec fn drain_step(v: FactoryView, ready: bool) -> (FactoryView, bool) {
    if v.drain is Drained {
        (v, true)
    } else if ready {
        (FactoryView { drain: DrainState::Drained, ..v }, true)
    } else {
        (FactoryView { drain: DrainState::Draining, ..v }, false)
    }
}

/// How the deferred drain acknowledgement changes a factory.
pub open spec fn done_step(v: FactoryView) -> FactoryView {
    FactoryView { drain: DrainState::Drained, ..v }
}

/// Whether a factory in this state may still create extension instances.
pub open spec fn new_extension_allowed(v: FactoryView) -> bool {
    !(v.drain is Drained)
}

/// The verified factory core: the configuration-acceptance state machine,
/// the shared snapshot, and the drain lifecycle.
pub struct FactoryCore {
    config: Rc<ExtensionConfig>,
    stats: StatsHandles,
    configured: bool,
    drain: DrainState,
}

impl View for FactoryCore {
    type V = FactoryView;

    closed spec fn view(&self) -> FactoryView {
        FactoryView {
            config: self.config@,
            stats: self.stats,
            configured: self.configured,
            drain: self.drain,
        }
    }
}

impl FactoryCore {
    /// Creates a fresh, unconfigured factory holding the plugin's metric
    /// handles.
    pub fn new(stats: StatsHandles) -> (f: FactoryCore)
        ensures
            f@ == FactoryView::init(stats),
    {
        FactoryCore {
            config: Rc::new(ExtensionConfig::default()),
            stats,
            configured: false,
            drain: DrainState::Active,
        }
    }

    /// Applies a configuration buffer fetched from the host.  On accept the
    /// snapshot is swapped wholesale; on reject the factory keeps its prior
    /// snapshot and phase, so instances created afterwards still share the
    /// configuration previously in force.
    pub fn apply_configuration(&mut self, raw: Option<Vec<u8>>) -> (status: ConfigStatus)
        ensures
            final(self)@ == configure_step(old(self)@, raw_view(raw)).0,
            status == configure_step(old(self)@, raw_view(raw)).1,
    {
        match raw {
            None => {
                self.config = Rc::new(ExtensionConfig::default());
                self.configured = true;
                ConfigStatus::Accepted
            },
            Some(b) => match ExtensionConfig::decode(&b) {
                Some(c) => {
                    self.config = Rc::new(c);
                    self.configured = true;
                    ConfigStatus::Accepted
                },
                None => ConfigStatus::Rejected,
            },
        }
    }

    /// Creates an extension instance under `context_id`, sharing the
    /// snapshot and metric handles currently in force.  Refused exactly
    /// when the factory has drained.
    pub fn create_extension(&mut self, context_id: u32) -> (r: ExtensionResult<ExtensionInstance>)
        ensures
            final(self)@ == old(self)@,
            new_extension_allowed(old(self)@) ==> (r matches Ok(i) && i@ == InstanceView::init(
                context_id,
                old(self)@.config,
                old(self)@.stats,
            ) && i@.wf()),
            !new_extension_allowed(old(self)@) ==> r == ExtensionResult::<ExtensionInstance>::Err(
                ExtensionError::Drained,
            ),
    {
        match self.drain {
            DrainState::Drained => Err(ExtensionError::Drained),
            _ => Ok(ExtensionInstance::new(context_id, self.config.clone(), self.stats)),
        }
    }

    /// Handles a drain request from the host: accepts immediately when
    /// `ready`, otherwise defers until [`FactoryCore::drain_done`].
    pub fn request_drain(&mut self, ready: bool) -> (accepted: bool)
        ensures
            final(self)@ == drain_step(old(self)@, ready).0,
            accepted == drain_step(old(self)@, ready).1,
    {
        match self.drain {
            DrainState::Drained => true,
            _ => {
                if ready {
                    self.drain = DrainState::Drained;
                    true
                } else {
                    self.drain = DrainState::Draining;
                    false
                }
            },
        }
    }

    /// Records that a deferred drain has completed; the factory is drained
    /// from here on.
    pub fn drain_done(&mut self)
        ensures
            final(self)@ == done_step(old(self)@),
    {
        self.drain = DrainState::Drained;
    }

    /// Whether any configuration was ever accepted.
    pub fn configured(&self) -> (r: bool)
        ensures
            r == self@.configured,
    {
        self.configured
    }

    /// Where the factory stands in its drain lifecycle.
    pub fn drain_state(&self) -> (r: DrainState)
        ensures
            r == self@.drain,
    {
        self.drain
    }

    /// The configuration value currently in force.
    pub fn config_value(&self) -> (r: &Vec<u8>)
        ensures
            r@ == self@.config,
    {
        &self.config.value
    }

    /// The plugin-level metric handles.
    pub fn stats(&self) -> (r: StatsHandles)
        ensures
            r == self@.stats,
    {
        self.stats
    }
}

impl Factory for FactoryCore {
    type Extension = ExtensionInstance;

    /// Fetches the configuration through the capability and applies it:
    /// the factory steps by the configuration state machine on the buffer
    /// the capability returned, and a successful result reports
    /// acceptance.  A host-call failure the capability reported propagates
    /// tagged as that very error, never swallowed, and leaves the factory
    /// with its snapshot and stats untouched.
    fn on_configure<O: ConfigureOps>(&mut self, _plugin_configuration_size: usize, ops: &O) -> (r:
        ExtensionResult<bool>)
        ensures
            r matches Err(e) ==> (e matches ExtensionError::HostCall(h)
                && call_ensures(O::get_configuration, (ops,), Err(h)))
                && final(self)@ == old(self)@,
            r matches Ok(a) ==> exists|raw: Option<Vec<u8>>|
                #[trigger] call_ensures(O::get_configuration, (ops,), Ok(raw))
                    && final(self)@ == configure_step(old(self)@, raw_view(raw)).0
                    && a == (configure_step(old(self)@, raw_view(raw)).1 is Accepted),
    {
        let fetched = ops.get_configuration();
        let ghost g = fetched;
        match fetched {
            Ok(raw) => {
                let ghost w = raw_view(raw);
                let status = self.apply_configuration(raw);
                proof {
                    assert(g matches Ok(graw) && raw_view(graw) == w);
                    assert(self@ == configure_step(old(self)@, w).0
                        && (status is Accepted) == (configure_step(old(self)@, w).1 is Accepted));
                }
                Ok(status.as_bool())
            },
            Err(e) => Err(ExtensionError::HostCall(e)),
        }
    }

    fn new_extension(&mut self, context_id: u32) -> (r: ExtensionResult<Box<ExtensionInstance>>)
        ensures
            final(self)@ == old(self)@,
            new_extension_allowed(old(self)@) ==> (r matches Ok(i) && i@ == InstanceView::init(
                context_id,
                old(self)@.config,
                old(self)@.stats,
            ) && i@.wf()),
            !new_extension_allowed(old(self)@) ==> r == ExtensionResult::<
                Box<ExtensionInstance>,
            >::Err(ExtensionError::Drained),
    {
        match self.create_extension(context_id) {
            Ok(instance) => Ok(Box::new(instance)),
            Err(e) => Err(e),
        }
    }

    /// The core is ready to drain as soon as the host asks: the drain is
    /// accepted and recorded at once.
    fn on_drain<O: DrainOps>(&mut self, _ops: &O) -> (r: ExtensionResult<bool>)
        ensures
            final(self)@ == drain_step(old(self)@, true).0,
            r matches Ok(a) && a == drain_step(old(self)@, true).1,
    {
        Ok(self.request_drain(true))
    }
}

/// Rejection safety: a configuration attempt with a buffer that does not
/// decode reports `Rejected` and leaves the factory exactly as it was, so
/// an instance created afterwards still shares the prior snapshot.
pub proof fn lemma_rejection_safety(v: FactoryView, b: Seq<u8>, context_id: u32)
    requires
        decode_spec(b) is None,
    ensures
        configure_step(v, Some(b)).1 is Rejected,
        configure_step(v, Some(b)).0 == v,
        InstanceView::init(context_id, configure_step(v, Some(b)).0.config, configure_step(
            v,
            Some(b),
        ).0.stats).config == v.config,
{
}

/// Drain terminal property: once drained, a factory stays drained under
/// every further event, and no further instance creation is allowed.
pub proof fn lemma_drain_terminal(v: FactoryView, raw: Option<Seq<u8>>, ready: bool)
    requires
        v.drain is Drained,
    ensures
        !new_extension_allowed(v),
        configure_step(v, raw).0.drain is Drained,
        drain_step(v, ready).0.drain is Drained,
        done_step(v).drain is Drained,
        !new_extension_allowed(configure_step(v, raw).0),
        !new_extension_allowed(drain_step(v, ready).0),
        !new_extension_allowed(done_step(v)),
{
}

/// One plugin-level event in a factory's life.
pub ghost enum FactoryEvent {
    /// A configuration attempt with this buffer.
    Configure { raw: Option<Seq<u8>> },
    /// A drain request, with whether the factory was ready to accept it.
    Drain { ready: bool },
    /// The deferred drain acknowledgement.
    DrainDone,
}

/// How one plugin-level event changes a factory.
pub open spec fn apply_factory_event(v: FactoryView, e: FactoryEvent) -> FactoryView {
    match e {
        FactoryEvent::Configure { raw } => configure_step(v, raw).0,
        FactoryEvent::Drain { ready } => drain_step(v, ready).0,
        FactoryEvent::DrainDone => done_step(v),
    }
}

/// The state a factory reaches after a whole sequence of plugin-level
/// events.
pub open spec fn apply_factory_trace(v: FactoryView, t: Seq<FactoryEvent>) -> FactoryView
    decreases t.len(),
{
    if t.len() == 0 {
        v
    } else {
        apply_factory_trace(apply_factory_event(v, t[0]), t.drop_first())
    }
}

/// Drain terminal property over whole histories: once drained, no sequence
/// of further configuration or drain events ever makes instance creation
/// valid again.
pub proof fn lemma_drain_terminal_trace(v: FactoryView, t: Seq<FactoryEvent>)
    requires
        v.drain is Drained,
    ensures
        apply_factory_trace(v, t).drain is Drained,
        !new_extension_allowed(apply_factory_trace(v, t)),
    decreases t.len(),
{
    if t.len() > 0 {
        lemma_drain_terminal_trace(apply_factory_event(v, t[0]), t.drop_first());
    }
}

/// Instance isolation: instances created from the same factory state see
/// the same configuration and metric handles, and the correlation steps an
/// instance performs locally never change its configuration or metric
/// handles.  Instances are separate values, so a step on one cannot change
/// another at all.
pub proof fn lemma_instance_isolation(v: FactoryView, id1: u32, id2: u32, h: u32)
    ensures
        InstanceView::init(id1, v.config, v.stats).config == InstanceView::init(
            id2,
            v.config,
            v.stats,
        ).config,
        InstanceView::init(id1, v.config, v.stats).stats == InstanceView::init(
            id2,
            v.config,
            v.stats,
        ).stats,
        send_step(InstanceView::init(id1, v.config, v.stats), h).config == v.config,
        send_step(InstanceView::init(id1, v.config, v.stats), h).stats == v.stats,
        response_step(send_step(InstanceView::init(id1, v.config, v.stats), h), h).0.config
            == v.config,
        response_step(send_step(InstanceView::init(id1, v.config, v.stats), h), h).0.stats
            == v.stats,
{
}

} // verus!
