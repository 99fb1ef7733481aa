//! The dispatch layer: routes host callbacks, keyed by an opaque numeric
//! context identity, to the one live extension instance owning that
//! identity.
//!
//! The registry maintains the identity-to-instance mapping itself: an
//! identity maps to at most one live instance, a callback for an unknown
//! identity is refused rather than guessed at, and delivering a callback
//! changes the addressed instance alone.

use vstd::prelude::*;

use crate::host::{ExtensionError, ExtensionResult};
use crate::instance::{response_step, ExtensionInstance, InstanceView, RequestHandle};

verus! {

/// Whether some registered instance owns `id`.
pub open spec fn contains_id(s: Seq<InstanceView>, id: u32) -> bool {
    exists|j: int| 0 <= j < s.len() && (#[trigger] s[j]).context_id == id
}

/// The index of the instance owning `id`; meaningful when `contains_id`
/// holds and the identities are distinct.
pub open spec fn index_of_id(s: Seq<InstanceView>, id: u32) -> int {
    choose|j: int| 0 <= j < s.len() && (#[trigger] s[j]).context_id == id
}

/// Registry well-formedness: identities are distinct and every instance's
/// correlation bookkeeping is balanced.
pub open spec fn registry_wf(s: Seq<InstanceView>) -> bool {
    &&& forall|j: int, k: int|
        0 <= j < s.len() && 0 <= k < s.len() && j != k ==> (#[trigger] s[j]).context_id != (
        #[trigger] s[k]).context_id
    &&& forall|j: int| 0 <= j < s.len() ==> (#[trigger] s[j]).wf()
}

/// The registry mapping context identities to live extension instances.
pub struct Registry {
    entries: Vec<ExtensionInstance>,
}

impl View for Registry {
    type V = Seq<InstanceView>;

    closed spec fn view(&self) -> Seq<InstanceView> {
        Seq::new(self.entries@.len(), |i: int| self.entries@[i]@)
    }
}

impl Registry {
    /// An empty registry.
    pub fn new() -> (r: Registry)
        ensures
            r@ =~= Seq::<InstanceView>::empty(),
            registry_wf(r@),
    {
        Registry { entries: Vec::new() }
    }

    /// How many instances are live.
    pub fn len(&self) -> (r: usize)
        ensures
            r == self@.len(),
    {
        self.entries.len()
    }

    /// Whether a live instance owns `id`.
    pub fn contains(&self, id: u32) -> (r: bool)
        ensures
            r == contains_id(self@, id),
    {
        let n = self.entries.len();
        let mut i: usize = 0;
        while i < n
            invariant
                0 <= i <= n,
                n == self@.len(),
                forall|j: int| 0 <= j < i ==> (#[trigger] self@[j]).context_id != id,
            decreases n - i,
        {
            if self.entries[i].context_id() == id {
                assert(self@[i as int].context_id == id);
                return true;
            }
            i = i + 1;
        }
        false
    }

    /// Registers an instance under its context identity.  Refused when the
    /// identity is already mapped: each identity owns exactly one live
    /// instance.
    pub fn register(&mut self, instance: ExtensionInstance) -> (r: ExtensionResult<()>)
        requires
            registry_wf(old(self)@),
            instance@.wf(),
        ensures
            registry_wf(final(self)@),
            contains_id(old(self)@, instance@.context_id) ==> r == ExtensionResult::<()>::Err(
                ExtensionError::DuplicateContext,
            ) && final(self)@ == old(self)@,
            !contains_id(old(self)@, instance@.context_id) ==> r is Ok && final(self)@ =~= old(
                self,
            )@.push(instance@),
    {
        if self.contains(instance.context_id()) {
            return Err(ExtensionError::DuplicateContext);
        }
        self.entries.push(instance);
        proof {
            assert(self@ =~= old(self)@.push(instance@));
        }
        Ok(())
    }

    /// Routes an outbound-call completion callback, carrying `handle`, to
    /// the instance owning `context_id`.  A callback for an unknown
    /// identity is refused without touching any instance; otherwise only
    /// the addressed instance steps, and a handle mismatch inside it is
    /// reported unchanged.
    pub fn deliver_response(&mut self, context_id: u32, handle: RequestHandle) -> (r:
        ExtensionResult<()>)
        requires
            registry_wf(old(self)@),
        ensures
            registry_wf(final(self)@),
            !contains_id(old(self)@, context_id) ==> r == ExtensionResult::<()>::Err(
                ExtensionError::UnknownContext,
            ) && final(self)@ == old(self)@,
            contains_id(old(self)@, context_id) ==> ({
                let j = index_of_id(old(self)@, context_id);
                &&& final(self)@ =~= old(self)@.update(j, response_step(old(self)@[j], handle.0).0)
                &&& r is Ok == response_step(old(self)@[j], handle.0).1
                &&& (r is Err ==> r == ExtensionResult::<()>::Err(
                    ExtensionError::CorrelationMismatch,
                ) && final(self)@ == old(self)@)
            }),
    {
        let n = self.entries.len();
        let mut i: usize = 0;
        while i < n
            invariant
                0 <= i <= n,
                n == self@.len(),
                self@ == old(self)@,
                registry_wf(old(self)@),
                forall|j: int| 0 <= j < i ==> (#[trigger] self@[j]).context_id != context_id,
            decreases n - i,
        {
            if self.entries[i].context_id() == context_id {
                proof {
                    assert(old(self)@[i as int].context_id == context_id);
                    assert(contains_id(old(self)@, context_id));
                    let j = index_of_id(old(self)@, context_id);
                    assert(old(self)@[j].context_id == context_id);
                    assert(j == i as int);
                }
                let mut inst = self.entries.remove(i);
                let result = inst.on_http_call_response(handle);
                self.entries.insert(i, inst);
                proof {
                    assert(self@ =~= old(self)@.update(i as int, inst@));
                }
                return result;
            }
            i = i + 1;
        }
        Err(ExtensionError::UnknownContext)
    }

    /// Removes the instance owning `context_id` when the host signals
    /// teardown of that identity; refused for an unknown identity.
    pub fn deregister(&mut self, context_id: u32) -> (r: ExtensionResult<ExtensionInstance>)
        requires
            registry_wf(old(self)@),
        ensures
            registry_wf(final(self)@),
            !contains_id(old(self)@, context_id) ==> r
                == ExtensionResult::<ExtensionInstance>::Err(ExtensionError::UnknownContext)
                && final(self)@ == old(self)@,
            contains_id(old(self)@, context_id) ==> ({
                let j = index_of_id(old(self)@, context_id);
                &&& r matches Ok(inst) && inst@ == old(self)@[j]
                &&& final(self)@ =~= old(self)@.remove(j)
            }),
    {
        let n = self.entries.len();
        let mut i: usize = 0;
        while i < n
            invariant
                0 <= i <= n,
                n == self@.len(),
                self@ == old(self)@,
                registry_wf(old(self)@),
                forall|j: int| 0 <= j < i ==> (#[trigger] self@[j]).context_id != context_id,
            decreases n - i,
        {
            if self.entries[i].context_id() == context_id {
                proof {
                    assert(old(self)@[i as int].context_id == context_id);
                    assert(contains_id(old(self)@, context_id));
                    let j = index_of_id(old(self)@, context_id);
                    assert(old(self)@[j].context_id == context_id);
                    assert(j == i as int);
                }
                let inst = self.entries.remove(i);
                proof {
                    assert(self@ =~= old(self)@.remove(i as int));
                }
                return Ok(inst);
            }
            i = i + 1;
        }
        Err(ExtensionError::UnknownContext)
    }
}

} // verus!
