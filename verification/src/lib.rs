//! Lazy dynamic-library loading and symbol resolution, modelled as verified
//! state machines.
//!
//! The crate separates the pure, verifiable core of a dynamic loader from the
//! platform calls that drive it.  Construction of every cell and aggregate is
//! pure; the platform loader's answers (an opened handle, a resolved address)
//! enter the machines as plain values, and every decision taken on them --
//! candidate order, one-shot memoization, error classification, the Vulkan
//! discovery protocol -- is verified here.

use vstd::prelude::*;

pub mod attr;
pub mod error;
pub mod lazyfn;
pub mod library;
pub mod loader;
pub mod symbol;
pub mod vulkan;

pub use error::DylinkError;
pub use error::ErrorKind;
pub use lazyfn::LazyFn;
pub use lazyfn::LinkType;
pub use library::CloseableLibrary;
pub use library::Library;
pub use loader::Close;
pub use loader::SelfLoader;
pub use loader::SystemLoader;
pub use vulkan::VkDevice;
pub use vulkan::VkInstance;

verus! {

/// A process-local code address as opaque bits.  The value `0` stands for the
/// null address, which no successful resolution returns.
pub type FnAddr = usize;

/// The first non-null value in a sequence of platform answers — the handle an
/// ordered forcing memoizes, or the address an ordered scan takes.
pub open spec fn first_nonzero(answers: Seq<usize>) -> Option<usize>
    decreases answers.len(),
{
    if answers.len() == 0 {
        None
    } else if answers[0] != 0 {
        Some(answers[0])
    } else {
        first_nonzero(answers.drop_first())
    }
}

/// A sequence of all-null answers has no first non-null value.
pub proof fn lemma_first_nonzero_none(answers: Seq<usize>)
    requires
        forall|k: int| 0 <= k < answers.len() ==> answers[k] == 0,
    ensures
        first_nonzero(answers) is None,
    decreases answers.len(),
{
    if answers.len() > 0 {
        lemma_first_nonzero_none(answers.drop_first());
    }
}

/// The first non-null value stands at the first non-null position.
pub proof fn lemma_first_nonzero_at(answers: Seq<usize>, idx: int)
    requires
        0 <= idx < answers.len(),
        forall|k: int| 0 <= k < idx ==> answers[k] == 0,
        answers[idx] != 0,
    ensures
        first_nonzero(answers) == Some(answers[idx]),
    decreases idx,
{
    if idx > 0 {
        lemma_first_nonzero_at(answers.drop_first(), idx - 1);
    }
}

/// The process-wide Vulkan registry: the instances and devices the discovery
/// protocol consults.  Its elements are opaque handles, never dereferenced.
/// In the running program one such value lives behind a reader/writer lock;
/// the set semantics of adding and removing are what this type states.
pub struct Global {
    /// The registered instance handles, in insertion order, without
    /// duplicates.
    pub instances: Vec<VkInstance>,
    /// The registered device handles, in insertion order, without duplicates.
    pub devices: Vec<VkDevice>,
}

impl Global {
    /// Well-formedness: neither registry holds a handle twice.
    pub open spec fn wf(&self) -> bool {
        &&& forall|i: int, j: int|
            0 <= i < j < self.instances@.len() ==> self.instances@[i] != self.instances@[j]
        &&& forall|i: int, j: int|
            0 <= i < j < self.devices@.len() ==> self.devices@[i] != self.devices@[j]
    }

    /// An empty registry.
    pub fn new() -> (r: Global)
        ensures
            r.wf(),
            r.instances@ == Seq::<VkInstance>::empty(),
            r.devices@ == Seq::<VkDevice>::empty(),
    {
        Global { instances: Vec::new(), devices: Vec::new() }
    }

    /// Adds an instance to the registry.  Returns whether the instance was
    /// newly inserted: `true` if the registry did not previously contain it,
    /// `false` if it already did (in which case nothing changes).
    pub fn insert_instance(&mut self, instance: VkInstance) -> (r: bool)
        requires
            old(self).wf(),
        ensures
            final(self).wf(),
            r == !old(self).instances@.contains(instance),
            final(self).instances@ == if r {
                old(self).instances@.push(instance)
            } else {
                old(self).instances@
            },
            final(self).devices == old(self).devices,
    {
        if contains_instance(&self.instances, instance) {
            false
        } else {
            self.instances.push(instance);
            proof {
                assert forall|i: int, j: int|
                    0 <= i < j < self.instances@.len() implies self.instances@[i]
                    != self.instances@[j] by {
                    if j == self.instances@.len() - 1 {
                        assert(!old(self).instances@.contains(instance));
                        assert(old(self).instances@[i] != instance);
                    }
                }
            }
            true
        }
    }

    /// Removes an instance from the registry.  Returns whether it was
    /// present.  Removing an instance invalidates every Vulkan symbol that
    /// was resolved through it; the registry does not track that dependency,
    /// and the caller asserts non-use.
    pub fn remove_instance(&mut self, instance: &VkInstance) -> (r: bool)
        requires
            old(self).wf(),
        ensures
            final(self).wf(),
            r == old(self).instances@.contains(*instance),
            !final(self).instances@.contains(*instance),
            forall|x: VkInstance|
                x != *instance ==> (#[trigger] final(self).instances@.contains(x)
                    == old(self).instances@.contains(x)),
            final(self).devices == old(self).devices,
    {
        match index_of_instance(&self.instances, *instance) {
            Some(idx) => {
                let ghost pre = self.instances@;
                self.instances.remove(idx);
                proof {
                    lemma_remove_distinct_keeps_others(pre, self.instances@, idx as int, *instance);
                }
                true
            },
            None => false,
        }
    }

    /// Adds a device to the registry.  Returns whether the device was newly
    /// inserted, exactly as [`Global::insert_instance`] does for instances.
    pub fn insert_device(&mut self, device: VkDevice) -> (r: bool)
        requires
            old(self).wf(),
        ensures
            final(self).wf(),
            r == !old(self).devices@.contains(device),
            final(self).devices@ == if r {
                old(self).devices@.push(device)
            } else {
                old(self).devices@
            },
            final(self).instances == old(self).instances,
    {
        if contains_device(&self.devices, device) {
            false
        } else {
            self.devices.push(device);
            proof {
                assert forall|i: int, j: int|
                    0 <= i < j < self.devices@.len() implies self.devices@[i]
                    != self.devices@[j] by {
                    if j == self.devices@.len() - 1 {
                        assert(!old(self).devices@.contains(device));
                        assert(old(self).devices@[i] != device);
                    }
                }
            }
            true
        }
    }

    /// Removes a device from the registry.  Returns whether it was present.
    /// As with instances, the caller asserts that nothing resolved through
    /// the device is used afterwards.
    pub fn remove_device(&mut self, device: &VkDevice) -> (r: bool)
        requires
            old(self).wf(),
        ensures
            final(self).wf(),
            r == old(self).devices@.contains(*device),
            !final(self).devices@.contains(*device),
            forall|x: VkDevice|
                x != *device ==> (#[trigger] final(self).devices@.contains(x)
                    == old(self).devices@.contains(x)),
            final(self).instances == old(self).instances,
    {
        match index_of_device(&self.devices, *device) {
            Some(idx) => {
                let ghost pre = self.devices@;
                self.devices.remove(idx);
                proof {
                    lemma_remove_distinct_keeps_others_dev(pre, self.devices@, idx as int, *device);
                }
                true
            },
            None => false,
        }
    }
}

/// Whether a vector of instance handles contains a handle.
fn contains_instance(v: &Vec<VkInstance>, x: VkInstance) -> (r: bool)
    ensures
        r == v@.contains(x),
{
    match index_of_instance(v, x) {
        Some(_) => true,
        None => false,
    }
}

/// The position of a handle in a vector of instance handles.
fn index_of_instance(v: &Vec<VkInstance>, x: VkInstance) -> (r: Option<usize>)
    ensures
        match r {
            Some(i) => i < v@.len() && v@[i as int] == x,
            None => !v@.contains(x),
        },
        v@.contains(x) <==> r is Some,
{
    let n = v.len();
    let mut i: usize = 0;
    while i < n
        invariant
            i <= n,
            n == v@.len(),
            forall|k: int| 0 <= k < i ==> v@[k] != x,
        decreases n - i,
    {
        if v[i] == x {
            return Some(i);
        }
        i = i + 1;
    }
    None
}

/// Whether a vector of device handles contains a handle.
fn contains_device(v: &Vec<VkDevice>, x: VkDevice) -> (r: bool)
    ensures
        r == v@.contains(x),
{
    match index_of_device(v, x) {
        Some(_) => true,
        None => false,
    }
}

/// The position of a handle in a vector of device handles.
fn index_of_device(v: &Vec<VkDevice>, x: VkDevice) -> (r: Option<usize>)
    ensures
        match r {
            Some(i) => i < v@.len() && v@[i as int] == x,
            None => !v@.contains(x),
        },
        v@.contains(x) <==> r is Some,
{
    let n = v.len();
    let mut i: usize = 0;
    while i < n
        invariant
            i <= n,
            n == v@.len(),
            forall|k: int| 0 <= k < i ==> v@[k] != x,
        decreases n - i,
    {
        if v[i] == x {
            return Some(i);
        }
        i = i + 1;
    }
    None
}

/// Removing the one occurrence of an element from a duplicate-free sequence
/// removes it entirely, keeps every other element's membership, and keeps the
/// sequence duplicate-free.
proof fn lemma_remove_distinct_keeps_others(
    pre: Seq<VkInstance>,
    post: Seq<VkInstance>,
    idx: int,
    x: VkInstance,
)
    requires
        forall|i: int, j: int| 0 <= i < j < pre.len() ==> pre[i] != pre[j],
        0 <= idx < pre.len(),
        pre[idx] == x,
        post == pre.remove(idx),
    ensures
        forall|i: int, j: int| 0 <= i < j < post.len() ==> post[i] != post[j],
        !post.contains(x),
        forall|y: VkInstance| y != x ==> (#[trigger] post.contains(y) == pre.contains(y)),
{
    assert forall|i: int, j: int| 0 <= i < j < post.len() implies post[i] != post[j] by {
        assert(post[i] == if i < idx {
            pre[i]
        } else {
            pre[i + 1]
        });
        assert(post[j] == if j < idx {
            pre[j]
        } else {
            pre[j + 1]
        });
    }
    assert forall|k: int| 0 <= k < post.len() implies post[k] != x by {
        if k < idx {
            assert(post[k] == pre[k]);
        } else {
            assert(post[k] == pre[k + 1]);
        }
    }
    assert forall|y: VkInstance| y != x implies (#[trigger] post.contains(y) == pre.contains(
        y,
    )) by {
        if pre.contains(y) {
            let k = choose|k: int| 0 <= k < pre.len() && pre[k] == y;
            if k < idx {
                assert(post[k] == y);
            } else {
                assert(k > idx);
                assert(post[k - 1] == y);
            }
            assert(post.contains(y));
        }
        if post.contains(y) {
            let k = choose|k: int| 0 <= k < post.len() && post[k] == y;
            if k < idx {
                assert(pre[k] == y);
            } else {
                assert(pre[k + 1] == y);
            }
            assert(pre.contains(y));
        }
    }
}

/// The same fact for device handles.
proof fn lemma_remove_distinct_keeps_others_dev(
    pre: Seq<VkDevice>,
    post: Seq<VkDevice>,
    idx: int,
    x: VkDevice,
)
    requires
        forall|i: int, j: int| 0 <= i < j < pre.len() ==> pre[i] != pre[j],
        0 <= idx < pre.len(),
        pre[idx] == x,
        post == pre.remove(idx),
    ensures
        forall|i: int, j: int| 0 <= i < j < post.len() ==> post[i] != post[j],
        !post.contains(x),
        forall|y: VkDevice| y != x ==> (#[trigger] post.contains(y) == pre.contains(y)),
{
    assert forall|i: int, j: int| 0 <= i < j < post.len() implies post[i] != post[j] by {
        assert(post[i] == if i < idx {
            pre[i]
        } else {
            pre[i + 1]
        });
        assert(post[j] == if j < idx {
            pre[j]
        } else {
            pre[j + 1]
        });
    }
    assert forall|k: int| 0 <= k < post.len() implies post[k] != x by {
        if k < idx {
            assert(post[k] == pre[k]);
        } else {
            assert(post[k] == pre[k + 1]);
        }
    }
    assert forall|y: VkDevice| y != x implies (#[trigger] post.contains(y) == pre.contains(y)) by {
        if pre.contains(y) {
            let k = choose|k: int| 0 <= k < pre.len() && pre[k] == y;
            if k < idx {
                assert(post[k] == y);
            } else {
                assert(k > idx);
                assert(post[k - 1] == y);
            }
            assert(post.contains(y));
        }
        if post.contains(y) {
            let k = choose|k: int| 0 <= k < post.len() && post[k] == y;
            if k < idx {
                assert(pre[k] == y);
            } else {
                assert(pre[k + 1] == y);
            }
            assert(pre.contains(y));
        }
    }
}

} // verus!
