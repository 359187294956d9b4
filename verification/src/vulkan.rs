//! The Vulkan specialization: a link policy whose resolution consults a
//! process-wide registry of Vulkan instances and devices rather than the OS
//! loader.
//!
//! The discovery protocol for one symbol runs in fixed phases — scan the
//! device registry, then the instance registry, then one last attempt with a
//! null instance — and the machine here allows no step backwards: the
//! device-registry scan completes (and its lock is released) before the
//! instance-registry scan may begin.  The per-handle queries are platform
//! calls; their answers enter as plain address values, `0` for a miss.

use vstd::prelude::*;

use crate::error::DylinkError;
use crate::error::ErrorValue;
use crate::error::result_view;
use crate::first_nonzero;
use crate::FnAddr;

verus! {

/// An opaque Vulkan instance handle; never dereferenced, only used as a
/// registry key.
#[derive(Clone, Copy, PartialEq, Eq, Structural, Hash, Debug)]
pub struct VkInstance {
    /// The pointer-sized handle value.
    pub handle: usize,
}

/// An opaque Vulkan device handle; never dereferenced, only used as a
/// registry key.
#[derive(Clone, Copy, PartialEq, Eq, Structural, Hash, Debug)]
pub struct VkDevice {
    /// The pointer-sized handle value.
    pub handle: usize,
}

/// How a Vulkan-policy symbol is resolved: the two discovery entry points
/// have routes of their own, everything else runs the discovery protocol.
#[derive(Clone, Copy, PartialEq, Eq, Structural, Debug)]
pub enum VkRoute {
    /// `vkGetInstanceProcAddr`: resolved directly from the platform Vulkan
    /// library through the OS loader.
    InstanceProcAddr,
    /// `vkGetDeviceProcAddr`: obtained via `vkGetInstanceProcAddr` on a
    /// registered instance (the bootstrap that breaks the recursion).
    DeviceProcAddr,
    /// Any other symbol: the phased discovery protocol.
    Discovery,
}

/// The route a symbol name takes.
pub open spec fn route_spec(name: Seq<char>) -> VkRoute {
    if name == "vkGetInstanceProcAddr"@ {
        VkRoute::InstanceProcAddr
    } else if name == "vkGetDeviceProcAddr"@ {
        VkRoute::DeviceProcAddr
    } else {
        VkRoute::Discovery
    }
}

/// Dispatches a Vulkan-policy symbol name onto its resolution route.
pub fn vulkan_route(name: &String) -> (r: VkRoute)
    ensures
        r == route_spec(name@),
{
    if *name == "vkGetInstanceProcAddr".to_owned() {
        VkRoute::InstanceProcAddr
    } else if *name == "vkGetDeviceProcAddr".to_owned() {
        VkRoute::DeviceProcAddr
    } else {
        VkRoute::Discovery
    }
}

/// Scans per-handle query answers in registry order and returns the first
/// non-null address, as the discovery protocol uses the first handle that
/// yields one.
pub fn first_hit(answers: &Vec<FnAddr>) -> (r: Option<FnAddr>)
    ensures
        r == first_nonzero(answers@),
        r matches Some(a) ==> a != 0,
{
    let n = answers.len();
    let mut i: usize = 0;
    proof {
        assert(answers@.skip(0) =~= answers@);
    }
    while i < n
        invariant
            i <= n,
            n == answers@.len(),
            first_nonzero(answers@) == first_nonzero(answers@.skip(i as int)),
            forall|k: int| 0 <= k < i ==> answers@[k] == 0,
        decreases n - i,
    {
        let a = answers[i];
        if a != 0 {
            proof {
                assert(answers@.skip(i as int)[0] == answers@[i as int]);
            }
            return Some(a);
        }
        proof {
            assert(answers@.skip(i as int).drop_first() =~= answers@.skip(i as int + 1));
        }
        i = i + 1;
    }
    proof {
        assert(answers@.skip(n as int) =~= Seq::<usize>::empty());
    }
    None
}

/// The bootstrap for `vkGetDeviceProcAddr`: it must be obtained through
/// `vkGetInstanceProcAddr`, so the registered instances are asked in order
/// and the first non-null answer wins.  An empty registry, or one in which no
/// instance yields an address, is a missing symbol.
pub fn bootstrap_device_proc_addr(instance_answers: &Vec<FnAddr>) -> (r: Result<FnAddr, DylinkError>)
    ensures
        match first_nonzero(instance_answers@) {
            Some(a) => r == Ok::<usize, DylinkError>(a),
            None => r matches Err(e) && (e@ matches ErrorValue::SymbolNotFound { symbol } &&
                symbol@ == "vkGetDeviceProcAddr"@),
        },
        result_view(r) matches Ok(a) ==> a != 0,
{
    match first_hit(instance_answers) {
        Some(a) => Ok(a),
        None => Err(DylinkError::SymbolNotFound {
            symbol: "vkGetDeviceProcAddr".to_owned(),
        }),
    }
}

/// The phase of the discovery protocol for one symbol.  The protocol never
/// moves backwards: each registry's lock is taken and released within its own
/// phase, so the device lock is never held when the instance lock is taken.
pub enum VkPhase {
    /// Scanning the device registry with `vkGetDeviceProcAddr`.
    Devices,
    /// Scanning the instance registry with `vkGetInstanceProcAddr`.
    Instances,
    /// The last attempt: `vkGetInstanceProcAddr` with a null instance, which
    /// legitimately answers for global entry points.
    NullInstance,
    /// The protocol has decided.
    Done { result: Result<usize, DylinkError> },
}

/// The mathematical value of a [`VkPhase`].
pub ghost enum VkPhaseModel {
    Devices,
    Instances,
    NullInstance,
    Done { result: Result<usize, ErrorValue> },
}

impl View for VkPhase {
    type V = VkPhaseModel;

    open spec fn view(&self) -> VkPhaseModel {
        match self {
            VkPhase::Devices => VkPhaseModel::Devices,
            VkPhase::Instances => VkPhaseModel::Instances,
            VkPhase::NullInstance => VkPhaseModel::NullInstance,
            VkPhase::Done { result } => VkPhaseModel::Done { result: result_view(*result) },
        }
    }
}

/// How far into the protocol a phase lies.
pub open spec fn phase_rank(p: VkPhaseModel) -> int {
    match p {
        VkPhaseModel::Devices => 0,
        VkPhaseModel::Instances => 1,
        VkPhaseModel::NullInstance => 2,
        VkPhaseModel::Done { .. } => 3,
    }
}

/// The mathematical value of a [`VulkanResolution`].
pub ghost struct VulkanResolutionModel {
    pub symbol: String,
    pub phase: VkPhaseModel,
}

/// One step of the discovery protocol: what a scan's answer may do to the
/// machine.
pub open spec fn vk_step(pre: VulkanResolutionModel, post: VulkanResolutionModel) -> bool {
    &&& pre.symbol == post.symbol
    &&& match pre.phase {
        VkPhaseModel::Devices => post.phase is Instances || (post.phase matches VkPhaseModel::Done {
            result: Ok(a),
        } && a != 0),
        VkPhaseModel::Instances => post.phase is NullInstance || (
        post.phase matches VkPhaseModel::Done { result: Ok(a) } && a != 0),
        VkPhaseModel::NullInstance => post.phase is Done,
        VkPhaseModel::Done { .. } => false,
    }
}

/// The discovery protocol for one ordinary Vulkan symbol, as a machine the
/// caller drives: each phase names the registry to scan, the scan's answer
/// (the first non-null address it produced, or `None`) moves the machine
/// forward, and the machine decides after the null-instance attempt at the
/// latest.
pub struct VulkanResolution {
    /// The symbol under resolution.
    pub symbol: String,
    /// The current phase.
    pub phase: VkPhase,
}

impl View for VulkanResolution {
    type V = VulkanResolutionModel;

    open spec fn view(&self) -> VulkanResolutionModel {
        VulkanResolutionModel { symbol: self.symbol, phase: self.phase@ }
    }
}

impl VulkanResolution {
    /// Starts the protocol for one symbol; the device registry is scanned
    /// first.
    pub fn begin(symbol: String) -> (r: VulkanResolution)
        ensures
            r@ == (VulkanResolutionModel { symbol, phase: VkPhaseModel::Devices }),
    {
        VulkanResolution { symbol, phase: VkPhase::Devices }
    }

    /// Feeds in the device-registry scan's answer.  A hit decides the
    /// protocol; a miss releases the device registry and moves on to the
    /// instance registry.
    pub fn devices_scanned(&mut self, hit: Option<FnAddr>)
        requires
            old(self)@.phase is Devices,
            hit matches Some(a) ==> a != 0,
        ensures
            vk_step(old(self)@, final(self)@),
            final(self)@.symbol == old(self)@.symbol,
            match hit {
                Some(a) => final(self)@.phase == (VkPhaseModel::Done {
                    result: Ok::<usize, ErrorValue>(a),
                }),
                None => final(self)@.phase is Instances,
            },
    {
        match hit {
            Some(a) => {
                self.phase = VkPhase::Done { result: Ok(a) };
            },
            None => {
                self.phase = VkPhase::Instances;
            },
        }
    }

    /// Feeds in the instance-registry scan's answer.  A hit decides the
    /// protocol; a miss leaves one attempt with the null instance.
    pub fn instances_scanned(&mut self, hit: Option<FnAddr>)
        requires
            old(self)@.phase is Instances,
            hit matches Some(a) ==> a != 0,
        ensures
            vk_step(old(self)@, final(self)@),
            final(self)@.symbol == old(self)@.symbol,
            match hit {
                Some(a) => final(self)@.phase == (VkPhaseModel::Done {
                    result: Ok::<usize, ErrorValue>(a),
                }),
                None => final(self)@.phase is NullInstance,
            },
    {
        match hit {
            Some(a) => {
                self.phase = VkPhase::Done { result: Ok(a) };
            },
            None => {
                self.phase = VkPhase::NullInstance;
            },
        }
    }

    /// Feeds in the answer of the last attempt, `vkGetInstanceProcAddr` with
    /// a null instance.  A non-null address decides success; a null address
    /// decides `SymbolNotFound` for the symbol under resolution.
    pub fn null_instance_result(&mut self, addr: FnAddr)
        requires
            old(self)@.phase is NullInstance,
        ensures
            vk_step(old(self)@, final(self)@),
            final(self)@.symbol == old(self)@.symbol,
            addr != 0 ==> final(self)@.phase == (VkPhaseModel::Done {
                result: Ok::<usize, ErrorValue>(addr),
            }),
            addr == 0 ==> (final(self)@.phase matches VkPhaseModel::Done { result: Err(e) } && e
                == (ErrorValue::SymbolNotFound { symbol: old(self)@.symbol })),
    {
        if addr != 0 {
            self.phase = VkPhase::Done { result: Ok(addr) };
        } else {
            let err = DylinkError::SymbolNotFound { symbol: self.symbol.clone() };
            self.phase = VkPhase::Done { result: Err(err) };
        }
    }

    /// The decided result, once the protocol is done.
    pub fn finished(&self) -> (r: Option<Result<FnAddr, DylinkError>>)
        ensures
            match self@.phase {
                VkPhaseModel::Done { result } => r matches Some(v) && result_view(v) == result,
                _ => r is None,
            },
    {
        match &self.phase {
            VkPhase::Done { result } => match result {
                Ok(a) => Some(Ok(*a)),
                Err(e) => Some(Err(e.dup())),
            },
            _ => None,
        }
    }
}

/// The lock ordering of the discovery protocol, in the machine's terms: every
/// step moves the phase strictly forward, so the instance-registry scan can
/// only begin after the device-registry scan has completed and no path
/// returns to the device registry — the device lock is never held, nor taken
/// again, once the instance lock is in play.
pub proof fn lemma_phase_strictly_advances(pre: VulkanResolutionModel, post: VulkanResolutionModel)
    requires
        vk_step(pre, post),
    ensures
        phase_rank(post.phase) > phase_rank(pre.phase),
{
}

/// The platform on which a candidate list for the Vulkan library is chosen.
#[derive(Clone, Copy, PartialEq, Eq, Structural, Debug)]
pub enum Platform {
    Windows,
    Linux,
    MacOs,
}

/// The platform Vulkan library's candidate names, in the order they are
/// tried.
pub fn vulkan_library_names(platform: Platform) -> (r: Vec<String>)
    ensures
        r@.len() >= 1,
        match platform {
            Platform::Windows => r@.len() == 1 && r@[0]@ == "vulkan-1.dll"@,
            Platform::Linux => r@.len() == 2 && r@[0]@ == "libvulkan.so.1"@ && r@[1]@
                == "libvulkan.so"@,
            Platform::MacOs => r@.len() == 3 && r@[0]@ == "libvulkan.dylib"@ && r@[1]@
                == "libvulkan.1.dylib"@ && r@[2]@ == "libMoltenVK.dylib"@,
        },
{
    let mut names: Vec<String> = Vec::new();
    match platform {
        Platform::Windows => {
            names.push("vulkan-1.dll".to_owned());
        },
        Platform::Linux => {
            names.push("libvulkan.so.1".to_owned());
            names.push("libvulkan.so".to_owned());
        },
        Platform::MacOs => {
            names.push("libvulkan.dylib".to_owned());
            names.push("libvulkan.1.dylib".to_owned());
            names.push("libMoltenVK.dylib".to_owned());
        },
    }
    names
}

} // verus!
