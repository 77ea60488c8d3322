use vstd::prelude::*;
use crate::error::{Error, RejectReason, Rejection};
use crate::lifecycle::{
    bring_up, depends_on, ordered_by_dependency, steps_for, teardown_order, teardown_steps,
    Component, TeardownStep,
};
use crate::logical_device::find_queue_families;
use crate::physical_device::{
    check_physical_device_extension_support, eligible, is_selection, rejections, scan_fails, score,
    standard_policy, suitable, verdict, PhysicalDevice, ScoringPolicy,
};
use crate::utils::{lemma_first_index_is, none_before};
use crate::vk::{swapchain_extension, swapchain_extension_name};

verus! {

/// The bring-up of a rendering context: the objects that are alive, in the
/// order in which they were created. Every object in it was created once,
/// and after all that it reads.
pub struct VulkanEngine {
    live: Vec<Component>,
}

impl View for VulkanEngine {
    type V = Seq<Component>;

    /// The objects that are alive, in the order in which they were created.
    closed spec fn view(&self) -> Seq<Component> {
        self.live@
    }
}

impl VulkanEngine {
    #[verifier::type_invariant]
    spec fn ordered(&self) -> bool {
        ordered_by_dependency(self.live@)
    }

    /// An engine with nothing alive.
    pub fn new() -> (r: VulkanEngine)
        ensures
            r@ == Seq::<Component>::empty(),
    {
        VulkanEngine { live: Vec::new() }
    }

    /// The objects that are alive, in the order in which they were created:
    /// each once, and after all that it reads.
    pub fn live(&self) -> (r: &Vec<Component>)
        ensures
            r@ == self@,
            ordered_by_dependency(self@),
    {
        proof {
            use_type_invariant(self);
        }
        &self.live
    }

    /// The objects to create, first to last: the instance, the message sink
    /// under validation, the surface where there is a window, the logical
    /// device, and the swapchain where there is a surface.
    pub fn bring_up_order(enable_validation: bool, with_surface: bool) -> (r: Vec<Component>)
        ensures
            r@ == bring_up(enable_validation, with_surface),
    {
        let mut order: Vec<Component> = Vec::new();
        order.push(Component::Instance);
        if enable_validation {
            order.push(Component::DebugMessenger);
        }
        if with_surface {
            order.push(Component::Surface);
        }
        order.push(Component::LogicalDevice);
        if with_surface {
            order.push(Component::SwapChain);
        }
        order
    }

    /// Whether `c` is alive.
    pub fn is_live(&self, c: Component) -> (r: bool)
        ensures
            r == self@.contains(c),
    {
        let mut i: usize = 0;
        while i < self.live.len()
            invariant
                i <= self.live@.len(),
                forall|k: int| 0 <= k < i ==> self.live@[k] != c,
            decreases self.live@.len() - i,
        {
            if self.live[i] == c {
                return true;
            }
            i += 1;
        }
        false
    }

    /// Whether `c` can be created now: it is not alive, and all it reads is.
    pub open spec fn can_acquire(&self, c: Component) -> bool {
        &&& !self@.contains(c)
        &&& forall|d: Component| depends_on(c, d) ==> self@.contains(d)
    }

    /// Records that `c` was created. Answers `false`, and records nothing,
    /// where `c` is alive already or something it reads is not.
    pub fn acquire(&mut self, c: Component) -> (r: bool)
        ensures
            r == old(self).can_acquire(c),
            r ==> final(self)@ == old(self)@.push(c),
            !r ==> final(self)@ == old(self)@,
    {
        proof {
            use_type_invariant(&*self);
        }
        if self.is_live(c) {
            return false;
        }
        let ready = match c {
            Component::Instance => true,
            Component::DebugMessenger => self.is_live(Component::Instance),
            Component::Surface => self.is_live(Component::Instance),
            Component::LogicalDevice => self.is_live(Component::Instance),
            Component::SwapChain => self.is_live(Component::LogicalDevice) && self.is_live(
                Component::Surface,
            ),
        };
        if !ready {
            proof {
                if c == Component::SwapChain {
                    assert(depends_on(c, Component::LogicalDevice));
                    assert(depends_on(c, Component::Surface));
                } else {
                    assert(depends_on(c, Component::Instance));
                }
            }
            return false;
        }
        let ghost before = self.live@;
        proof {
            let after = before.push(c);
            assert forall|j: int, d: Component|
                0 <= j < after.len() && #[trigger] depends_on(after[j], d) implies exists|i: int|
                0 <= i < j && after[i] == d by {
                if j < before.len() {
                    let i = choose|i: int| 0 <= i < j && before[i] == d;
                    assert(after[i] == d);
                } else {
                    let i = choose|i: int| 0 <= i < before.len() && before[i] == d;
                    assert(after[i] == d);
                }
            }
        }
        let mut next: Vec<Component> = Vec::new();
        let mut i: usize = 0;
        while i < self.live.len()
            invariant
                i <= self.live@.len(),
                next@ == self.live@.take(i as int),
            decreases self.live@.len() - i,
        {
            next.push(self.live[i]);
            i += 1;
        }
        assert(self.live@.take(i as int) =~= self.live@);
        next.push(c);
        self.live = next;
        true
    }

    /// The objects to destroy, first to last: the reverse of the order in
    /// which they were created.
    pub fn teardown(&self) -> (r: Vec<Component>)
        ensures
            r@ == teardown_order(self@),
            ordered_by_dependency(self@),
    {
        proof {
            use_type_invariant(self);
        }
        let mut order: Vec<Component> = Vec::new();
        let mut i: usize = self.live.len();
        while i > 0
            invariant
                i <= self.live@.len(),
                order@.len() == self.live@.len() - i,
                forall|k: int| 0 <= k < order@.len() ==> order@[k] == self.live@[self.live@.len() - 1 - k],
            decreases i,
        {
            i -= 1;
            order.push(self.live[i]);
        }
        order
    }

    /// The steps of teardown, first to last: every object that is alive is
    /// destroyed, the last created first, and the logical device is waited
    /// for just before it goes.
    pub fn teardown_plan(&self) -> (r: Vec<TeardownStep>)
        ensures
            r@ == teardown_steps(self@),
    {
        let mut steps: Vec<TeardownStep> = Vec::new();
        let mut i: usize = self.live.len();
        proof {
            assert(self.live@.take(i as int) =~= self.live@);
        }
        while i > 0
            invariant
                i <= self.live@.len(),
                steps@ + teardown_steps(self.live@.take(i as int)) == teardown_steps(self.live@),
            decreases i,
        {
            let ghost prefix = self.live@.take(i as int);
            i -= 1;
            let c = self.live[i];
            if Self::must_wait_idle(c) {
                steps.push(TeardownStep::WaitDeviceIdle);
            }
            steps.push(TeardownStep::Destroy(c));
            proof {
                assert(prefix.drop_last() =~= self.live@.take(i as int));
            }
        }
        steps
    }

    /// Whether the device has to fall idle before `c` is destroyed: so it is
    /// for the logical device itself.
    pub fn must_wait_idle(c: Component) -> (r: bool)
        ensures
            r == (c == Component::LogicalDevice),
    {
        c == Component::LogicalDevice
    }

    /// The device extensions that drawing to a window needs: the swapchain
    /// extension alone.
    pub fn required_device_prop_names() -> (r: Vec<String>)
        ensures
            r@.len() == 1,
            r@[0]@ == swapchain_extension(),
    {
        let mut names: Vec<String> = Vec::new();
        names.push(swapchain_extension_name());
        names
    }

    /// Rates an adapter under the standard policy: zero without geometry
    /// shaders; else its largest image dimension, and 1000 more where it is
    /// a discrete adapter.
    pub fn rate_physical_device_suitability(device: &PhysicalDevice) -> (r: u64)
        ensures
            r == score(standard_policy(), *device),
    {
        ScoringPolicy::standard().rate(device)
    }

    /// Tests the two gates on an adapter: the queue families serve every
    /// needed role, and every required extension is offered.
    pub fn is_physical_device_suitable(
        device: &PhysicalDevice,
        with_surface: bool,
        required_props_names: &Vec<String>,
    ) -> (r: Result<bool, Error>)
        requires
            device.well_formed(),
        ensures
            r == suitable(*device, with_surface, required_props_names@),
    {
        match find_queue_families(&device.queue_families, with_surface) {
            Err(e) => Err(e),
            Ok(indices) => {
                let extensions_supported = check_physical_device_extension_support(
                    &device.extensions,
                    required_props_names,
                );
                Ok(indices.is_complete_for(with_surface) && extensions_supported)
            },
        }
    }

    /// Finds why an adapter is passed over under a policy, if it is.
    pub fn assess_physical_device(
        policy: &ScoringPolicy,
        device: &PhysicalDevice,
        with_surface: bool,
        required_props_names: &Vec<String>,
    ) -> (r: Result<Option<RejectReason>, Error>)
        requires
            device.well_formed(),
        ensures
            r == verdict(*policy, *device, with_surface, required_props_names@),
    {
        match find_queue_families(&device.queue_families, with_surface) {
            Err(e) => Err(e),
            Ok(indices) => {
                if !indices.is_complete_for(with_surface) {
                    Ok(Some(RejectReason::IncompleteQueueFamilies))
                } else if !check_physical_device_extension_support(
                    &device.extensions,
                    required_props_names,
                ) {
                    Ok(Some(RejectReason::MissingExtension))
                } else if policy.require_geometry_shader && !device.geometry_shader {
                    Ok(Some(RejectReason::MissingGeometryShader))
                } else if policy.rate(device) == 0 {
                    Ok(Some(RejectReason::ZeroScore))
                } else {
                    Ok(None)
                }
            },
        }
    }

    /// Chooses the adapter to draw with, by its place in `devices`, under
    /// the standard policy.
    ///
    /// An adapter can be chosen when it passes both gates and rates above
    /// zero. The highest rating wins, the earlier adapter on a tie. The first
    /// failed present query that a queue scan reaches ends the selection with
    /// its error. Where no adapter can be chosen, the error lists every
    /// adapter with the reason it was passed over.
    pub fn pick_suitable_device(
        devices: &Vec<PhysicalDevice>,
        with_surface: bool,
        required_props_names: &Vec<String>,
    ) -> (r: Result<usize, Error>)
        requires
            forall|i: int| 0 <= i < devices@.len() ==> (#[trigger] devices@[i]).well_formed(),
        ensures
            is_selection(standard_policy(), devices@, with_surface, required_props_names@, r),
    {
        Self::pick_suitable_device_with(
            &ScoringPolicy::standard(),
            devices,
            with_surface,
            required_props_names,
        )
    }

    /// Chooses the adapter to draw with as `pick_suitable_device` does, with
    /// ratings from `policy`.
    pub fn pick_suitable_device_with(
        policy: &ScoringPolicy,
        devices: &Vec<PhysicalDevice>,
        with_surface: bool,
        required_props_names: &Vec<String>,
    ) -> (r: Result<usize, Error>)
        requires
            forall|i: int| 0 <= i < devices@.len() ==> (#[trigger] devices@[i]).well_formed(),
        ensures
            is_selection(*policy, devices@, with_surface, required_props_names@, r),
    {
        let ghost required = required_props_names@;
        let ghost policy_used = *policy;
        let mut best_score: u64 = 0;
        let mut best_device: Option<usize> = None;
        let mut rejected: Vec<Rejection> = Vec::new();
        let mut i: usize = 0;
        while i < devices.len()
            invariant
                i <= devices@.len(),
                required == required_props_names@,
                policy_used == *policy,
                forall|k: int| 0 <= k < devices@.len() ==> (#[trigger] devices@[k]).well_formed(),
                none_before(devices@, scan_fails(with_surface), i as int),
                match best_device {
                    Some(b) => {
                        &&& b < i
                        &&& eligible(policy_used, with_surface, required)(devices@[b as int])
                        &&& best_score == score(policy_used, devices@[b as int])
                        &&& forall|j: int|
                            0 <= j < i && eligible(policy_used, with_surface, required)(#[trigger] devices@[j])
                                ==> {
                                &&& score(policy_used, devices@[j]) <= best_score
                                &&& j < b ==> score(policy_used, devices@[j]) < best_score
                            }
                    },
                    None => {
                        &&& best_score == 0
                        &&& none_before(devices@, eligible(policy_used, with_surface, required), i as int)
                        &&& rejected@ == rejections(policy_used, devices@.take(i as int), with_surface, required)
                    },
                },
            decreases devices@.len() - i,
        {
            let device = &devices[i];
            match Self::assess_physical_device(policy, device, with_surface, required_props_names) {
                Err(e) => {
                    proof {
                        lemma_first_index_is(devices@, scan_fails(with_surface), i as int);
                    }
                    return Err(e);
                },
                Ok(Some(reason)) => {
                    rejected.push(Rejection { index: i, reason });
                },
                Ok(None) => {
                    let rating = policy.rate(device);
                    if rating > best_score {
                        best_device = Some(i);
                        best_score = rating;
                    }
                },
            }
            i += 1;
        }
        proof {
            assert(devices@.take(i as int) =~= devices@);
        }
        match best_device {
            Some(best) => Ok(best),
            None => Err(Error::NoSuitableAdapter(rejected)),
        }
    }
}

} // verus!
