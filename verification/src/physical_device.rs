use vstd::prelude::*;
use crate::error::{Error, RejectReason, Rejection};
use crate::logical_device::{queue_families, QueueFamily, QueueFamilyIndices};
use crate::utils::{first_index, none_before};

verus! {

/// The class of an adapter.
#[derive(Clone, Copy, Debug, PartialEq, Eq, Structural)]
pub enum DeviceType {
    Other,
    IntegratedGpu,
    DiscreteGpu,
    VirtualGpu,
    Cpu,
}

/// The class that a raw value stands for.
pub open spec fn device_type_of(raw: i32) -> DeviceType {
    if raw == 1 {
        DeviceType::IntegratedGpu
    } else if raw == 2 {
        DeviceType::DiscreteGpu
    } else if raw == 3 {
        DeviceType::VirtualGpu
    } else if raw == 4 {
        DeviceType::Cpu
    } else {
        DeviceType::Other
    }
}

impl DeviceType {
    /// The class that a raw value stands for; `Other` for a value without a
    /// name.
    pub fn from_raw(raw: i32) -> (r: DeviceType)
        ensures
            r == device_type_of(raw),
    {
        if raw == 1 {
            DeviceType::IntegratedGpu
        } else if raw == 2 {
            DeviceType::DiscreteGpu
        } else if raw == 3 {
            DeviceType::VirtualGpu
        } else if raw == 4 {
            DeviceType::Cpu
        } else {
            DeviceType::Other
        }
    }
}

/// What selection reads of one adapter: its name and class, the largest
/// two-dimensional image it takes, whether it runs geometry shaders, its queue
/// families in index order and the device extensions it offers.
#[derive(Clone, Debug, PartialEq, Eq)]
pub struct PhysicalDevice {
    pub name: String,
    pub device_type: DeviceType,
    pub max_image_dimension_2d: u32,
    pub geometry_shader: bool,
    pub queue_families: Vec<QueueFamily>,
    pub extensions: Vec<String>,
}

impl PhysicalDevice {
    /// The queue families can be numbered with 32 bits.
    pub open spec fn well_formed(self) -> bool {
        self.queue_families@.len() <= u32::MAX
    }
}

/// Whether `name` is among `available`.
pub open spec fn offers(available: Seq<String>, name: Seq<char>) -> bool {
    exists|j: int| 0 <= j < available.len() && (#[trigger] available[j])@ == name
}

/// Whether every name of `required` is among `available`.
pub open spec fn supports_all(available: Seq<String>, required: Seq<String>) -> bool {
    forall|i: int| 0 <= i < required.len() ==> offers(available, (#[trigger] required[i])@)
}

/// How adapters are rated. The two gates, complete queue families and the
/// required extensions, are no part of it: they hold under every policy.
#[derive(Clone, Copy, Debug, PartialEq, Eq, Structural)]
pub struct ScoringPolicy {
    /// What a discrete adapter is given on top of its largest image dimension.
    pub discrete_bonus: u32,
    /// Whether an adapter without geometry shaders rates zero.
    pub require_geometry_shader: bool,
}

/// The policy in use unless another is given: 1000 for a discrete adapter,
/// and no adapter without geometry shaders.
pub open spec fn standard_policy() -> ScoringPolicy {
    ScoringPolicy { discrete_bonus: 1000, require_geometry_shader: true }
}

impl ScoringPolicy {
    /// The standard policy.
    pub fn standard() -> (r: ScoringPolicy)
        ensures
            r == standard_policy(),
    {
        ScoringPolicy { discrete_bonus: 1000, require_geometry_shader: true }
    }

    /// Rates an adapter: zero where geometry shaders are required and
    /// missing; else its largest image dimension, and the bonus on top where
    /// it is a discrete adapter.
    pub fn rate(&self, device: &PhysicalDevice) -> (r: u64)
        ensures
            r == score(*self, *device),
    {
        if self.require_geometry_shader && !device.geometry_shader {
            return 0;
        }
        let mut rating: u64 = 0;
        if device.device_type == DeviceType::DiscreteGpu {
            rating += self.discrete_bonus as u64;
        }
        rating += device.max_image_dimension_2d as u64;
        rating
    }
}

/// The rating of an adapter under a policy: nothing where geometry shaders
/// are required and missing; else the largest image dimension, and the bonus
/// on top for a discrete adapter.
pub open spec fn score(policy: ScoringPolicy, device: PhysicalDevice) -> int {
    if policy.require_geometry_shader && !device.geometry_shader {
        0
    } else if device.device_type == DeviceType::DiscreteGpu {
        policy.discrete_bonus + device.max_image_dimension_2d
    } else {
        device.max_image_dimension_2d as int
    }
}

/// Whether an adapter passes the two gates: every needed queue role found a
/// family, and every required extension is offered. A failed present query
/// is the result.
pub open spec fn suitable(device: PhysicalDevice, with_surface: bool, required: Seq<String>)
    -> Result<bool, Error> {
    match queue_families(device.queue_families@, with_surface) {
        Err(e) => Err(e),
        Ok(indices) => Ok(
            indices.complete_for(with_surface) && supports_all(device.extensions@, required),
        ),
    }
}

/// Why an adapter is passed over, if it is: the first of the gates and
/// ratings that it fails. A failed present query is the result.
pub open spec fn verdict(
    policy: ScoringPolicy,
    device: PhysicalDevice,
    with_surface: bool,
    required: Seq<String>,
) -> Result<Option<RejectReason>, Error> {
    match queue_families(device.queue_families@, with_surface) {
        Err(e) => Err(e),
        Ok(indices) => Ok(
            if !indices.complete_for(with_surface) {
                Some(RejectReason::IncompleteQueueFamilies)
            } else if !supports_all(device.extensions@, required) {
                Some(RejectReason::MissingExtension)
            } else if policy.require_geometry_shader && !device.geometry_shader {
                Some(RejectReason::MissingGeometryShader)
            } else if score(policy, device) == 0 {
                Some(RejectReason::ZeroScore)
            } else {
                None
            },
        ),
    }
}

/// The adapter can be chosen.
pub open spec fn eligible(policy: ScoringPolicy, with_surface: bool, required: Seq<String>)
    -> spec_fn(PhysicalDevice) -> bool {
    |d: PhysicalDevice|
        verdict(policy, d, with_surface, required) == Ok::<Option<RejectReason>, Error>(None)
}

/// A present query that the adapter's queue scan reaches has failed.
pub open spec fn scan_fails(with_surface: bool) -> spec_fn(PhysicalDevice) -> bool {
    |d: PhysicalDevice| queue_families(d.queue_families@, with_surface) is Err
}

/// Whether the adapter at place `i` wins: it can be chosen, no adapter that
/// can be chosen rates higher, and none before it rates as high.
pub open spec fn is_best(
    policy: ScoringPolicy,
    devices: Seq<PhysicalDevice>,
    with_surface: bool,
    required: Seq<String>,
    i: int,
) -> bool {
    &&& 0 <= i < devices.len()
    &&& eligible(policy, with_surface, required)(devices[i])
    &&& forall|j: int|
        0 <= j < devices.len() && eligible(policy, with_surface, required)(#[trigger] devices[j]) ==> {
            &&& score(policy, devices[j]) <= score(policy, devices[i])
            &&& j < i ==> score(policy, devices[j]) < score(policy, devices[i])
        }
}

/// Whether the adapter at place `d` is a discrete one that can be chosen and
/// outdoes the adapter at place `n`: it rates higher, or rates the same and
/// stands earlier.
pub open spec fn outdoes(
    policy: ScoringPolicy,
    devices: Seq<PhysicalDevice>,
    with_surface: bool,
    required: Seq<String>,
    d: int,
    n: int,
) -> bool {
    &&& 0 <= d < devices.len()
    &&& 0 <= n < devices.len()
    &&& eligible(policy, with_surface, required)(devices[d])
    &&& devices[d].device_type == DeviceType::DiscreteGpu
    &&& score(policy, devices[d]) > score(policy, devices[n]) || (score(policy, devices[d]) == score(policy, devices[n]) && d < n)
}

/// The adapters that were passed over when none can be chosen: one entry for
/// each adapter, in order, with its place and the reason.
pub open spec fn rejections(
    policy: ScoringPolicy,
    devices: Seq<PhysicalDevice>,
    with_surface: bool,
    required: Seq<String>,
) -> Seq<Rejection> {
    Seq::new(
        devices.len(),
        |j: int|
            Rejection {
                index: j as usize,
                reason: verdict(policy, devices[j], with_surface, required)->Ok_0->Some_0,
            },
    )
}

/// Whether `r` is what selection gives for `devices`. The first adapter
/// whose queue scan fails decides with its error. Else the winner is chosen;
/// and where no adapter can be chosen, all are reported with their reasons.
pub open spec fn is_selection(
    policy: ScoringPolicy,
    devices: Seq<PhysicalDevice>,
    with_surface: bool,
    required: Seq<String>,
    r: Result<usize, Error>,
) -> bool {
    match first_index(devices, scan_fails(with_surface)) {
        Some(f) => r is Err && Err::<QueueFamilyIndices, Error>(r->Err_0) == queue_families(
            devices[f].queue_families@,
            with_surface,
        ),
        None => match r {
            Ok(i) => is_best(policy, devices, with_surface, required, i as int),
            Err(Error::NoSuitableAdapter(rejected)) => {
                &&& none_before(devices, eligible(policy, with_surface, required), devices.len() as int)
                &&& rejected@ == rejections(policy, devices, with_surface, required)
            },
            Err(_) => false,
        },
    }
}

/// Whether every required name is among the available ones.
pub fn check_physical_device_extension_support(
    available: &Vec<String>,
    required_props_names: &Vec<String>,
) -> (r: bool)
    ensures
        r == supports_all(available@, required_props_names@),
{
    let mut i: usize = 0;
    while i < required_props_names.len()
        invariant
            i <= required_props_names@.len(),
            forall|k: int| 0 <= k < i ==> offers(available@, (#[trigger] required_props_names@[k])@),
        decreases required_props_names@.len() - i,
    {
        let mut j: usize = 0;
        let mut found = false;
        while j < available.len() && !found
            invariant
                i < required_props_names@.len(),
                j <= available@.len(),
                found ==> offers(available@, required_props_names@[i as int]@),
                !found ==> forall|k: int|
                    0 <= k < j ==> (#[trigger] available@[k])@ != required_props_names@[i as int]@,
            decreases available@.len() - j + (if found { 0int } else { 1int }),
        {
            if available[j] == required_props_names[i] {
                found = true;
            } else {
                j += 1;
            }
        }
        if !found {
            assert(!offers(available@, required_props_names@[i as int]@));
            return false;
        }
        i += 1;
    }
    true
}

/// Selection gives a discrete adapter over every other kind, under every
/// policy. Let `r` be what selection gives for `devices`, and let no queue
/// scan fail. Let some discrete adapter be one that can be chosen, and let
/// every adapter of another kind that can be chosen be outdone by a discrete
/// one that can be chosen: one that rates higher, or rates the same and
/// stands earlier. Then `r` is an adapter, and a discrete one.
pub proof fn discrete_adapter_wins(
    policy: ScoringPolicy,
    devices: Seq<PhysicalDevice>,
    with_surface: bool,
    required: Seq<String>,
    r: Result<usize, Error>,
)
    requires
        is_selection(policy, devices, with_surface, required, r),
        none_before(devices, scan_fails(with_surface), devices.len() as int),
        exists|d: int|
            0 <= d < devices.len() && eligible(policy, with_surface, required)(#[trigger] devices[d])
                && devices[d].device_type == DeviceType::DiscreteGpu,
        forall|n: int|
            0 <= n < devices.len() && eligible(policy, with_surface, required)(#[trigger] devices[n])
                && devices[n].device_type != DeviceType::DiscreteGpu ==> exists|d: int|
                outdoes(policy, devices, with_surface, required, d, n),
    ensures
        r is Ok,
        devices[r->Ok_0 as int].device_type == DeviceType::DiscreteGpu,
{
}

/// A discrete adapter, which rates its bonus above its largest image
/// dimension, outdoes every other kind of adapter whose largest image
/// dimension is below that sum. So let no queue scan fail, let the discrete
/// adapter at place `d` be one that can be chosen, and let every adapter of
/// another kind that can be chosen have a largest image dimension below that
/// of `d` plus the bonus. Then selection gives a discrete adapter, in
/// whatever order the adapters stand.
pub proof fn discrete_adapter_wins_by_margin(
    policy: ScoringPolicy,
    devices: Seq<PhysicalDevice>,
    with_surface: bool,
    required: Seq<String>,
    r: Result<usize, Error>,
    d: int,
)
    requires
        is_selection(policy, devices, with_surface, required, r),
        none_before(devices, scan_fails(with_surface), devices.len() as int),
        0 <= d < devices.len(),
        eligible(policy, with_surface, required)(devices[d]),
        devices[d].device_type == DeviceType::DiscreteGpu,
        forall|n: int|
            0 <= n < devices.len() && eligible(policy, with_surface, required)(#[trigger] devices[n])
                && devices[n].device_type != DeviceType::DiscreteGpu
                ==> devices[n].max_image_dimension_2d < policy.discrete_bonus
                + devices[d].max_image_dimension_2d,
    ensures
        r is Ok,
        devices[r->Ok_0 as int].device_type == DeviceType::DiscreteGpu,
{
}

/// Selection has one answer: two results that selection may give for the
/// same adapters name the same adapter, or fail alike.
pub proof fn selection_is_unique(
    policy: ScoringPolicy,
    devices: Seq<PhysicalDevice>,
    with_surface: bool,
    required: Seq<String>,
    r1: Result<usize, Error>,
    r2: Result<usize, Error>,
)
    requires
        is_selection(policy, devices, with_surface, required, r1),
        is_selection(policy, devices, with_surface, required, r2),
    ensures
        r1 is Ok <==> r2 is Ok,
        r1 is Ok ==> r1->Ok_0 == r2->Ok_0,
        r1 is Err ==> match (r1->Err_0, r2->Err_0) {
            (Error::NoSuitableAdapter(a), Error::NoSuitableAdapter(b)) => a@ == b@,
            (e1, e2) => e1 == e2,
        },
{
}

} // verus!
