use vstd::prelude::*;
use crate::error::Error;
use crate::utils::{
    any_name_with_nul, clone_names, first_index, is_first, lemma_first_index_is,
    lemma_first_index_sound, lemma_some_is_first, names_have_nul, none_before,
};
use crate::vk::{flags_contain, queue_flags_contain, QUEUE_GRAPHICS};

verus! {

/// One queue family of an adapter: what its queues can do, and what the query
/// for presenting to the surface answered (the status code where it failed).
#[derive(Clone, Copy, Debug, PartialEq, Eq)]
pub struct QueueFamily {
    pub queue_flags: u32,
    pub present_support: Result<bool, i32>,
}

/// The queue families that were found for the two roles.
#[derive(Clone, Copy, Debug, PartialEq, Eq, Structural)]
pub struct QueueFamilyIndices {
    pub graphics_family: Option<u32>,
    pub present_family: Option<u32>,
}

impl QueueFamilyIndices {
    /// Whether both roles found a family.
    pub fn is_complete(&self) -> (r: bool)
        ensures
            r == (self.graphics_family is Some && self.present_family is Some),
    {
        self.graphics_family.is_some() && self.present_family.is_some()
    }

    /// Whether every role that is needed found a family: graphics always,
    /// present only where there is a surface.
    pub open spec fn complete_for(self, with_surface: bool) -> bool {
        self.graphics_family is Some && (with_surface ==> self.present_family is Some)
    }

    /// Tests `complete_for`.
    pub fn is_complete_for(&self, with_surface: bool) -> (r: bool)
        ensures
            r == self.complete_for(with_surface),
    {
        self.graphics_family.is_some() && (!with_surface || self.present_family.is_some())
    }
}

/// The family takes graphics commands.
pub open spec fn takes_graphics() -> spec_fn(QueueFamily) -> bool {
    |f: QueueFamily| flags_contain(f.queue_flags, QUEUE_GRAPHICS)
}

/// The family can present to the surface.
pub open spec fn can_present() -> spec_fn(QueueFamily) -> bool {
    |f: QueueFamily| f.present_support == Ok::<bool, i32>(true)
}

/// The query for the family failed.
pub open spec fn query_failed() -> spec_fn(QueueFamily) -> bool {
    |f: QueueFamily| f.present_support is Err
}

/// An optional place in a list as a family index.
pub open spec fn as_family(i: Option<int>) -> Option<u32> {
    match i {
        Some(i) => Some(i as u32),
        None => None,
    }
}

/// Whether `i` lies before `n`.
pub open spec fn found_before(i: Option<int>, n: int) -> bool {
    match i {
        Some(i) => i < n,
        None => false,
    }
}

/// The families that serve the two roles. Families are looked at in order,
/// until both roles are served. Graphics goes to the first family that takes
/// graphics commands, present to the first that can present. A failed query
/// for a family that is looked at is the result. Without a surface no query
/// counts and the present role stays empty.
pub open spec fn queue_families(families: Seq<QueueFamily>, with_surface: bool) -> Result<
    QueueFamilyIndices,
    Error,
> {
    let graphics = first_index(families, takes_graphics());
    let present = first_index(families, can_present());
    if !with_surface {
        Ok(QueueFamilyIndices { graphics_family: as_family(graphics), present_family: None })
    } else {
        match first_index(families, query_failed()) {
            Some(f) if !(found_before(graphics, f) && found_before(present, f)) => Err(
                Error::SurfaceQuery(families[f].present_support->Err_0),
            ),
            _ => Ok(
                QueueFamilyIndices {
                    graphics_family: as_family(graphics),
                    present_family: as_family(present),
                },
            ),
        }
    }
}

/// What a scan has found in the first `n` families.
spec fn scanned(families: Seq<QueueFamily>, p: spec_fn(QueueFamily) -> bool, n: int, found: Option<
    u32,
>) -> bool {
    match found {
        Some(i) => i < n && is_first(families, p, i as int),
        None => none_before(families, p, n),
    }
}

/// Finds the queue families for the graphics and the present role.
///
/// `families` holds the adapter's families in index order, each with the
/// answer of its present query; `with_surface` says whether there is a
/// surface to present to.
pub fn find_queue_families(families: &Vec<QueueFamily>, with_surface: bool) -> (r: Result<
    QueueFamilyIndices,
    Error,
>)
    requires
        families@.len() <= u32::MAX,
    ensures
        r == queue_families(families@, with_surface),
{
    let mut graphics_index: Option<u32> = None;
    let mut present_index: Option<u32> = None;
    let mut ix: usize = 0;
    while ix < families.len() && !(graphics_index.is_some() && (present_index.is_some()
        || !with_surface))
        invariant
            ix <= families@.len() <= u32::MAX,
            scanned(families@, takes_graphics(), ix as int, graphics_index),
            with_surface ==> scanned(families@, can_present(), ix as int, present_index),
            with_surface ==> none_before(families@, query_failed(), ix as int),
            !with_surface ==> present_index is None,
        decreases families@.len() - ix,
    {
        let family = families[ix];
        if graphics_index.is_none() && queue_flags_contain(family.queue_flags, QUEUE_GRAPHICS) {
            graphics_index = Some(ix as u32);
        }
        if with_surface {
            match family.present_support {
                Err(code) => {
                    proof {
                        lemma_first_index_is(families@, query_failed(), ix as int);
                    }
                    return Err(Error::SurfaceQuery(code));
                },
                Ok(has_support) => {
                    if has_support && present_index.is_none() {
                        present_index = Some(ix as u32);
                    }
                },
            }
        }
        ix += 1;
    }
    Ok(QueueFamilyIndices { graphics_family: graphics_index, present_family: present_index })
}

/// What resolution finds is the first family of each kind. Where it names a
/// family for a role, that family serves the role and none before it does;
/// where it names none, no family serves the role, or, for the present role,
/// there is no surface.
pub proof fn resolved_families_are_first(families: Seq<QueueFamily>, with_surface: bool)
    requires
        families.len() <= u32::MAX,
        queue_families(families, with_surface) is Ok,
    ensures
        match queue_families(families, with_surface)->Ok_0.graphics_family {
            Some(g) => is_first(families, takes_graphics(), g as int),
            None => none_before(families, takes_graphics(), families.len() as int),
        },
        match queue_families(families, with_surface)->Ok_0.present_family {
            Some(p) => with_surface && is_first(families, can_present(), p as int),
            None => !with_surface || none_before(families, can_present(), families.len() as int),
        },
{
    lemma_first_index_sound(families, takes_graphics());
    lemma_first_index_sound(families, can_present());
}

/// A failed present query is handed on exactly when the scan reaches it:
/// resolution fails if and only if there is a surface, some query failed,
/// and the two roles are not both served by families before the first
/// failed one. The error then carries the status code of that query.
pub proof fn resolution_fails_on_first_reached_failure(
    families: Seq<QueueFamily>,
    with_surface: bool,
)
    ensures
        queue_families(families, with_surface) is Err <==> with_surface && exists|f: int|
            is_first(families, query_failed(), f) && !(exists|g: int, p: int|
                0 <= g < f && 0 <= p < f && takes_graphics()(#[trigger] families[g])
                    && can_present()(#[trigger] families[p])),
        queue_families(families, with_surface) is Err ==> exists|f: int|
            is_first(families, query_failed(), f) && queue_families(families, with_surface)
                == Err::<QueueFamilyIndices, Error>(
                Error::SurfaceQuery(families[f].present_support->Err_0),
            ),
{
    if with_surface {
        match first_index(families, query_failed()) {
            Some(f) => {
                if exists|g: int, p: int|
                    0 <= g < f && 0 <= p < f && takes_graphics()(#[trigger] families[g])
                        && can_present()(#[trigger] families[p]) {
                    let (g, p) = choose|g: int, p: int|
                        0 <= g < f && 0 <= p < f && takes_graphics()(#[trigger] families[g])
                            && can_present()(#[trigger] families[p]);
                    lemma_some_is_first(families, takes_graphics(), g);
                    lemma_some_is_first(families, can_present(), p);
                }
            },
            None => {},
        }
    }
}

/// The highest priority a queue can have, in hundredths.
pub const FULL_PRIORITY: u32 = 100;

/// A request for queues of one family.
#[derive(Clone, Copy, Debug, PartialEq, Eq, Structural)]
pub struct QueueRequest {
    pub queue_family_index: u32,
    pub queue_count: u32,
    /// The priority of each queue, in hundredths of the highest.
    pub priority: u32,
}

/// The optional features of a device that this library knows of.
#[derive(Clone, Copy, Debug, PartialEq, Eq, Structural)]
pub struct DeviceFeatures {
    pub geometry_shader: bool,
}

/// A request for one queue of a family, at full priority.
pub open spec fn one_queue(family: u32) -> QueueRequest {
    QueueRequest { queue_family_index: family, queue_count: 1, priority: FULL_PRIORITY }
}

/// The queues to ask for: one of the graphics family, and one of the present
/// family where that is another family, each at full priority.
pub open spec fn queue_requests(indices: QueueFamilyIndices) -> Seq<QueueRequest> {
    let graphics = indices.graphics_family->Some_0;
    match indices.present_family {
        Some(present) if present != graphics => seq![one_queue(graphics), one_queue(present)],
        _ => seq![one_queue(graphics)],
    }
}

/// What a logical device is created with: the queues to ask for, the device
/// extensions to switch on, and the families whose first queue is fetched
/// once the device stands.
#[derive(Debug, PartialEq, Eq)]
pub struct LogicalDevice {
    pub queue_requests: Vec<QueueRequest>,
    pub enabled_extensions: Vec<String>,
    /// The optional features to switch on: none, unless the caller names some.
    pub enabled_features: DeviceFeatures,
    pub graphics_family: u32,
    pub present_family: Option<u32>,
}

impl LogicalDevice {
    /// Whether this is the device to create for the resolved `indices` and
    /// the `required` extensions.
    pub open spec fn is_for(&self, indices: QueueFamilyIndices, required: Seq<String>) -> bool {
        &&& self.queue_requests@ == queue_requests(indices)
        &&& self.enabled_extensions@ == required
        &&& self.enabled_features == (DeviceFeatures { geometry_shader: false })
        &&& Some(self.graphics_family) == indices.graphics_family
        &&& self.present_family == indices.present_family
    }

    /// Lays out the logical device for an adapter with the given queue
    /// families. A failed present query that the queue scan reaches is the
    /// error; so is a needed role that found no family; so is, after these,
    /// an extension name with the character zero in it.
    pub fn new(
        families: &Vec<QueueFamily>,
        with_surface: bool,
        required_props_names: &Vec<String>,
    ) -> (r: Result<LogicalDevice, Error>)
        requires
            families@.len() <= u32::MAX,
        ensures
            match queue_families(families@, with_surface) {
                Err(e) => r is Err && r->Err_0 == e,
                Ok(indices) => if !indices.complete_for(with_surface) {
                    r is Err && r->Err_0 == Error::IncompleteQueueFamilies
                } else if names_have_nul(required_props_names@) {
                    r is Err && r->Err_0 == Error::InvalidName
                } else {
                    r is Ok && r->Ok_0.is_for(indices, required_props_names@)
                },
            },
    {
        let family_indices = match find_queue_families(families, with_surface) {
            Err(e) => {
                return Err(e);
            },
            Ok(indices) => indices,
        };
        let graphics_family = match family_indices.graphics_family {
            None => {
                return Err(Error::IncompleteQueueFamilies);
            },
            Some(g) => g,
        };
        if with_surface && family_indices.present_family.is_none() {
            return Err(Error::IncompleteQueueFamilies);
        }
        if any_name_with_nul(required_props_names) {
            return Err(Error::InvalidName);
        }
        let mut requests: Vec<QueueRequest> = Vec::new();
        requests.push(
            QueueRequest {
                queue_family_index: graphics_family,
                queue_count: 1,
                priority: FULL_PRIORITY,
            },
        );
        match family_indices.present_family {
            Some(present) => {
                if present != graphics_family {
                    requests.push(
                        QueueRequest {
                            queue_family_index: present,
                            queue_count: 1,
                            priority: FULL_PRIORITY,
                        },
                    );
                }
            },
            None => {},
        }
        assert(requests@ =~= queue_requests(family_indices));
        Ok(
            LogicalDevice {
                queue_requests: requests,
                enabled_extensions: clone_names(required_props_names),
                enabled_features: DeviceFeatures { geometry_shader: false },
                graphics_family,
                present_family: family_indices.present_family,
            },
        )
    }
}

impl LogicalDevice {
    /// The same device with the optional features that the caller names.
    pub fn with_features(self, features: DeviceFeatures) -> (r: LogicalDevice)
        ensures
            r.enabled_features == features,
            r.queue_requests == self.queue_requests,
            r.enabled_extensions == self.enabled_extensions,
            r.graphics_family == self.graphics_family,
            r.present_family == self.present_family,
    {
        LogicalDevice {
            queue_requests: self.queue_requests,
            enabled_extensions: self.enabled_extensions,
            enabled_features: features,
            graphics_family: self.graphics_family,
            present_family: self.present_family,
        }
    }
}

} // verus!
