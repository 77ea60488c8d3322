use vstd::prelude::*;
use crate::lifecycle::Component;
use crate::physical_device::PhysicalDevice;
use crate::error::Error;
use crate::utils::{any_name_with_nul, is_name_with_nul, name_has_nul, names_have_nul};
use crate::vk::{
    api_version, debug_utils_extension, debug_utils_extension_name, MESSAGE_GENERAL,
    MESSAGE_PERFORMANCE, MESSAGE_VALIDATION, SEVERITY_ERROR, SEVERITY_INFO, SEVERITY_WARNING,
};

verus! {

/// Name of the engine that every instance announces.
pub open spec fn engine_name() -> Seq<char> {
    "Dan's on Vulkan Engine"@
}

/// Name of the layer that validates calls.
pub open spec fn validation_layer() -> Seq<char> {
    "VK_LAYER_KHRONOS_validation"@
}

/// The texts of a list of names.
pub open spec fn texts(names: Seq<String>) -> Seq<Seq<char>> {
    Seq::new(names.len(), |i: int| names[i]@)
}

/// Whether `names` are the texts `wanted`, one for one.
pub open spec fn names_are(names: Seq<String>, wanted: Seq<Seq<char>>) -> bool {
    &&& names.len() == wanted.len()
    &&& forall|i: int| 0 <= i < names.len() ==> (#[trigger] names[i])@ == wanted[i]
}

/// What the message sink is registered with: the severities and the types of
/// message that it takes, as bit sets.
#[derive(Clone, Copy, Debug, PartialEq, Eq, Structural)]
pub struct DebugState {
    pub message_severity: u32,
    pub message_type: u32,
}

/// The sink that validation registers: warnings, errors and information, of
/// the general, the validation and the performance type.
pub open spec fn validation_sink() -> DebugState {
    DebugState {
        message_severity: SEVERITY_WARNING | SEVERITY_ERROR | SEVERITY_INFO,
        message_type: MESSAGE_GENERAL | MESSAGE_VALIDATION | MESSAGE_PERFORMANCE,
    }
}

impl DebugState {
    /// A sink for the given severities and types.
    pub fn new(message_severity: u32, message_type: u32) -> (r: DebugState)
        ensures
            r == (DebugState { message_severity, message_type }),
    {
        DebugState { message_severity, message_type }
    }
}

/// What an instance is created with. Nothing of it changes while the
/// instance stands.
#[derive(Debug, PartialEq, Eq)]
pub struct Instance {
    pub application_name: String,
    pub engine_name: String,
    pub api_version: u32,
    pub enabled_layers: Vec<String>,
    pub enabled_extensions: Vec<String>,
    /// The message sink, chained into the creation and registered after it.
    pub debug: Option<DebugState>,
}

/// The layers to switch on.
pub open spec fn wanted_layers(enable_validation: bool) -> Seq<Seq<char>> {
    if enable_validation {
        seq![validation_layer()]
    } else {
        Seq::empty()
    }
}

/// The instance extensions to switch on: the one for driver messages under
/// validation, then those the caller asks for.
pub open spec fn wanted_extensions(enable_validation: bool, exts: Seq<Seq<char>>) -> Seq<
    Seq<char>,
> {
    if enable_validation {
        seq![debug_utils_extension()] + exts
    } else {
        exts
    }
}

/// The names that a caller gave, if any.
pub open spec fn given_names(exts: Option<&Vec<String>>) -> Seq<String> {
    match exts {
        Some(names) => names@,
        None => Seq::empty(),
    }
}

impl Instance {
    /// Whether this is the instance to create for an application of the
    /// given name, with or without validation, and with the extensions `exts`.
    pub open spec fn is_for(&self, app_name: Seq<char>, enable_validation: bool, exts: Seq<Seq<char>>)
        -> bool {
        &&& self.application_name@ == app_name
        &&& self.engine_name@ == engine_name()
        &&& self.api_version == api_version(0, 1, 3, 0)
        &&& names_are(self.enabled_layers@, wanted_layers(enable_validation))
        &&& names_are(self.enabled_extensions@, wanted_extensions(enable_validation, exts))
        &&& self.debug == if enable_validation {
            Some(validation_sink())
        } else {
            None
        }
    }

    /// Lays out an instance of version 1.3 for an application.
    ///
    /// Validation switches on the validation layer and the extension for
    /// driver messages, and sets up the message sink. The names in `exts`
    /// follow. A name with the character zero in it is refused, the
    /// application's or an extension's, as the driver takes names that end
    /// at the first zero byte.
    pub fn new(app_name: &str, enable_validation: bool, exts: Option<&Vec<String>>) -> (r: Result<
        Instance,
        Error,
    >)
        ensures
            match r {
                Ok(instance) => {
                    &&& !name_has_nul(app_name@)
                    &&& !names_have_nul(given_names(exts))
                    &&& instance.is_for(app_name@, enable_validation, texts(given_names(exts)))
                },
                Err(e) => {
                    &&& e == Error::InvalidName
                    &&& name_has_nul(app_name@) || names_have_nul(given_names(exts))
                },
            },
    {
        if is_name_with_nul(app_name) {
            return Err(Error::InvalidName);
        }
        match exts {
            Some(names) => {
                if any_name_with_nul(names) {
                    return Err(Error::InvalidName);
                }
            },
            None => {},
        }
        let mut enabled_layers: Vec<String> = Vec::new();
        let mut enabled_exts: Vec<String> = Vec::new();
        let mut debug: Option<DebugState> = None;
        if enable_validation {
            enabled_layers.push("VK_LAYER_KHRONOS_validation".to_owned());
            enabled_exts.push(debug_utils_extension_name());
            debug = Some(
                DebugState::new(
                    SEVERITY_WARNING | SEVERITY_ERROR | SEVERITY_INFO,
                    MESSAGE_GENERAL | MESSAGE_VALIDATION | MESSAGE_PERFORMANCE,
                ),
            );
        }
        let ghost head = enabled_exts@;
        match exts {
            Some(names) => {
                let mut i: usize = 0;
                while i < names.len()
                    invariant
                        i <= names@.len(),
                        enabled_exts@ == head + names@.take(i as int),
                    decreases names@.len() - i,
                {
                    enabled_exts.push(names[i].clone());
                    i += 1;
                }
            },
            None => {},
        }
        let instance = Instance {
            application_name: app_name.to_owned(),
            engine_name: "Dan's on Vulkan Engine".to_owned(),
            api_version: ash::vk::make_api_version(0, 1, 3, 0),
            enabled_layers,
            enabled_extensions: enabled_exts,
            debug,
        };
        proof {
            assert(texts(instance.enabled_extensions@) =~= wanted_extensions(
                enable_validation,
                texts(given_names(exts)),
            ));
        }
        Ok(instance)
    }

    /// The names of the adapters, in the order of their enumeration; the
    /// place of a name is the adapter's index.
    pub fn physical_devices(devices: &Vec<PhysicalDevice>) -> (r: Vec<String>)
        ensures
            r@.len() == devices@.len(),
            forall|i: int| 0 <= i < r@.len() ==> (#[trigger] r@[i])@ == devices@[i].name@,
    {
        let mut names: Vec<String> = Vec::new();
        let mut i: usize = 0;
        while i < devices.len()
            invariant
                i <= devices@.len(),
                names@.len() == i,
                forall|k: int| 0 <= k < i ==> (#[trigger] names@[k])@ == devices@[k].name@,
            decreases devices@.len() - i,
        {
            names.push(devices[i].name.clone());
            i += 1;
        }
        names
    }

    /// What is destroyed when the instance goes, first to last: the message
    /// sink where one is registered, then the instance itself.
    pub open spec fn destroyed(&self) -> Seq<Component> {
        if self.debug is Some {
            seq![Component::DebugMessenger, Component::Instance]
        } else {
            seq![Component::Instance]
        }
    }

    /// What to destroy when the instance goes, first to last: the message
    /// sink where one is registered, then the instance itself.
    pub fn destroy_order(&self) -> (r: Vec<Component>)
        ensures
            r@ == self.destroyed(),
    {
        let mut order: Vec<Component> = Vec::new();
        if self.debug.is_some() {
            order.push(Component::DebugMessenger);
        }
        order.push(Component::Instance);
        order
    }
}

/// No message sink is left behind: an instance laid out with validation
/// has a message sink, and destroys it before it goes itself.
pub proof fn validation_sink_destroyed_before_instance(
    instance: Instance,
    app_name: Seq<char>,
    exts: Seq<Seq<char>>,
)
    requires
        instance.is_for(app_name, true, exts),
    ensures
        instance.debug is Some,
        instance.destroyed() == seq![Component::DebugMessenger, Component::Instance],
{
}

} // verus!
