use vstd::prelude::*;
use crate::error::Error;
use crate::instance::{texts, Instance};
use crate::physical_device::PhysicalDevice;
use crate::utils::name_has_nul;

verus! {

/// An application that only looks at the adapters: an instance, and nothing
/// built on it.
#[derive(Debug, PartialEq, Eq)]
pub struct VulkanApp {
    pub instance: Instance,
}

/// Whether `report` lists `devices`: for each adapter, in order, its index
/// and its name.
pub open spec fn is_report_of(report: Seq<(usize, String)>, devices: Seq<PhysicalDevice>) -> bool {
    &&& report.len() == devices.len()
    &&& forall|i: int|
        0 <= i < report.len() ==> (#[trigger] report[i]).0 == i && report[i].1@ == devices[i].name@
}

impl VulkanApp {
    /// Lays out the instance of an application that asks for no extensions
    /// of its own. A name with the character zero in it is refused.
    pub fn new(app_name: &str, enable_validation: bool) -> (r: Result<VulkanApp, Error>)
        ensures
            match r {
                Ok(app) => !name_has_nul(app_name@) && app.instance.is_for(
                    app_name@,
                    enable_validation,
                    Seq::empty(),
                ),
                Err(e) => e == Error::InvalidName && name_has_nul(app_name@),
            },
    {
        proof {
            assert(texts(Seq::<String>::empty()) =~= Seq::<Seq<char>>::empty());
        }
        match Instance::new(app_name, enable_validation, None) {
            Ok(instance) => Ok(VulkanApp { instance }),
            Err(e) => Err(e),
        }
    }

    /// Lists the adapters: each with its index, in the order of their
    /// enumeration, whether or not it could be chosen.
    pub fn list_physical_devices(&self, devices: &Vec<PhysicalDevice>) -> (r: Vec<(usize, String)>)
        ensures
            is_report_of(r@, devices@),
    {
        let mut report: Vec<(usize, String)> = Vec::new();
        let mut i: usize = 0;
        while i < devices.len()
            invariant
                i <= devices@.len(),
                is_report_of(report@, devices@.take(i as int)),
            decreases devices@.len() - i,
        {
            report.push((i, devices[i].name.clone()));
            i += 1;
        }
        report
    }
}

} // verus!
