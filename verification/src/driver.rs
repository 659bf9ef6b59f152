//! What the shared driver entry point decides for each driver model.
//!
//! The driver model is chosen when a driver is built; here it is a value, so
//! that the name reported in the initialisation event and the order of the
//! entry point's steps can be stated and checked for every model.

use vstd::prelude::*;

verus! {

/// The Windows driver models that the shared entry point serves.
#[derive(Debug, Clone, Copy, PartialEq, Eq, Structural)]
pub enum DriverModel {
    Wdm,
    Kmdf,
    Umdf,
}

/// One step that the entry point performs, in order.
#[derive(Debug, Clone, Copy, PartialEq, Eq, Structural)]
pub enum EntryStep {
    /// Register the event provider.
    RegisterProvider,
    /// Emit the initialisation event tagged with the driver-type name.
    LogDriverInit,
    /// Unregister the event provider before returning.
    UnregisterProvider,
    /// Install an unload callback that unregisters the provider.
    InstallUnloadCallback,
}

/// The name reported for a driver model; a build without one reports `Unknown`.
pub open spec fn driver_type_label(model: Option<DriverModel>) -> Seq<char> {
    match model {
        Some(DriverModel::Wdm) => "WDM"@,
        Some(DriverModel::Kmdf) => "KMDF"@,
        Some(DriverModel::Umdf) => "UMDF"@,
        None => "Unknown"@,
    }
}

/// The steps of the entry point: a user-mode driver unregisters inline, a
/// kernel-mode driver leaves that to its unload callback.
pub open spec fn entry_steps_of(model: DriverModel) -> Seq<EntryStep> {
    match model {
        DriverModel::Umdf => seq![
            EntryStep::RegisterProvider,
            EntryStep::LogDriverInit,
            EntryStep::UnregisterProvider,
        ],
        _ => seq![
            EntryStep::RegisterProvider,
            EntryStep::LogDriverInit,
            EntryStep::InstallUnloadCallback,
        ],
    }
}

/// Whether a step sequence leaves the provider unregistered by the time the
/// driver image is gone: right after registering it is either unregistered
/// inline or an unload callback that unregisters it is installed.
pub open spec fn unregisters_before_unload(steps: Seq<EntryStep>) -> bool {
    &&& steps.len() > 0
    &&& steps[0] == EntryStep::RegisterProvider
    &&& exists|i: int|
        0 < i < steps.len() && (#[trigger] steps[i] == EntryStep::UnregisterProvider
            || steps[i] == EntryStep::InstallUnloadCallback)
}

/// The driver-type name for the model the driver was built for.
pub fn driver_type_name(model: Option<DriverModel>) -> (name: &'static str)
    ensures
        name@ == driver_type_label(model),
{
    match model {
        Some(DriverModel::Wdm) => "WDM",
        Some(DriverModel::Kmdf) => "KMDF",
        Some(DriverModel::Umdf) => "UMDF",
        None => "Unknown",
    }
}

/// The steps that the entry point performs, in order, for a driver model.
pub fn driver_entry_steps(model: DriverModel) -> (steps: Vec<EntryStep>)
    ensures
        steps@ == entry_steps_of(model),
{
    let mut steps: Vec<EntryStep> = Vec::new();
    steps.push(EntryStep::RegisterProvider);
    steps.push(EntryStep::LogDriverInit);
    match model {
        DriverModel::Umdf => steps.push(EntryStep::UnregisterProvider),
        _ => steps.push(EntryStep::InstallUnloadCallback),
    }
    steps
}

/// The steps of the unload callback installed by a kernel-mode driver.
pub fn driver_unload_steps() -> (steps: Vec<EntryStep>)
    ensures
        steps@ == seq![EntryStep::UnregisterProvider],
{
    let mut steps: Vec<EntryStep> = Vec::new();
    steps.push(EntryStep::UnregisterProvider);
    steps
}

/// Every driver model registers the provider first and arranges for it to be
/// unregistered: inline for a user-mode driver, at unload otherwise.
pub proof fn lemma_entry_unregisters_before_unload(model: DriverModel)
    ensures
        unregisters_before_unload(entry_steps_of(model)),
        (model == DriverModel::Umdf) <==> entry_steps_of(model).contains(EntryStep::UnregisterProvider),
        (model != DriverModel::Umdf) <==> entry_steps_of(model).contains(EntryStep::InstallUnloadCallback),
{
    let s = entry_steps_of(model);
    assert(s[2] == EntryStep::UnregisterProvider || s[2] == EntryStep::InstallUnloadCallback);
    if model == DriverModel::Umdf {
        assert(s.contains(EntryStep::UnregisterProvider)) by { assert(s[2] == EntryStep::UnregisterProvider); }
        assert(!s.contains(EntryStep::InstallUnloadCallback)) by {
            if s.contains(EntryStep::InstallUnloadCallback) {
                let i = choose|i: int| 0 <= i < s.len() && s[i] == EntryStep::InstallUnloadCallback;
                assert(i == 0 || i == 1 || i == 2);
            }
        }
    } else {
        assert(s.contains(EntryStep::InstallUnloadCallback)) by { assert(s[2] == EntryStep::InstallUnloadCallback); }
        assert(!s.contains(EntryStep::UnregisterProvider)) by {
            if s.contains(EntryStep::UnregisterProvider) {
                let i = choose|i: int| 0 <= i < s.len() && s[i] == EntryStep::UnregisterProvider;
                assert(i == 0 || i == 1 || i == 2);
            }
        }
    }
}

} // verus!
