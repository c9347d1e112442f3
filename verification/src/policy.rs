//! The security policy of the host: which capabilities the sensor driver is
//! granted, and what that combination amounts to.

use vstd::prelude::*;

verus! {

/// What a combination of grants amounts to.
#[derive(Clone, Copy, Debug, PartialEq, Eq, Structural)]
pub enum PolicyMode {
    /// Sensor data may be read and nothing may leave: the intended setting.
    DataDiode,
    /// Nothing is granted.
    Lockdown,
    /// Data may be read and may leave: the setting that shows a breach.
    Breach,
    /// The network is granted without anything to read.
    Invalid,
}

/// The mode that the two grants amount to.
pub open spec fn mode_of(allow_sensor: bool, allow_network: bool) -> PolicyMode {
    if allow_sensor {
        if allow_network {
            PolicyMode::Breach
        } else {
            PolicyMode::DataDiode
        }
    } else {
        if allow_network {
            PolicyMode::Invalid
        } else {
            PolicyMode::Lockdown
        }
    }
}

/// Data can leave exactly in the breach mode: it takes both grants.
pub proof fn lemma_data_leaves_only_in_breach(allow_sensor: bool, allow_network: bool)
    ensures
        mode_of(allow_sensor, allow_network) is Breach <==> allow_sensor && allow_network,
        mode_of(allow_sensor, allow_network) is DataDiode <==> allow_sensor && !allow_network,
        !allow_network ==> !(mode_of(allow_sensor, allow_network) is Breach),
{
}

/// The mode that granting or denying sensor and network access amounts to.
pub fn policy_mode(allow_sensor: bool, allow_network: bool) -> (mode: PolicyMode)
    ensures
        mode == mode_of(allow_sensor, allow_network),
{
    match (allow_sensor, allow_network) {
        (true, false) => PolicyMode::DataDiode,
        (false, false) => PolicyMode::Lockdown,
        (true, true) => PolicyMode::Breach,
        (false, true) => PolicyMode::Invalid,
    }
}

} // verus!
