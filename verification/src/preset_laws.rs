//! Laws of presets: a preset taken from a state and applied to another state
//! gives back every setting of the first, keeping the lock state, serial
//! number and firmware version of the second.
use vstd::prelude::*;
use crate::presets::{holds_settings_of, restored_from, PresetSlot};
use crate::protocol::DeviceState;

verus! {

/// Saving a state into a preset and loading that preset onto any state `base`
/// reproduces the saved state, except for the lock state, the serial number
/// and the firmware version, which stay those of `base`.
pub proof fn lemma_preset_round_trip(s: DeviceState, slot: PresetSlot, base: DeviceState, t: DeviceState)
    requires
        holds_settings_of(slot, s),
        restored_from(t, slot, base),
    ensures
        t == (DeviceState {
            locked: base.locked,
            serial_number: base.serial_number,
            firmware_version: base.firmware_version,
            ..s
        }),
{
    assert(t.eq_bands =~= s.eq_bands);
}

} // verus!
