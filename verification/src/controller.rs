//! The outlet controller: the only path by which an outlet's cached state may
//! change.  It binds the physical pin write to the cache — the flag is
//! updated only after the hardware confirmed the write, so the mirror never
//! diverges from physical truth on error.

use vstd::prelude::*;

use crate::hardware;
use crate::outlet::{has_id, set_active_at, OutletError};
use crate::registry::Registry;

verus! {

/// The static pin assignment of this deployment, in declaration order.
pub open spec fn default_pin_config() -> Seq<u8> {
    seq![4u8, 22u8, 6u8, 26u8]
}

/// The pin assignments as a list, matching `default_pin_config`.
pub fn default_pins() -> (r: Vec<u8>)
    ensures
        r@ == default_pin_config(),
{
    let mut v: Vec<u8> = Vec::new();
    v.push(4);
    v.push(22);
    v.push(6);
    v.push(26);
    proof {
        assert(v@ =~= default_pin_config());
    }
    v
}

/// Settles a command from the outcome of its physical write: on success the
/// cached flag of the outlet at `idx` becomes `desired`; on failure the cache
/// is left exactly at its prior value and the cause is carried in the error.
pub fn settle_write(
    reg: &mut Registry,
    idx: usize,
    desired: bool,
    write_result: Result<(), String>,
) -> (r: Result<(), OutletError>)
    requires
        idx < old(reg)@.len(),
    ensures
        old(reg).wf() ==> final(reg).wf(),
        match write_result {
            Ok(_) => r is Ok && final(reg)@ == set_active_at(old(reg)@, idx as int, desired),
            Err(cause) => final(reg)@ == old(reg)@ && (r matches Err(
                OutletError::HardwareWriteFailed(t),
            ) && t@ == cause@),
        },
{
    match write_result {
        Ok(_) => {
            reg.set_active_index(idx, desired);
            Ok(())
        },
        Err(cause) => Err(OutletError::HardwareWriteFailed(cause)),
    }
}

/// Commands the outlet carrying identifier `id` to the desired state: resolve
/// the id, drive the pin, and mirror the commanded state only on success.
///
/// Exactly one of three things happens: the id is unknown and nothing is
/// touched; the hardware write fails and the cache keeps its prior value; or
/// the write succeeds and the one outlet with that id is re-commanded.
pub fn command_outlet(reg: &mut Registry, id: usize, desired: bool) -> (r: Result<
    (),
    OutletError,
>)
    requires
        old(reg).wf(),
    ensures
        final(reg).wf(),
        !has_id(old(reg)@, id) ==> (r matches Err(OutletError::UnknownOutlet)) && final(reg)@
            == old(reg)@,
        has_id(old(reg)@, id) ==> match r {
            Ok(_) => exists|i: int|
                0 <= i < old(reg)@.len() && #[trigger] old(reg)@[i].id == id && final(reg)@
                    == set_active_at(old(reg)@, i, desired),
            Err(e) => (e matches OutletError::HardwareWriteFailed(_)) && final(reg)@ == old(
                reg,
            )@,
        },
{
    let idx = match reg.find_index(id) {
        Some(i) => i,
        None => {
            return Err(OutletError::UnknownOutlet);
        },
    };
    let pin = reg.at(idx).pin;
    let written = hardware::write_level(pin, desired);
    settle_write(reg, idx, desired, written)
}

/// Builds the registry for the static pin assignment, probing each pin's
/// current output level for the initial cached state and defaulting to
/// inactive where the probe fails.
pub fn init_gpio() -> (r: Registry)
    ensures
        r.wf(),
        r@.len() == default_pin_config().len(),
        forall|i: int|
            0 <= i < r@.len() ==> #[trigger] r@[i].id == i as usize && r@[i].pin
                == default_pin_config()[i],
{
    let pins = default_pins();
    let mut states: Vec<bool> = Vec::new();
    let mut i: usize = 0;
    while i < pins.len()
        invariant
            i <= pins@.len(),
            states@.len() == i as int,
        decreases pins@.len() - i,
    {
        let probed = match hardware::get_status(pins[i]) {
            Ok(level) => level,
            Err(_) => false,
        };
        states.push(probed);
        i += 1;
    }
    Registry::from_states(&pins, &states)
}

} // verus!
