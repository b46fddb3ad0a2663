//! Formatting decoded readouts into line-protocol metric records.
//!
//! Each operation is total: a missing required field, an unresolvable
//! timestamp, or a wrong sub-meter device type yields `None`, never an
//! error. A produced line reproduces the wire format exactly — field
//! names, field order, and decimal precision.

use vstd::prelude::*;
use crate::reading::{spec_fixed2, spec_fixed3, spec_plain, spec_u64_str};
use crate::reading::{push_fixed2, push_fixed3, push_plain, push_u64};
use crate::readout::{ReadoutState, GAS_DEVICE_TYPE};
use crate::timestamp::{resolve, resolved_nanos, valid_timestamp};

verus! {

/// All fields the power metric family requires are present and the
/// timestamp resolves.
pub open spec fn power_ready(s: ReadoutState) -> bool {
    &&& s.datetime is Some
    &&& valid_timestamp(s.datetime->Some_0)
    &&& s.meterreadings@.len() >= 2
    &&& s.meterreadings@[0].to is Some
    &&& s.meterreadings@[1].to is Some
    &&& s.lines@.len() >= 3
    &&& s.lines@[0].voltage is Some
    &&& s.lines@[1].voltage is Some
    &&& s.lines@[2].voltage is Some
    &&& s.lines@[0].active_power_plus is Some
    &&& s.lines@[1].active_power_plus is Some
    &&& s.lines@[2].active_power_plus is Some
    &&& s.power_delivered is Some
}

/// The exact power line emitted for a ready state: cumulative tariff
/// readings pass through plainly, voltages carry two decimal places,
/// active powers three, and the record closes with the resolved
/// nanosecond timestamp.
pub open spec fn spec_power_line(s: ReadoutState, loc: Seq<char>) -> Seq<char>
    recommends
        power_ready(s),
{
    "power_reading,location="@ + loc + " electricity_used_tariff_1="@
        + spec_plain(s.meterreadings@[0].to->Some_0.milli as nat) + ",electricity_used_tariff_2="@
        + spec_plain(s.meterreadings@[1].to->Some_0.milli as nat) + ",voltage_l1="@
        + spec_fixed2(s.lines@[0].voltage->Some_0.milli as nat) + ",voltage_l2="@
        + spec_fixed2(s.lines@[1].voltage->Some_0.milli as nat) + ",voltage_l3="@
        + spec_fixed2(s.lines@[2].voltage->Some_0.milli as nat) + ",active_power_l1="@
        + spec_fixed3(s.lines@[0].active_power_plus->Some_0.milli as nat) + ",active_power_l2="@
        + spec_fixed3(s.lines@[1].active_power_plus->Some_0.milli as nat) + ",active_power_l3="@
        + spec_fixed3(s.lines@[2].active_power_plus->Some_0.milli as nat)
        + ",current_electricity_usage="@ + spec_plain(s.power_delivered->Some_0.milli as nat)
        + " "@ + spec_u64_str(resolved_nanos(s.datetime->Some_0) as nat)
}

/// The first sub-meter record is a gas meter with a resolvable reading.
pub open spec fn gas_ready(s: ReadoutState) -> bool {
    &&& s.slaves@.len() >= 1
    &&& s.slaves@[0].device_type == Some(GAS_DEVICE_TYPE)
    &&& s.slaves@[0].meter_reading is Some
    &&& valid_timestamp(s.slaves@[0].meter_reading->Some_0.0)
}

/// The exact gas line emitted for a ready state.
pub open spec fn spec_gas_line(s: ReadoutState, loc: Seq<char>) -> Seq<char>
    recommends
        gas_ready(s),
{
    "gas_reading,location="@ + loc + " gas_meter_reading="@
        + spec_plain(s.slaves@[0].meter_reading->Some_0.1.milli as nat) + " "@
        + spec_u64_str(resolved_nanos(s.slaves@[0].meter_reading->Some_0.0) as nat)
}

/// Format the power metric family of one readout.
///
/// Returns a line exactly when the device timestamp resolves and all nine
/// required numeric fields are present; any absence yields `None` and no
/// partial line.
pub fn format_power_reading(state: &ReadoutState, location: &str) -> (r: Option<String>)
    ensures
        r is Some <==> power_ready(*state),
        r is Some ==> r->Some_0@ == spec_power_line(*state, location@),
{
    let dt = match &state.datetime {
        Some(d) => d,
        None => { return None; },
    };
    let inst = match resolve(dt) {
        Some(i) => i,
        None => { return None; },
    };
    if state.meterreadings.len() < 2 {
        return None;
    }
    let t1 = match state.meterreadings[0].to {
        Some(x) => x,
        None => { return None; },
    };
    let t2 = match state.meterreadings[1].to {
        Some(x) => x,
        None => { return None; },
    };
    if state.lines.len() < 3 {
        return None;
    }
    let v1 = match state.lines[0].voltage {
        Some(x) => x,
        None => { return None; },
    };
    let v2 = match state.lines[1].voltage {
        Some(x) => x,
        None => { return None; },
    };
    let v3 = match state.lines[2].voltage {
        Some(x) => x,
        None => { return None; },
    };
    let p1 = match state.lines[0].active_power_plus {
        Some(x) => x,
        None => { return None; },
    };
    let p2 = match state.lines[1].active_power_plus {
        Some(x) => x,
        None => { return None; },
    };
    let p3 = match state.lines[2].active_power_plus {
        Some(x) => x,
        None => { return None; },
    };
    let pd = match state.power_delivered {
        Some(x) => x,
        None => { return None; },
    };
    let mut s = String::from_str("power_reading,location=");
    s.append(location);
    s.append(" electricity_used_tariff_1=");
    push_plain(t1.milli, &mut s);
    s.append(",electricity_used_tariff_2=");
    push_plain(t2.milli, &mut s);
    s.append(",voltage_l1=");
    push_fixed2(v1.milli, &mut s);
    s.append(",voltage_l2=");
    push_fixed2(v2.milli, &mut s);
    s.append(",voltage_l3=");
    push_fixed2(v3.milli, &mut s);
    s.append(",active_power_l1=");
    push_fixed3(p1.milli, &mut s);
    s.append(",active_power_l2=");
    push_fixed3(p2.milli, &mut s);
    s.append(",active_power_l3=");
    push_fixed3(p3.milli, &mut s);
    s.append(",current_electricity_usage=");
    push_plain(pd.milli, &mut s);
    s.append(" ");
    push_u64(inst.nanos as u64, &mut s);
    proof {
        assert(s@ == spec_power_line(*state, location@));
    }
    Some(s)
}

/// Format the gas metric family of one readout.
///
/// Inspects only the first sub-meter slot: returns a line exactly when
/// that slot carries the gas device-type code and a reading pair whose
/// timestamp resolves; anything else yields `None`.
pub fn format_gas_reading(state: &ReadoutState, location: &str) -> (r: Option<String>)
    ensures
        r is Some <==> gas_ready(*state),
        r is Some ==> r->Some_0@ == spec_gas_line(*state, location@),
{
    if state.slaves.len() < 1 {
        return None;
    }
    match state.slaves[0].device_type {
        Some(t) => {
            if t != GAS_DEVICE_TYPE {
                return None;
            }
        },
        None => { return None; },
    }
    let (ts, reading) = match &state.slaves[0].meter_reading {
        Some(p) => (p.0, p.1),
        None => { return None; },
    };
    let inst = match resolve(&ts) {
        Some(i) => i,
        None => { return None; },
    };
    let mut s = String::from_str("gas_reading,location=");
    s.append(location);
    s.append(" gas_meter_reading=");
    push_plain(reading.milli, &mut s);
    s.append(" ");
    push_u64(inst.nanos as u64, &mut s);
    proof {
        assert(s@ == spec_gas_line(*state, location@));
    }
    Some(s)
}

} // verus!
