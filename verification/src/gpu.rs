//! GPU module: device information. The readings are fixed sample values;
//! no device is asked.

use vstd::prelude::*;
use crate::error::{HostError, HostErrorKind};
use crate::text::copy_str;
use crate::value::{
    arg_int, entry_views, int_arg, outcome, push_entry, push_item, views_of, Float, HostOutcome,
    Value, ValueView,
};

verus! {

/// The sample device.
pub open spec fn sample_device() -> ValueView {
    ValueView::Dict(
        seq![
            ("id"@, ValueView::Int(0)),
            ("name"@, ValueView::Text("Mock GPU"@)),
            ("uuid"@, ValueView::Text("GPU-00000000-0000-0000-0000-000000000000"@)),
        ],
    )
}

/// `gpu.list_devices`: the list of the devices, which holds the sample
/// device.
pub fn list_devices(_args: &[Value]) -> (r: Result<Value, HostError>)
    ensures
        outcome(r) == Ok::<ValueView, (HostErrorKind, Seq<char>)>(
            ValueView::List(seq![sample_device()]),
        ),
{
    let mut device: Vec<(String, Value)> = Vec::new();
    assert(entry_views(device@) =~= Seq::<(Seq<char>, ValueView)>::empty());
    push_entry(&mut device, "id", Value::Int(0));
    push_entry(&mut device, "name", Value::string("Mock GPU"));
    push_entry(&mut device, "uuid", Value::string("GPU-00000000-0000-0000-0000-000000000000"));
    let value = Value::Dict(device);
    assert(value@ =~= sample_device()) by {
        assert(entry_views(device@) =~= seq![
            ("id"@, ValueView::Int(0)),
            ("name"@, ValueView::Text("Mock GPU"@)),
            ("uuid"@, ValueView::Text("GPU-00000000-0000-0000-0000-000000000000"@)),
        ]);
    }
    let mut devices: Vec<Value> = Vec::new();
    assert(views_of(devices@) =~= Seq::<ValueView>::empty());
    push_item(&mut devices, value);
    assert(views_of(devices@) =~= seq![sample_device()]);
    Ok(Value::List(devices))
}

/// What a reading of a device gives for `args`: `reading`, once the first
/// argument names a device by an integer. `missing` is the message for a
/// call without one.
pub open spec fn device_reading(
    args: Seq<ValueView>,
    missing: Seq<char>,
    reading: ValueView,
) -> HostOutcome {
    match int_arg(args, 0) {
        None => Err((HostErrorKind::HostFunction, missing)),
        Some(_) => Ok(reading),
    }
}

fn number(bits: u64, text: &str) -> (r: Value)
    ensures
        r@ == ValueView::Float(bits, text@),
{
    Value::Float(Float { bits, text: copy_str(text) })
}

/// `gpu.utilization`: the utilization of the device in per cent, 42.5.
pub fn utilization(args: &[Value]) -> (r: Result<Value, HostError>)
    ensures
        outcome(r) == device_reading(
            views_of(args@),
            "gpu.utilization: missing device_id argument"@,
            ValueView::Float(0x4045_4000_0000_0000, "42.5"@),
        ),
{
    match arg_int(args, 0) {
        Some(_) => Ok(number(0x4045_4000_0000_0000, "42.5")),
        None => Err(HostError::host_function("gpu.utilization: missing device_id argument")),
    }
}

/// The sample memory of a device: sixteen gibibytes, half of them used.
pub open spec fn sample_memory() -> ValueView {
    ValueView::Dict(
        seq![
            ("total"@, ValueView::Int(17179869184)),
            ("used"@, ValueView::Int(8589934592)),
            ("free"@, ValueView::Int(8589934592)),
        ],
    )
}

/// `gpu.memory_info`: the memory of the device in bytes.
pub fn memory_info(args: &[Value]) -> (r: Result<Value, HostError>)
    ensures
        outcome(r) == device_reading(
            views_of(args@),
            "gpu.memory_info: missing device_id argument"@,
            sample_memory(),
        ),
{
    match arg_int(args, 0) {
        Some(_) => {},
        None => {
            return Err(HostError::host_function("gpu.memory_info: missing device_id argument"));
        },
    }
    let total: i64 = 17179869184;
    let used: i64 = 8589934592;
    let free: i64 = total - used;
    let mut info: Vec<(String, Value)> = Vec::new();
    assert(entry_views(info@) =~= Seq::<(Seq<char>, ValueView)>::empty());
    push_entry(&mut info, "total", Value::Int(total));
    push_entry(&mut info, "used", Value::Int(used));
    push_entry(&mut info, "free", Value::Int(free));
    assert(entry_views(info@) =~= seq![
        ("total"@, ValueView::Int(17179869184)),
        ("used"@, ValueView::Int(8589934592)),
        ("free"@, ValueView::Int(8589934592)),
    ]);
    Ok(Value::Dict(info))
}

/// `gpu.temperature`: the temperature of the device in degrees Celsius,
/// 65.
pub fn temperature(args: &[Value]) -> (r: Result<Value, HostError>)
    ensures
        outcome(r) == device_reading(
            views_of(args@),
            "gpu.temperature: missing device_id argument"@,
            ValueView::Float(0x4050_4000_0000_0000, "65"@),
        ),
{
    match arg_int(args, 0) {
        Some(_) => Ok(number(0x4050_4000_0000_0000, "65")),
        None => Err(HostError::host_function("gpu.temperature: missing device_id argument")),
    }
}

/// `gpu.power_usage`: the power that the device draws in watts, 250.
pub fn power_usage(args: &[Value]) -> (r: Result<Value, HostError>)
    ensures
        outcome(r) == device_reading(
            views_of(args@),
            "gpu.power_usage: missing device_id argument"@,
            ValueView::Float(0x406F_4000_0000_0000, "250"@),
        ),
{
    match arg_int(args, 0) {
        Some(_) => Ok(number(0x406F_4000_0000_0000, "250")),
        None => Err(HostError::host_function("gpu.power_usage: missing device_id argument")),
    }
}

/// The sample clock speeds of a device in megahertz.
pub open spec fn sample_clocks() -> ValueView {
    ValueView::Dict(
        seq![
            ("graphics"@, ValueView::Int(1500)),
            ("memory"@, ValueView::Int(7000)),
            ("sm"@, ValueView::Int(1500)),
        ],
    )
}

/// `gpu.clock_speeds`: the clock speeds of the device in megahertz.
pub fn clock_speeds(args: &[Value]) -> (r: Result<Value, HostError>)
    ensures
        outcome(r) == device_reading(
            views_of(args@),
            "gpu.clock_speeds: missing device_id argument"@,
            sample_clocks(),
        ),
{
    match arg_int(args, 0) {
        Some(_) => {},
        None => {
            return Err(HostError::host_function("gpu.clock_speeds: missing device_id argument"));
        },
    }
    let mut clocks: Vec<(String, Value)> = Vec::new();
    assert(entry_views(clocks@) =~= Seq::<(Seq<char>, ValueView)>::empty());
    push_entry(&mut clocks, "graphics", Value::Int(1500));
    push_entry(&mut clocks, "memory", Value::Int(7000));
    push_entry(&mut clocks, "sm", Value::Int(1500));
    assert(entry_views(clocks@) =~= seq![
        ("graphics"@, ValueView::Int(1500)),
        ("memory"@, ValueView::Int(7000)),
        ("sm"@, ValueView::Int(1500)),
    ]);
    Ok(Value::Dict(clocks))
}

} // verus!
