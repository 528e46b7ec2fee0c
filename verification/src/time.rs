use crate::status::{check_concern, Status};
use vstd::prelude::*;

verus! {

/// Fetches the realtime clock, through `get_current_time`: the
/// nanoseconds since the start of 1970, or nothing where the host
/// refuses.
pub fn now<F: FnOnce() -> Result<u64, Status>>(get_current_time: F) -> (r: Option<u64>)
    requires
        call_requires(get_current_time, ()),
    ensures
        exists|answer: Result<u64, Status>|
            #[trigger] call_ensures(get_current_time, (), answer) && r == match answer {
                Ok(nanos) => Some(nanos),
                Err(_) => None,
            },
{
    check_concern(get_current_time())
}

/// The tick period that the host is asked for where the plugin wants one
/// of `period_millis` milliseconds: the low 32 bits of the number.
pub open spec fn tick_millis(period_millis: u128) -> u32 {
    (period_millis % 0x1_0000_0000) as u32
}

/// Set tick period, in milliseconds, through `set_tick_period_millis`,
/// which gets the low 32 bits of the number. Zero disables the ticker.
/// The answer of the host is handed back.
pub fn set_tick_period<F: FnOnce(u32) -> Result<(), Status>>(
    period_millis: u128,
    set_tick_period_millis: F,
) -> (r: Result<(), Status>)
    requires
        call_requires(set_tick_period_millis, (tick_millis(period_millis),)),
    ensures
        call_ensures(set_tick_period_millis, (tick_millis(period_millis),), r),
{
    let low: u128 = period_millis % 0x1_0000_0000;
    set_tick_period_millis(low as u32)
}

} // verus!
