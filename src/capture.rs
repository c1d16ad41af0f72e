use crate::error::CaptureError;
use crate::monitor::{is_first_named, names_absent, resolve_monitor, Monitor};
use vstd::prelude::*;

verus! {

/// The windowing layer and the capture layer agree on the number of
/// displays, and `index` is a position in the capture layer's list.
///
/// Names exist only in the windowing layer and positions only in the capture
/// layer, so the two lists are joined by position alone; a count mismatch
/// means that join cannot be trusted.
pub open spec fn device_addressable(window_count: nat, device_count: nat, index: nat) -> bool {
    window_count == device_count && index < device_count
}

/// Checks that position `index`, found among `window_count` displays of the
/// windowing layer, names one of the `device_count` capture devices.
pub fn select_device(window_count: usize, device_count: usize, index: usize) -> (r: Result<
    usize,
    CaptureError,
>)
    ensures
        r is Err <==> !device_addressable(window_count as nat, device_count as nat, index as nat),
        r matches Err(e) ==> e == CaptureError::DeviceNotFound,
        r matches Ok(i) ==> i == index,
{
    if window_count != device_count || index >= device_count {
        Err(CaptureError::DeviceNotFound)
    } else {
        Ok(index)
    }
}

/// Finds the capture device for the display named `name`: its position among
/// `monitors`, checked against the `device_count` devices of the capture
/// layer. An unknown name is `MonitorNotFound`; a position the capture layer
/// cannot address is `DeviceNotFound`.
pub fn plan_capture(monitors: &Vec<Monitor>, name: &str, device_count: usize) -> (r: Result<
    usize,
    CaptureError,
>)
    ensures
        names_absent(monitors@, name@) ==> r == Err::<usize, CaptureError>(
            CaptureError::MonitorNotFound,
        ),
        !names_absent(monitors@, name@) ==> {
            &&& monitors@.len() == device_count ==> r is Ok
            &&& monitors@.len() != device_count ==> r == Err::<usize, CaptureError>(
                CaptureError::DeviceNotFound,
            )
        },
        r matches Ok(i) ==> is_first_named(monitors@, name@, i as int) && i < device_count,
{
    let index = match resolve_monitor(monitors, name) {
        Ok(i) => i,
        Err(e) => {
            return Err(e);
        },
    };
    select_device(monitors.len(), device_count, index)
}

} // verus!
