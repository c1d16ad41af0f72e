use vstd::prelude::*;

verus! {

/// Why a capture request failed. Each kind is kept as it is on its way to
/// the caller.
#[derive(Clone, Copy, Debug, PartialEq, Eq, Structural)]
pub enum CaptureError {
    /// The windowing layer could not be queried, or reported a display whose
    /// size does not fit the descriptor.
    EnumerationError,
    /// No display carries the requested name.
    MonitorNotFound,
    /// The capture layer has no device at the resolved position, or it
    /// disagrees with the windowing layer on the number of displays.
    DeviceNotFound,
    /// A capture session could not be opened on the device.
    SessionOpenError,
    /// The device failed while a frame was awaited.
    CaptureIOError,
    /// The frame buffer is not whole pixels, or is too short for its size.
    MalformedFrame,
}

/// Why a self-update stopped before the process handed over.
#[derive(Clone, Copy, Debug, PartialEq, Eq, Structural)]
pub enum UpdateError {
    /// The transport failed, or the server answered with a status outside 2xx.
    DownloadError,
    /// The downloaded binary could not be written to disk.
    WriteError,
    /// The written binary could not be started.
    LaunchError,
    /// The downloaded binary could not be removed.
    DeleteError,
}

} // verus!
