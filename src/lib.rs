//! Screen capture core: display enumeration and lookup, the frame poll
//! protocol, BGRA to RGBA conversion, and the self-update state machine.
//!
//! Everything here works on plain values. The windowing layer, the capture
//! device, the network and the file system are driven by the caller, who hands
//! their results to these functions and performs the actions they return.

mod capture;
mod error;
mod monitor;
mod pixels;
mod poll;
mod update;

pub use capture::{device_addressable, plan_capture, select_device};
pub use error::{CaptureError, UpdateError};
pub use monitor::{
    describe_monitors, describes, descriptor_name, fits_descriptor, is_first_named,
    lemma_resolved_index_in_range, names_absent, resolve_monitor, Monitor, RawMonitor,
    UNNAMED_MONITOR,
};
pub use pixels::{
    bgra_to_rgba, converted_pixel, lemma_short_frame_is_malformed,
    lemma_unpadded_frame_permutes_groups, packed_rgba, row_stride, well_formed_frame,
};
pub use poll::{
    decide_poll, lemma_poll_waits_then_delivers, poll_action_of, ready_after, run_polls,
    FrameStatus, PollAction, POLL_INTERVAL_MS,
};
pub use update::{
    is_success_status, launch_arguments, lemma_failure_is_final, lemma_only_spawn_terminates,
    lemma_write_and_launch_in_order, run_update, update_step, update_transition, UpdateAction,
    UpdateEvent, UpdateState, UPDATER_FLAG, UPDATER_PATH, UPDATER_URL,
};
