use crate::error::UpdateError;
use vstd::prelude::*;

verus! {

/// Where the updater binary is downloaded from.
pub const UPDATER_URL: &'static str = "http://tournamentassistant.net/downloads/TAUpdater.exe";

/// The file, relative to the working directory, the updater is written to.
pub const UPDATER_PATH: &'static str = "TAUpdater.exe";

/// The argument that tells the updater who started it; the caller's own
/// executable path follows it.
pub const UPDATER_FLAG: &'static str = "-taui";

/// Where the self-update stands.
#[derive(Clone, Copy, Debug, PartialEq, Eq, Structural)]
pub enum UpdateState {
    Idle,
    Downloading,
    Writing,
    Launching,
    /// The updater runs and this process ends; nothing follows.
    Terminated,
    /// The update stopped and this process goes on.
    Failed(UpdateError),
}

/// What the caller observed while carrying out the last action.
#[derive(Clone, Copy, Debug, PartialEq, Eq, Structural)]
pub enum UpdateEvent {
    /// The update is asked for.
    Start,
    /// The whole response body arrived, with this HTTP status.
    Downloaded { status: u16 },
    /// The request or the body transfer failed.
    DownloadFailed,
    /// The body was written to the target file and the file closed.
    Written,
    WriteFailed,
    /// The updater process was started.
    Spawned,
    SpawnFailed,
}

/// What the caller does next.
#[derive(Clone, Copy, Debug, PartialEq, Eq, Structural)]
pub enum UpdateAction {
    /// Request the updater from the configured URL.
    Download,
    /// Create or overwrite the target file with the downloaded bytes.
    Write,
    /// Start the target file with `launch_arguments`.
    Launch,
    /// End this process.
    Exit,
    /// Stop and hand this error to the caller; the process goes on.
    Report(UpdateError),
    /// The event does not apply in this state: do nothing.
    Ignore,
}

/// An HTTP status in the 2xx range.
pub open spec fn is_success_status(status: u16) -> bool {
    200 <= status < 300
}

/// The next state and the action to take, from `state` on `event`.
pub open spec fn update_transition(state: UpdateState, event: UpdateEvent) -> (
    UpdateState,
    UpdateAction,
) {
    match (state, event) {
        (UpdateState::Idle, UpdateEvent::Start) => (UpdateState::Downloading, UpdateAction::Download),
        (UpdateState::Downloading, UpdateEvent::Downloaded { status }) => {
            if is_success_status(status) {
                (UpdateState::Writing, UpdateAction::Write)
            } else {
                (
                    UpdateState::Failed(UpdateError::DownloadError),
                    UpdateAction::Report(UpdateError::DownloadError),
                )
            }
        },
        (UpdateState::Downloading, UpdateEvent::DownloadFailed) => (
            UpdateState::Failed(UpdateError::DownloadError),
            UpdateAction::Report(UpdateError::DownloadError),
        ),
        (UpdateState::Writing, UpdateEvent::Written) => (UpdateState::Launching, UpdateAction::Launch),
        (UpdateState::Writing, UpdateEvent::WriteFailed) => (
            UpdateState::Failed(UpdateError::WriteError),
            UpdateAction::Report(UpdateError::WriteError),
        ),
        (UpdateState::Launching, UpdateEvent::Spawned) => (UpdateState::Terminated, UpdateAction::Exit),
        (UpdateState::Launching, UpdateEvent::SpawnFailed) => (
            UpdateState::Failed(UpdateError::LaunchError),
            UpdateAction::Report(UpdateError::LaunchError),
        ),
        _ => (state, UpdateAction::Ignore),
    }
}

/// Takes one step of the self-update. Download, write and launch happen in
/// that order, each only after the one before succeeded; the process is told
/// to end only once the updater has been started.
pub fn update_step(state: UpdateState, event: UpdateEvent) -> (r: (UpdateState, UpdateAction))
    ensures
        r == update_transition(state, event),
{
    match (state, event) {
        (UpdateState::Idle, UpdateEvent::Start) => (UpdateState::Downloading, UpdateAction::Download),
        (UpdateState::Downloading, UpdateEvent::Downloaded { status }) => {
            if 200 <= status && status < 300 {
                (UpdateState::Writing, UpdateAction::Write)
            } else {
                (
                    UpdateState::Failed(UpdateError::DownloadError),
                    UpdateAction::Report(UpdateError::DownloadError),
                )
            }
        },
        (UpdateState::Downloading, UpdateEvent::DownloadFailed) => (
            UpdateState::Failed(UpdateError::DownloadError),
            UpdateAction::Report(UpdateError::DownloadError),
        ),
        (UpdateState::Writing, UpdateEvent::Written) => (UpdateState::Launching, UpdateAction::Launch),
        (UpdateState::Writing, UpdateEvent::WriteFailed) => (
            UpdateState::Failed(UpdateError::WriteError),
            UpdateAction::Report(UpdateError::WriteError),
        ),
        (UpdateState::Launching, UpdateEvent::Spawned) => (UpdateState::Terminated, UpdateAction::Exit),
        (UpdateState::Launching, UpdateEvent::SpawnFailed) => (
            UpdateState::Failed(UpdateError::LaunchError),
            UpdateAction::Report(UpdateError::LaunchError),
        ),
        _ => (state, UpdateAction::Ignore),
    }
}

/// The state reached from `state` over `events`, and the actions taken on
/// the way, in order.
pub open spec fn run_update(state: UpdateState, events: Seq<UpdateEvent>) -> (
    UpdateState,
    Seq<UpdateAction>,
)
    decreases events.len(),
{
    if events.len() == 0 {
        (state, Seq::empty())
    } else {
        let (next, action) = update_transition(state, events[0]);
        let rest = run_update(next, events.drop_first());
        (rest.0, seq![action] + rest.1)
    }
}

/// Only a started updater ends the process: the step asks to exit, and
/// reaches `Terminated` from another state, exactly when the updater was
/// being launched and its start is confirmed.
pub proof fn lemma_only_spawn_terminates(state: UpdateState, event: UpdateEvent)
    ensures
        (update_transition(state, event).1 == UpdateAction::Exit) <==> (state
            == UpdateState::Launching && event == UpdateEvent::Spawned),
        state != UpdateState::Terminated ==> ((update_transition(state, event).0
            == UpdateState::Terminated) <==> (state == UpdateState::Launching && event
            == UpdateEvent::Spawned)),
{
}

/// The file is written only once a complete download answered with a 2xx
/// status, and the updater is started only once the file was written: a
/// failed download writes nothing, and a failed write starts nothing.
pub proof fn lemma_write_and_launch_in_order(state: UpdateState, event: UpdateEvent)
    ensures
        (update_transition(state, event).1 == UpdateAction::Write) <==> (state
            == UpdateState::Downloading && event is Downloaded && is_success_status(
            event->status,
        )),
        (update_transition(state, event).1 == UpdateAction::Launch) <==> (state
            == UpdateState::Writing && event == UpdateEvent::Written),
{
}

/// Once the update failed, at the download, the write or the launch, no
/// later event writes a file, starts a process or ends this one: the failure
/// is kept and every further event is ignored.
pub proof fn lemma_failure_is_final(err: UpdateError, events: Seq<UpdateEvent>)
    ensures
        run_update(UpdateState::Failed(err), events).0 == UpdateState::Failed(err),
        forall|i: int|
            0 <= i < events.len() ==> #[trigger] run_update(UpdateState::Failed(err), events).1[i]
                == UpdateAction::Ignore,
        run_update(UpdateState::Failed(err), events).1.len() == events.len(),
    decreases events.len(),
{
    if events.len() > 0 {
        lemma_failure_is_final(err, events.drop_first());
        let rest = run_update(UpdateState::Failed(err), events.drop_first());
        assert forall|i: int| 0 <= i < events.len() implies #[trigger] run_update(
            UpdateState::Failed(err),
            events,
        ).1[i] == UpdateAction::Ignore by {
            if i > 0 {
                assert(rest.1[i - 1] == UpdateAction::Ignore);
            }
        }
    }
}

/// The arguments the updater is started with: the marker flag, then the
/// path of the executable being replaced.
pub fn launch_arguments(current_exe: &str) -> (r: Vec<String>)
    ensures
        r@.len() == 2,
        r@[0]@ == UPDATER_FLAG@,
        r@[1]@ == current_exe@,
{
    let mut args: Vec<String> = Vec::new();
    args.push(String::from_str(UPDATER_FLAG));
    args.push(String::from_str(current_exe));
    args
}

} // verus!
