//! The downloads in the list: what is known of each file, where it lies on disk,
//! and what each one needs from the frame loop.

use vstd::prelude::*;
use vstd::string::*;
use crate::download::Actions;
use crate::url::Url;

verus! {

/// What is known of a file being downloaded, as seen at one moment.
pub struct DlFile {
    pub url: Url,
    pub name_on_disk: String,
    pub dl_dir: String,
    pub size_on_disk: usize,
    pub running: bool,
    pub complete: bool,
    pub bytes_per_sec: usize,
    pub speed: usize,
}

/// A download in the list, with the flags that the interface keeps for it.
pub struct FDl {
    pub file: DlFile,
    pub new: bool,
    pub initiated: bool,
    pub selected: bool,
    pub action_on_save: Actions,
    pub has_error: bool,
    pub got_notif: bool,
    pub initial_status: bool,
}

impl FDl {
    /// A download found on disk when the program starts: not new, not yet started,
    /// not selected, with nothing to do on save.
    pub fn loaded(file: DlFile) -> (r: FDl)
        ensures
            r.file == file,
            !r.new && !r.initiated && !r.selected && !r.has_error && !r.got_notif,
            r.initial_status == file.complete,
            r.action_on_save == Actions::Nothing,
    {
        let complete = file.complete;
        FDl {
            file,
            new: false,
            initiated: false,
            selected: false,
            action_on_save: Actions::Nothing,
            has_error: false,
            got_notif: false,
            initial_status: complete,
        }
    }

    /// A download just added by the user: new, not yet started, not selected.
    pub fn added(file: DlFile, action_on_save: Actions) -> (r: FDl)
        ensures
            r.file == file,
            r.new && !r.initiated && !r.selected && !r.has_error && !r.got_notif,
            r.initial_status == file.complete,
            r.action_on_save == action_on_save,
    {
        let complete = file.complete;
        FDl {
            file,
            new: true,
            initiated: false,
            selected: false,
            action_on_save,
            has_error: false,
            got_notif: false,
            initial_status: complete,
        }
    }
}

/// What one frame asks for one download.
pub struct RunStep {
    /// Show a desktop notification that the download finished.
    pub notify: bool,
    /// Start the download task.
    pub start: bool,
    /// Restart the clock that measures how long the download has made no progress.
    pub reset_clock: bool,
}

/// Whether a download that finished in this session still owes its notice.
pub open spec fn owes_notice(f: FDl) -> bool {
    f.file.complete && !f.initial_status && !f.got_notif
}

/// The frame's work for a download `f` and what it leaves of `f`: see `plan_run`.
pub open spec fn spec_plan(f: FDl, show_window: bool, stalled: bool) -> (FDl, RunStep) {
    let start = !(f.file.complete || f.initiated);
    (
        FDl {
            got_notif: f.got_notif || owes_notice(f),
            initiated: f.initiated || start,
            has_error: if start {
                f.file.running && f.file.bytes_per_sec == 0 && stalled
            } else {
                f.has_error
            },
            ..f
        },
        RunStep {
            notify: owes_notice(f) && !show_window,
            start,
            reset_clock: start && !f.file.running,
        },
    )
}

/// A download is started and announced at most once: once planned, later frames
/// neither start it again nor announce it again.
pub proof fn law_plan_once(f: FDl, w1: bool, s1: bool, w2: bool, s2: bool)
    ensures
        !spec_plan(spec_plan(f, w1, s1).0, w2, s2).1.start,
        !spec_plan(spec_plan(f, w1, s1).0, w2, s2).1.notify,
        spec_plan(spec_plan(f, w1, s1).0, w2, s2).0 == spec_plan(f, w1, s1).0,
{
}

/// A download that finished in this session and has not been announced is announced at
/// the next frame, whatever else holds of it (new or resumed from disk, started or not):
/// by a notification exactly when the window is hidden. Nothing else is announced, and
/// once announced it is marked so.
pub proof fn law_notice(f: FDl, show_window: bool, stalled: bool)
    ensures
        spec_plan(f, show_window, stalled).1.notify <==> (f.file.complete && !f.initial_status
            && !f.got_notif && !show_window),
        spec_plan(f, show_window, stalled).0.got_notif <==> (f.got_notif || (f.file.complete
            && !f.initial_status)),
{
}

impl FDl {
    /// The frame's work for this download. A download that finished in this session
    /// and has not been announced is announced (by a desktop notification when the
    /// window is hidden). A download that is neither complete nor started gets its
    /// error flag (running with no progress for `stalled` long enough), and is started.
    pub fn plan_run(&mut self, show_window: bool, stalled: bool) -> (r: RunStep)
        ensures
            final(self).file == old(self).file,
            final(self).new == old(self).new,
            final(self).selected == old(self).selected,
            final(self).action_on_save == old(self).action_on_save,
            final(self).initial_status == old(self).initial_status,
            final(self).got_notif == (old(self).got_notif || owes_notice(*old(self))),
            r.notify == (owes_notice(*old(self)) && !show_window),
            r.notify == (old(self).file.complete && !old(self).initial_status && !old(self).got_notif
                && !show_window),
            r.start == !(old(self).file.complete || old(self).initiated),
            r.start ==> final(self).initiated && final(self).has_error == (old(self).file.running
                && old(self).file.bytes_per_sec == 0 && stalled) && r.reset_clock == !old(self).file.running,
            !r.start ==> final(self).initiated == old(self).initiated && final(self).has_error
                == old(self).has_error && !r.reset_clock,
            (*final(self), r) == spec_plan(*old(self), show_window, stalled),
    {
        let complete = self.file.complete;
        let mut notify = false;
        if complete && !self.initial_status && !self.got_notif {
            if !show_window {
                notify = true;
            }
            self.got_notif = true;
        }
        if complete || self.initiated {
            return RunStep { notify, start: false, reset_clock: false };
        }
        let is_running = self.file.running;
        let speed = self.file.bytes_per_sec;
        let mut reset_clock = false;
        self.has_error = if is_running {
            speed == 0 && stalled
        } else {
            reset_clock = true;
            false
        };
        self.initiated = true;
        RunStep { notify, start: true, reset_clock }
    }
}

/// How the download task of a file goes about its attempts.
#[derive(Debug, Clone, Copy, PartialEq, Eq, Structural)]
pub enum AttemptPolicy {
    /// Retry after each failure until an attempt succeeds (the server serves ranges).
    UntilSuccess,
    /// A single attempt (a new download that cannot be resumed).
    Once,
    /// No attempt (an old download that cannot be resumed).
    Never,
}

/// The policy for a file: retried when ranges are served, tried once when new.
pub fn attempt_policy(range_support: bool, new: bool) -> (p: AttemptPolicy)
    ensures
        range_support ==> p == AttemptPolicy::UntilSuccess,
        !range_support && new ==> p == AttemptPolicy::Once,
        !range_support && !new ==> p == AttemptPolicy::Never,
{
    if range_support {
        AttemptPolicy::UntilSuccess
    } else if new {
        AttemptPolicy::Once
    } else {
        AttemptPolicy::Never
    }
}

/// Whether another attempt follows one that `succeeded` or not.
pub fn retry_after(policy: AttemptPolicy, succeeded: bool) -> (r: bool)
    ensures
        r == (policy == AttemptPolicy::UntilSuccess && !succeeded),
{
    policy == AttemptPolicy::UntilSuccess && !succeeded
}

/// Where a download task starts writing: after what is already on disk when the
/// server serves ranges, from the start otherwise.
pub fn resume_offset(range_support: bool, size_on_disk: usize) -> (r: usize)
    ensures
        r == if range_support { size_on_disk } else { 0 },
{
    if range_support {
        size_on_disk
    } else {
        0
    }
}

/// What hovering over the play/pause button of a download shows.
#[derive(Debug, Clone, Copy, PartialEq, Eq, Structural)]
pub enum HoverHint {
    /// Nothing: the download is complete.
    Plain,
    /// A pointing hand: a click toggles the download.
    Pointer,
    /// The tip that the file cannot be resumed.
    NoResume,
}

/// How the play/pause button of a download behaves.
pub struct PlayButton {
    /// Whether the button is highlighted and a click toggles the download.
    pub active: bool,
    pub hint: HoverHint,
}

/// The play/pause button of a download: it acts while the download is incomplete and
/// either resumable or new.
pub fn play_button(range_support: bool, new: bool, complete: bool) -> (b: PlayButton)
    ensures
        b.active == (!complete && (range_support || new)),
        complete ==> b.hint == HoverHint::Plain,
        !complete && (range_support || new) ==> b.hint == HoverHint::Pointer,
        !complete && !range_support && !new ==> b.hint == HoverHint::NoResume,
{
    let active = !complete && (range_support || new);
    let hint = if complete {
        HoverHint::Plain
    } else if range_support || new {
        HoverHint::Pointer
    } else {
        HoverHint::NoResume
    };
    PlayButton { active, hint }
}

/// What completing a download sets off.
#[derive(Debug, Clone, Copy, PartialEq, Eq, Structural)]
pub enum SaveEffect {
    Nothing,
    OpenFile,
    Reboot,
    Shutdown,
}

/// The effect of the action chosen for a download: none until it is complete.
pub fn on_save_effect(action: Actions, complete: bool) -> (e: SaveEffect)
    ensures
        !complete ==> e == SaveEffect::Nothing,
        complete ==> e == match action {
            Actions::Nothing => SaveEffect::Nothing,
            Actions::Open => SaveEffect::OpenFile,
            Actions::Reboot => SaveEffect::Reboot,
            Actions::Shutdown => SaveEffect::Shutdown,
        },
{
    if !complete {
        return SaveEffect::Nothing;
    }
    match action {
        Actions::Nothing => SaveEffect::Nothing,
        Actions::Open => SaveEffect::OpenFile,
        Actions::Reboot => SaveEffect::Reboot,
        Actions::Shutdown => SaveEffect::Shutdown,
    }
}

/// Where a file lies: `dir/name`.
pub fn file_path(dir: &str, name: &str) -> (p: String)
    ensures
        p@ == dir@ + "/"@ + name@,
{
    dir.to_owned().concat("/").concat(name)
}

/// The name of the metadata file kept beside a download: `.name.metadl`.
pub fn metadata_file_name(name: &str) -> (p: String)
    ensures
        p@ == "."@ + name@ + ".metadl"@,
{
    String::from_str(".").concat(name).concat(".metadl")
}

/// Where the metadata file of a download lies: `dir/.name.metadl`.
pub fn metadata_path(dir: &str, name: &str) -> (p: String)
    ensures
        p@ == dir@ + "/"@ + "."@ + name@ + ".metadl"@,
{
    let m = metadata_file_name(name);
    dir.to_owned().concat("/").concat(m.as_str())
}

} // verus!
