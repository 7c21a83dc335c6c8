//! The state of the download manager that the interface drives, and the changes
//! that each user action, message or frame makes to it.

use vstd::prelude::*;
use vstd::string::*;
use crate::download::{sum, Actions, Bandwidth, ConsumingIterator};
use crate::explorer::Explorer;
use crate::files::{spec_plan, DlFile, FDl, RunStep};
use crate::popups::{
    confirm_prompt, confirm_text, confirm_tone, log_view, ConfirmPopUp, ConfirmTask, DownloadPopUp,
    EditSpeedPopUp, ErrorPopUp, LogEntry, LogPopUp, PLotPopUp, PopUps, SettingsPopUp, Tone,
};
use crate::settings::Settings;
use crate::status::Connection;
use crate::tray::Message;

verus! {

/// The "select all" box of the table, and its value when last looked at.
pub struct SelectState {
    pub select_all: bool,
    pub initial_state: bool,
}

/// Which downloads a removal takes out of the list.
#[derive(Debug, Clone, Copy, PartialEq, Eq, Structural)]
pub enum Removal {
    Selected,
    Complete,
}

/// Whether `f` is one that removal `w` takes out.
pub open spec fn removed_by(f: FDl, w: Removal) -> bool {
    match w {
        Removal::Selected => f.selected,
        Removal::Complete => f.file.complete,
    }
}

/// What is left of `s` once removal `w` is done: the others, in their order.
pub open spec fn kept(s: Seq<FDl>, w: Removal) -> Seq<FDl>
    decreases s.len(),
{
    if s.len() == 0 {
        s
    } else if removed_by(s[0], w) {
        kept(s.drop_first(), w)
    } else {
        seq![s[0]] + kept(s.drop_first(), w)
    }
}

/// What the list keeps after a removal: exactly the downloads that the removal does not
/// take, each once and in their order.
pub proof fn law_kept(s: Seq<FDl>, w: Removal)
    ensures
        forall|i: int| 0 <= i < kept(s, w).len() ==> !removed_by(#[trigger] kept(s, w)[i], w),
        forall|f: FDl| s.contains(f) && !removed_by(f, w) ==> #[trigger] kept(s, w).contains(f),
        forall|f: FDl| #[trigger] kept(s, w).contains(f) ==> s.contains(f),
        kept(s, w).len() <= s.len(),
    decreases s.len(),
{
    if s.len() > 0 {
        let t = s.drop_first();
        law_kept(t, w);
        let kt = kept(t, w);
        let ks = kept(s, w);
        if removed_by(s[0], w) {
            assert(ks == kt);
        } else {
            assert(ks == seq![s[0]] + kt);
        }
        assert forall|i: int| 0 <= i < ks.len() implies !removed_by(#[trigger] ks[i], w) by {
            if !removed_by(s[0], w) && i > 0 {
                assert(ks[i] == kt[i - 1]);
            }
        }
        assert forall|f: FDl| s.contains(f) && !removed_by(f, w) implies #[trigger] ks.contains(f) by {
            let i = choose|i: int| 0 <= i < s.len() && s[i] == f;
            if i > 0 {
                assert(t[i - 1] == f);
                assert(t.contains(f));
                assert(kt.contains(f));
                let j = choose|j: int| 0 <= j < kt.len() && kt[j] == f;
                if !removed_by(s[0], w) {
                    assert(ks[j + 1] == f);
                } else {
                    assert(ks[j] == f);
                }
            } else {
                assert(ks[0] == f);
            }
        }
        assert forall|f: FDl| #[trigger] ks.contains(f) implies s.contains(f) by {
            let j = choose|j: int| 0 <= j < ks.len() && ks[j] == f;
            if removed_by(s[0], w) || j > 0 {
                let jj = if removed_by(s[0], w) { j } else { j - 1 };
                assert(kt[jj] == f);
                assert(kt.contains(f));
                let k = choose|k: int| 0 <= k < t.len() && t[k] == f;
                assert(s[k + 1] == f);
            } else {
                assert(s[0] == f);
            }
        }
    }
}

/// Takes out of `files` the downloads that removal `w` takes.
fn remove_where(files: &mut Vec<FDl>, w: Removal)
    ensures
        final(files)@ == kept(old(files)@, w),
{
    let mut rest: Vec<FDl> = Vec::new();
    std::mem::swap(&mut rest, files);
    let ghost orig = rest@;
    assert(files@ + kept(rest@, w) =~= kept(orig, w));
    while rest.len() > 0
        invariant
            kept(orig, w) == files@ + kept(rest@, w),
        decreases rest@.len(),
    {
        let ghost before = rest@;
        let f = rest.remove(0);
        assert(rest@ =~= before.drop_first());
        let gone = match w {
            Removal::Selected => f.selected,
            Removal::Complete => f.file.complete,
        };
        if !gone {
            files.push(f);
            assert(files@ + kept(rest@, w) =~= kept(orig, w));
        }
    }
    assert(files@ =~= files@ + kept(rest@, w));
}

/// The log after a line `(time, text, tone)` is added.
pub open spec fn logged(
    logs: Seq<LogEntry>,
    time: Seq<char>,
    text: Seq<char>,
    tone: Tone,
) -> Seq<(Seq<char>, Seq<char>, Tone)> {
    log_view(logs).push((time, text, tone))
}

/// The state of the download manager.
pub struct AppState {
    pub files: Vec<FDl>,
    pub popups: PopUps,
    pub temp_action: Actions,
    pub search: String,
    pub connection: Connection,
    pub bandwidth: Bandwidth,
    pub tray_message: Message,
    pub show_window: bool,
    pub explorer: Explorer,
    pub select: SelectState,
    pub settings: Settings,
}

impl AppState {
    /// The state at start-up, with the downloads found on disk.
    pub fn new(files: Vec<FDl>, settings: Settings) -> (r: AppState)
        ensures
            r.files@ == files@,
            r.settings == settings,
            r.show_window,
            r.popups.is_initial(),
            r.temp_action == Actions::Nothing,
            r.search@ == Seq::<char>::empty(),
            !r.connection.connected,
            r.bandwidth.total_bandwidth == 0,
            r.bandwidth.history@.len() == 0,
            r.tray_message == Message::Nothing,
            !r.select.select_all && !r.select.initial_state,
            forall|c: crate::explorer::Category| #[trigger] r.explorer.chosen(c) == (c == crate::explorer::Category::All),
            r.explorer.current@.len() == 0,
    {
        AppState {
            files,
            popups: PopUps::default(),
            temp_action: Actions::Nothing,
            search: String::new(),
            connection: Connection::default(),
            bandwidth: Bandwidth::default(),
            tray_message: Message::Nothing,
            show_window: true,
            explorer: Explorer::default(),
            select: SelectState { select_all: false, initial_state: false },
            settings,
        }
    }

    /// Adds a line to the log.
    pub fn log(&mut self, time: String, text: String, tone: Tone)
        ensures
            log_view(final(self).popups.log.logs@) == logged(old(self).popups.log.logs@, time@, text@, tone),
            *final(self) == (AppState {
                popups: PopUps {
                    log: LogPopUp { logs: final(self).popups.log.logs, ..old(self).popups.log },
                    ..old(self).popups
                },
                ..*old(self)
            }),
    {
        self.popups.log.logs.push(LogEntry { time, text, tone });
        assert(log_view(self.popups.log.logs@) =~= logged(old(self).popups.log.logs@, time@, text@, tone));
    }

    /// Logs a failure in red and shows it in the error window.
    pub fn report_failure(&mut self, time: String, text: String)
        ensures
            log_view(final(self).popups.log.logs@) == logged(old(self).popups.log.logs@, time@, text@, Tone::Red),
            final(self).popups.error.value@ == text@,
            *final(self) == (AppState {
                popups: PopUps {
                    log: LogPopUp { logs: final(self).popups.log.logs, ..old(self).popups.log },
                    error: ErrorPopUp { value: final(self).popups.error.value, show: true },
                    ..old(self).popups
                },
                ..*old(self)
            }),
    {
        let shown = text.clone();
        self.log(time, text, Tone::Red);
        self.popups.error.value = shown;
        self.popups.error.show = true;
    }

    /// Takes the first link that the browser extension sent, when the download window
    /// is free: the link goes into the download window, which opens with the main
    /// window, and the reception is logged. Otherwise nothing changes.
    pub fn check_urls(&mut self, links: &mut Vec<String>, time: String)
        ensures
            old(self).popups.download.show || old(links)@.len() == 0 ==> final(links)@ == old(links)@
                && *final(self) == *old(self),
            !old(self).popups.download.show && old(links)@.len() > 0 ==> final(links)@ == old(links)@.drop_first()
                && final(self).popups.download.link@ == old(links)@[0]@
                && log_view(final(self).popups.log.logs@) == logged(
                    old(self).popups.log.logs@,
                    time@,
                    "Received link from server:"@ + old(links)@[0]@,
                    Tone::Green,
                )
                && *final(self) == (AppState {
                    show_window: true,
                    popups: PopUps {
                        download: DownloadPopUp {
                            link: final(self).popups.download.link,
                            show: true,
                            ..old(self).popups.download
                        },
                        log: LogPopUp { logs: final(self).popups.log.logs, ..old(self).popups.log },
                        ..old(self).popups
                    },
                    ..*old(self)
                }),
    {
        if !self.popups.download.show {
            if let Some(link) = links.next() {
                let text = String::from_str("Received link from server:").concat(link.as_str());
                self.popups.download.link = link;
                self.log(time, text, Tone::Green);
                self.popups.download.show = true;
                self.show_window = true;
            }
        }
    }

    /// Adds up the speeds of all downloads as the total bandwidth, and records it.
    pub fn set_total_bandwidth(&mut self)
        requires
            sum(speeds(old(self).files@)) <= usize::MAX,
        ensures
            final(self).bandwidth.total_bandwidth == sum(speeds(old(self).files@)),
            final(self).bandwidth.history@ == crate::download::recorded(
                old(self).bandwidth.history@,
                final(self).bandwidth.total_bandwidth,
            ),
            *final(self) == (AppState { bandwidth: final(self).bandwidth, ..*old(self) }),
    {
        let n = self.files.len();
        let mut v: Vec<usize> = Vec::new();
        let mut i: usize = 0;
        while i < n
            invariant
                n == self.files@.len(),
                i <= n,
                v@ == speeds(self.files@.subrange(0, i as int)),
            decreases n - i,
        {
            v.push(self.files[i].file.bytes_per_sec);
            i = i + 1;
            assert(v@ =~= speeds(self.files@.subrange(0, i as int)));
        }
        assert(self.files@.subrange(0, n as int) =~= self.files@);
        self.bandwidth.set_total(&v);
    }

    /// Carries out a message of the tray menu; `true` when the program is to quit.
    pub fn handle_tray_events(&mut self, msg: Message) -> (quit: bool)
        ensures
            quit == (msg == Message::Quit),
            msg == Message::AddDl ==> *final(self) == (AppState {
                show_window: true,
                popups: PopUps {
                    download: DownloadPopUp { show: true, ..old(self).popups.download },
                    ..old(self).popups
                },
                ..*old(self)
            }),
            msg == Message::Show ==> *final(self) == (AppState {
                tray_message: Message::Show,
                show_window: true,
                ..*old(self)
            }),
            msg == Message::Hide ==> *final(self) == (AppState {
                show_window: false,
                popups: PopUps {
                    download: DownloadPopUp { show: false, ..old(self).popups.download },
                    confirm: ConfirmPopUp { show: false, ..old(self).popups.confirm },
                    error: ErrorPopUp { show: false, ..old(self).popups.error },
                    plot: PLotPopUp { show: false },
                    speed: EditSpeedPopUp { show: false, ..old(self).popups.speed },
                    ..old(self).popups
                },
                ..*old(self)
            }),
            msg == Message::Quit || msg == Message::Nothing ==> *final(self) == *old(self),
    {
        match msg {
            Message::AddDl => {
                self.show_window = true;
                self.popups.download.show = true;
                false
            },
            Message::Show => {
                self.tray_message = Message::Show;
                self.show_window = true;
                false
            },
            Message::Hide => {
                self.show_window = false;
                self.popups.download.show = false;
                self.popups.confirm.show = false;
                self.popups.error.show = false;
                self.popups.plot.show = false;
                self.popups.speed.show = false;
                false
            },
            Message::Quit => true,
            Message::Nothing => false,
        }
    }

    /// Opens the confirmation window for `task` (an entry of the "Files" menu).
    pub fn request_confirmation(&mut self, task: ConfirmTask)
        ensures
            final(self).popups.confirm.text@ == confirm_text(task),
            *final(self) == (AppState {
                popups: PopUps {
                    confirm: ConfirmPopUp {
                        text: final(self).popups.confirm.text,
                        color: confirm_tone(task),
                        show: true,
                        task,
                    },
                    ..old(self).popups
                },
                ..*old(self)
            }),
    {
        let (text, tone) = confirm_prompt(task);
        self.popups.confirm.color = tone;
        self.popups.confirm.task = task;
        self.popups.confirm.show = true;
        self.popups.confirm.text = text;
    }

    /// Carries out the confirmed task and closes the confirmation window. Tasks on the
    /// list alone are done here; for those on the disk, the returned work says what the
    /// caller must remove from the disk before it calls the matching `finish_` method.
    pub fn confirmed(&mut self, time: String) -> (work: DiskWork)
        ensures
            work == disk_work(old(self).popups.confirm.task),
            old(self).popups.confirm.task == ConfirmTask::RemoveSelectedFromDisk ==> work == DiskWork::SelectedFromDisk,
            old(self).popups.confirm.task == ConfirmTask::RemoveAllFromDisk ==> work == DiskWork::AllFromDisk,
            old(self).popups.confirm.task == ConfirmTask::RemoveCompleteFromDisk ==> work == DiskWork::CompleteFromDisk,
            old(self).popups.confirm.task == ConfirmTask::RemoveSelectedFromList ==> final(self).files@
                == kept(old(self).files@, Removal::Selected),
            old(self).popups.confirm.task == ConfirmTask::RemoveAllFromList ==> final(self).files@.len() == 0,
            old(self).popups.confirm.task == ConfirmTask::RemoveCompleteFromList ==> final(self).files@
                == kept(old(self).files@, Removal::Complete) && log_view(final(self).popups.log.logs@)
                == logged(old(self).popups.log.logs@, time@, "Delete complete downloads from list"@, Tone::Cyan),
            old(self).popups.confirm.task != ConfirmTask::RemoveSelectedFromList
                && old(self).popups.confirm.task != ConfirmTask::RemoveAllFromList
                && old(self).popups.confirm.task != ConfirmTask::RemoveCompleteFromList ==> final(self).files
                == old(self).files,
            old(self).popups.confirm.task != ConfirmTask::RemoveCompleteFromList ==> final(self).popups.log.logs
                == old(self).popups.log.logs,
            *final(self) == (AppState {
                files: final(self).files,
                popups: PopUps {
                    confirm: ConfirmPopUp { show: false, ..old(self).popups.confirm },
                    log: LogPopUp { logs: final(self).popups.log.logs, ..old(self).popups.log },
                    ..old(self).popups
                },
                ..*old(self)
            }),
    {
        let task = self.popups.confirm.task;
        let work = match task {
            ConfirmTask::RemoveSelectedFromList => {
                remove_where(&mut self.files, Removal::Selected);
                DiskWork::Nothing
            },
            ConfirmTask::RemoveAllFromList => {
                self.files.clear();
                DiskWork::Nothing
            },
            ConfirmTask::RemoveCompleteFromList => {
                remove_where(&mut self.files, Removal::Complete);
                self.log(time, String::from_str("Delete complete downloads from list"), Tone::Cyan);
                DiskWork::Nothing
            },
            ConfirmTask::RemoveSelectedFromDisk => DiskWork::SelectedFromDisk,
            ConfirmTask::RemoveAllFromDisk => DiskWork::AllFromDisk,
            ConfirmTask::RemoveCompleteFromDisk => DiskWork::CompleteFromDisk,
            ConfirmTask::Nothing => DiskWork::Nothing,
        };
        self.popups.confirm.show = false;
        work
    }

    /// Ends "remove all from disk": the list empties only when every removal succeeded.
    pub fn finish_delete_all(&mut self, all_ok: bool)
        ensures
            all_ok ==> final(self).files@.len() == 0 && *final(self) == (AppState {
                files: final(self).files,
                ..*old(self)
            }),
            !all_ok ==> *final(self) == *old(self),
    {
        if all_ok {
            self.files.clear();
        }
    }

    /// Ends "remove selected from disk": the selected downloads leave the list.
    pub fn finish_remove_selected(&mut self)
        ensures
            final(self).files@ == kept(old(self).files@, Removal::Selected),
            *final(self) == (AppState { files: final(self).files, ..*old(self) }),
    {
        remove_where(&mut self.files, Removal::Selected);
    }

    /// Ends "remove complete from disk": the complete downloads leave the list.
    pub fn finish_delete_complete(&mut self)
        ensures
            final(self).files@ == kept(old(self).files@, Removal::Complete),
            *final(self) == (AppState { files: final(self).files, ..*old(self) }),
    {
        remove_where(&mut self.files, Removal::Complete);
    }

    /// Resumes (`true`) or pauses (`false`) every download.
    pub fn set_all_running(&mut self, running: bool)
        ensures
            final(self).files@.len() == old(self).files@.len(),
            forall|i: int| 0 <= i < final(self).files@.len() ==> #[trigger] final(self).files@[i] == with_running(old(self).files@[i], running),
            *final(self) == (AppState { files: final(self).files, ..*old(self) }),
    {
        let n = self.files.len();
        let mut i: usize = 0;
        while i < n
            invariant
                n == self.files@.len(),
                n == old(self).files@.len(),
                i <= n,
                forall|k: int| 0 <= k < i ==> #[trigger] self.files@[k] == with_running(old(self).files@[k], running),
                forall|k: int| i <= k < n ==> #[trigger] self.files@[k] == old(self).files@[k],
                *self == (AppState { files: self.files, ..*old(self) }),
            decreases n - i,
        {
            self.files[i].file.running = running;
            i = i + 1;
        }
    }

    /// Sets the speed limit of every selected download, and closes the speed window.
    pub fn set_speed_of_selected(&mut self, speed: usize)
        ensures
            final(self).files@.len() == old(self).files@.len(),
            forall|i: int| 0 <= i < final(self).files@.len() ==> #[trigger] final(self).files@[i] == if old(
                self,
            ).files@[i].selected {
                with_speed(old(self).files@[i], speed)
            } else {
                old(self).files@[i]
            },
            *final(self) == (AppState {
                files: final(self).files,
                popups: PopUps {
                    speed: EditSpeedPopUp { show: false, ..old(self).popups.speed },
                    ..old(self).popups
                },
                ..*old(self)
            }),
    {
        let n = self.files.len();
        let mut i: usize = 0;
        while i < n
            invariant
                n == self.files@.len(),
                n == old(self).files@.len(),
                i <= n,
                forall|k: int| 0 <= k < i ==> #[trigger] self.files@[k] == if old(self).files@[k].selected {
                    with_speed(old(self).files@[k], speed)
                } else {
                    old(self).files@[k]
                },
                forall|k: int| i <= k < n ==> #[trigger] self.files@[k] == old(self).files@[k],
                *self == (AppState { files: self.files, ..*old(self) }),
            decreases n - i,
        {
            if self.files[i].selected {
                self.files[i].file.speed = speed;
            }
            i = i + 1;
        }
        self.popups.speed.show = false;
    }

    /// Adds the download that the download window prepared, with the chosen action on
    /// save, and closes and clears the window.
    pub fn add_download(&mut self, file: DlFile)
        ensures
            final(self).files@.len() == old(self).files@.len() + 1,
            final(self).files@.drop_last() == old(self).files@,
            final(self).files@.last().file == file,
            final(self).files@.last().new,
            !final(self).files@.last().initiated && !final(self).files@.last().selected,
            !final(self).files@.last().has_error && !final(self).files@.last().got_notif,
            final(self).files@.last().initial_status == file.complete,
            final(self).files@.last().action_on_save == old(self).temp_action,
            final(self).popups.download.error@ == Seq::<char>::empty(),
            *final(self) == (AppState {
                files: final(self).files,
                temp_action: Actions::Nothing,
                show_window: true,
                popups: PopUps {
                    download: DownloadPopUp {
                        show: false,
                        error: final(self).popups.download.error,
                        ..old(self).popups.download
                    },
                    ..old(self).popups
                },
                ..*old(self)
            }),
    {
        let entry = FDl::added(file, self.temp_action);
        self.popups.download.show = false;
        self.popups.download.error = String::new();
        self.temp_action = Actions::Nothing;
        self.show_window = true;
        self.files.push(entry);
        assert(self.files@.drop_last() =~= old(self).files@);
    }

    /// Keeps the "select all" box and the downloads' boxes in step: a change of the
    /// box selects or unselects every download, and the box then shows whether every
    /// download is selected (unticked for an empty list).
    pub fn select_logic(&mut self)
        ensures
            final(self).files@.len() == old(self).files@.len(),
            forall|i: int| 0 <= i < final(self).files@.len() ==> #[trigger] final(self).files@[i] == if old(
                self,
            ).select.initial_state != old(self).select.select_all {
                with_selected(old(self).files@[i], old(self).select.select_all)
            } else {
                old(self).files@[i]
            },
            old(self).select.initial_state != old(self).select.select_all ==> forall|i: int|
                0 <= i < final(self).files@.len() ==> #[trigger] final(self).files@[i].selected
                == old(self).select.select_all,
            old(self).select.initial_state != old(self).select.select_all && old(self).select.select_all
                && old(self).files@.len() > 0 ==> final(self).select.select_all,
            final(self).select.select_all == final(self).select.initial_state,
            final(self).select.select_all == (final(self).files@.len() > 0 && forall|i: int|
                0 <= i < final(self).files@.len() ==> #[trigger] final(self).files@[i].selected),
            *final(self) == (AppState { files: final(self).files, select: final(self).select, ..*old(self) }),
    {
        let select_all = self.select.select_all;
        let initial_state = self.select.initial_state;
        let n = self.files.len();
        if initial_state != select_all {
            let mut i: usize = 0;
            while i < n
                invariant
                    n == self.files@.len(),
                    n == old(self).files@.len(),
                    i <= n,
                    forall|k: int| 0 <= k < i ==> #[trigger] self.files@[k] == with_selected(old(self).files@[k], select_all),
                    forall|k: int| i <= k < n ==> #[trigger] self.files@[k] == old(self).files@[k],
                    *self == (AppState { files: self.files, ..*old(self) }),
                decreases n - i,
            {
                self.files[i].selected = select_all;
                i = i + 1;
            }
            self.select.initial_state = select_all;
        }
        if n == 0 {
            self.select.select_all = false;
            self.select.initial_state = false;
        } else {
            let mut all = true;
            let mut i: usize = 0;
            while i < n
                invariant
                    n == self.files@.len(),
                    i <= n,
                    all == forall|k: int| 0 <= k < i ==> #[trigger] self.files@[k].selected,
                    *self == (AppState { files: self.files, select: self.select, ..*old(self) }),
                decreases n - i,
            {
                all = all && self.files[i].selected;
                i = i + 1;
            }
            self.select.select_all = all;
            self.select.initial_state = all;
        }
    }

    /// Ticks or unticks the first download called `name` (the box of a table row).
    pub fn set_selected_by_name(&mut self, name: &str, selected: bool) -> (r: Option<usize>)
        ensures
            match r {
                Some(i) => i < old(self).files@.len() && old(self).files@[i as int].file.name_on_disk@ == name@
                    && (forall|k: int| 0 <= k < i ==> #[trigger] old(self).files@[k].file.name_on_disk@ != name@)
                    && final(self).files@ == old(self).files@.update(
                        i as int,
                        with_selected(old(self).files@[i as int], selected),
                    ),
                None => forall|k: int| 0 <= k < old(self).files@.len() ==> #[trigger] old(self).files@[k].file.name_on_disk@
                    != name@,
            },
            *final(self) == (AppState { files: final(self).files, ..*old(self) }),
            r is None ==> *final(self) == *old(self),
            r matches Some(i) ==> final(self).files@[i as int].selected == selected,
    {
        let n = self.files.len();
        let mut i: usize = 0;
        while i < n
            invariant
                n == self.files@.len(),
                *self == *old(self),
                i <= n,
                forall|k: int| 0 <= k < i ==> #[trigger] old(self).files@[k].file.name_on_disk@ != name@,
            decreases n - i,
        {
            if crate::text::str_equals(self.files[i].file.name_on_disk.as_str(), name) {
                self.files[i].selected = selected;
                assert(self.files@ =~= old(self).files@.update(
                    i as int,
                    with_selected(old(self).files@[i as int], selected),
                ));
                return Some(i);
            }
            i = i + 1;
        }
        None
    }

    /// The frame's work for the download at `i` (see `FDl::plan_run`); a download that
    /// starts is logged as being initiated.
    pub fn plan_download(&mut self, i: usize, stalled: bool, time: String) -> (r: RunStep)
        requires
            i < old(self).files@.len(),
        ensures
            final(self).files@ == old(self).files@.update(
                i as int,
                spec_plan(old(self).files@[i as int], old(self).show_window, stalled).0,
            ),
            r == spec_plan(old(self).files@[i as int], old(self).show_window, stalled).1,
            r.start ==> log_view(final(self).popups.log.logs@) == logged(
                old(self).popups.log.logs@,
                time@,
                "Initiating : "@ + old(self).files@[i as int].file.url.link@,
                Tone::Green,
            ),
            !r.start ==> final(self).popups.log.logs == old(self).popups.log.logs,
            *final(self) == (AppState {
                files: final(self).files,
                popups: PopUps {
                    log: LogPopUp { logs: final(self).popups.log.logs, ..old(self).popups.log },
                    ..old(self).popups
                },
                ..*old(self)
            }),
    {
        let show_window = self.show_window;
        let step = self.files[i].plan_run(show_window, stalled);
        assert(self.files@ =~= old(self).files@.update(
            i as int,
            spec_plan(old(self).files@[i as int], old(self).show_window, stalled).0,
        ));
        if step.start {
            let text = String::from_str("Initiating : ").concat(self.files[i].file.url.link.as_str());
            self.log(time, text, Tone::Green);
        }
        step
    }

    /// The downloads that the table shows, in the order it shows them (see
    /// `table::visible_files`), for the current search and file type.
    pub fn visible(&self) -> (r: Vec<usize>)
        ensures
            forall|k: int| 0 <= k < r@.len() ==> r@[k] < self.files@.len(),
            forall|i: int|
                0 <= i < self.files@.len() ==> (crate::table::shown(
                    self.files@[i],
                    self.search@,
                    self.explorer.current.deep_view(),
                ) <==> r@.contains(i as usize)),
            forall|a: int, b: int|
                0 <= a < b < r@.len() ==> crate::table::precedes(self.files@, r@[a] as int, r@[b] as int),
    {
        crate::table::visible_files(&self.files, self.search.as_str(), &self.explorer.current)
    }

    /// Closes the download window without adding anything.
    pub fn cancel_download_window(&mut self)
        ensures
            final(self).popups.download.error@ == Seq::<char>::empty(),
            *final(self) == (AppState {
                popups: PopUps {
                    download: DownloadPopUp {
                        show: false,
                        error: final(self).popups.download.error,
                        ..old(self).popups.download
                    },
                    ..old(self).popups
                },
                ..*old(self)
            }),
    {
        self.popups.download.show = false;
        self.popups.download.error = String::new();
    }

    /// Logs an error that a download task reported, and marks the log as holding one.
    pub fn note_download_error(&mut self, time: String, error: String)
        ensures
            log_view(final(self).popups.log.logs@) == logged(old(self).popups.log.logs@, time@, error@, Tone::Red),
            *final(self) == (AppState {
                popups: PopUps {
                    log: LogPopUp { logs: final(self).popups.log.logs, has_error: true, ..old(self).popups.log },
                    ..old(self).popups
                },
                ..*old(self)
            }),
    {
        self.log(time, error, Tone::Red);
        self.popups.log.has_error = true;
    }

    /// Opens the log window, which clears its error mark.
    pub fn open_log(&mut self)
        ensures
            *final(self) == (AppState {
                popups: PopUps {
                    log: LogPopUp { show: true, has_error: false, ..old(self).popups.log },
                    ..old(self).popups
                },
                ..*old(self)
            }),
    {
        self.popups.log.has_error = false;
        self.popups.log.show = true;
    }

    /// Takes in the folder chosen in the settings window's dialog; when none was
    /// chosen, says so in the window and in the log.
    pub fn dir_chosen(&mut self, time: String, dir: Option<String>)
        ensures
            match dir {
                Some(d) => final(self).popups.settings.dl_dir@ == d@ && *final(self) == (AppState {
                    popups: PopUps {
                        settings: SettingsPopUp { dl_dir: final(self).popups.settings.dl_dir, ..old(self).popups.settings },
                        ..old(self).popups
                    },
                    ..*old(self)
                }),
                None => final(self).popups.settings.error@ == "Couldn't accept this dir"@ && log_view(
                    final(self).popups.log.logs@,
                ) == logged(old(self).popups.log.logs@, time@, "Couldn't set dir"@, Tone::Red)
                    && *final(self) == (AppState {
                    popups: PopUps {
                        settings: SettingsPopUp { error: final(self).popups.settings.error, ..old(self).popups.settings },
                        log: LogPopUp { logs: final(self).popups.log.logs, ..old(self).popups.log },
                        ..old(self).popups
                    },
                    ..*old(self)
                }),
            },
    {
        match dir {
            Some(d) => {
                self.popups.settings.dl_dir = d;
            },
            None => {
                self.popups.settings.error = String::from_str("Couldn't accept this dir");
                self.log(time, String::from_str("Couldn't set dir"), Tone::Red);
            },
        }
    }

    /// Takes in what was typed in the settings window (the confirm button): the retry
    /// interval (the default when nothing is typed) and the download folder, which must
    /// be a folder (`dir_is_dir`). A refused entry is shown in the window and logged,
    /// and `false` is returned; `true` means the settings are to be saved.
    pub fn apply_settings_input(&mut self, time: String, dir_is_dir: bool) -> (ok: bool)
        ensures
            match crate::settings::spec_retry_interval(old(self).popups.settings.temp_str@) {
                Err(k) => !ok && final(self).settings == old(self).settings
                    && final(self).popups.settings.error@ == crate::text::int_error_message(k)
                    && log_view(final(self).popups.log.logs@) == logged(
                        old(self).popups.log.logs@,
                        time@,
                        crate::text::int_error_message(k),
                        Tone::Red,
                    ),
                Ok(v) => final(self).settings.retry_interval == v && if dir_is_dir {
                    ok && final(self).settings.dl_dir@ == old(self).popups.settings.dl_dir@
                        && final(self).popups.log.logs == old(self).popups.log.logs
                        && final(self).popups.settings.error == old(self).popups.settings.error
                } else {
                    !ok && final(self).settings.dl_dir == old(self).settings.dl_dir
                        && final(self).popups.settings.error@ == "Not a valid dir"@ && log_view(
                        final(self).popups.log.logs@,
                    ) == logged(old(self).popups.log.logs@, time@, "Not a valid dir"@, Tone::Red)
                },
            },
            *final(self) == (AppState {
                settings: final(self).settings,
                popups: PopUps {
                    settings: SettingsPopUp { error: final(self).popups.settings.error, ..old(self).popups.settings },
                    log: LogPopUp { logs: final(self).popups.log.logs, ..old(self).popups.log },
                    ..old(self).popups
                },
                ..*old(self)
            }),
    {
        match crate::settings::parse_retry_interval(self.popups.settings.temp_str.as_str()) {
            Ok(v) => {
                self.settings.retry_interval = v;
            },
            Err(k) => {
                let msg = k.message();
                self.log(time, msg.to_owned(), Tone::Red);
                self.popups.settings.error = msg.to_owned();
                return false;
            },
        }
        if dir_is_dir {
            self.settings.dl_dir = self.popups.settings.dl_dir.clone();
            true
        } else {
            self.log(time, String::from_str("Not a valid dir"), Tone::Red);
            self.popups.settings.error = String::from_str("Not a valid dir");
            false
        }
    }

    /// The settings were saved and the downloads of the new folder loaded: they replace
    /// the list, the window closes, and the update is logged.
    pub fn settings_saved(&mut self, time: String, files: Vec<FDl>)
        ensures
            final(self).files@ == files@,
            log_view(final(self).popups.log.logs@) == logged(old(self).popups.log.logs@, time@, "Updated log"@, Tone::Red),
            *final(self) == (AppState {
                files: final(self).files,
                popups: PopUps {
                    settings: SettingsPopUp { show: false, ..old(self).popups.settings },
                    log: LogPopUp { logs: final(self).popups.log.logs, ..old(self).popups.log },
                    ..old(self).popups
                },
                ..*old(self)
            }),
    {
        self.popups.settings.show = false;
        self.files = files;
        self.log(time, String::from_str("Updated log"), Tone::Red);
    }

    /// Saving the settings or loading the new folder failed, for the reason `text`: it
    /// is shown in the window and logged.
    pub fn settings_failed(&mut self, time: String, text: String)
        ensures
            final(self).popups.settings.error@ == text@,
            log_view(final(self).popups.log.logs@) == logged(old(self).popups.log.logs@, time@, text@, Tone::Red),
            *final(self) == (AppState {
                popups: PopUps {
                    settings: SettingsPopUp { error: final(self).popups.settings.error, ..old(self).popups.settings },
                    log: LogPopUp { logs: final(self).popups.log.logs, ..old(self).popups.log },
                    ..old(self).popups
                },
                ..*old(self)
            }),
    {
        let shown = text.clone();
        self.log(time, text, Tone::Red);
        self.popups.settings.error = shown;
    }
}

/// `f` with its download marked running or not.
pub open spec fn with_running(f: FDl, running: bool) -> FDl {
    FDl { file: DlFile { running, ..f.file }, ..f }
}

/// `f` with the speed limit `speed`.
pub open spec fn with_speed(f: FDl, speed: usize) -> FDl {
    FDl { file: DlFile { speed, ..f.file }, ..f }
}

/// `f` ticked or not.
pub open spec fn with_selected(f: FDl, selected: bool) -> FDl {
    FDl { selected, ..f }
}

/// The speeds of the downloads, in order.
pub open spec fn speeds(files: Seq<FDl>) -> Seq<usize> {
    files.map_values(|f: FDl| f.file.bytes_per_sec)
}

/// What a confirmed task leaves to be removed from the disk.
#[derive(Debug, Clone, Copy, PartialEq, Eq, Structural)]
pub enum DiskWork {
    Nothing,
    AllFromDisk,
    SelectedFromDisk,
    CompleteFromDisk,
}

/// The disk work of each task.
pub open spec fn disk_work(t: ConfirmTask) -> DiskWork {
    match t {
        ConfirmTask::RemoveSelectedFromDisk => DiskWork::SelectedFromDisk,
        ConfirmTask::RemoveAllFromDisk => DiskWork::AllFromDisk,
        ConfirmTask::RemoveCompleteFromDisk => DiskWork::CompleteFromDisk,
        _ => DiskWork::Nothing,
    }
}

/// Only the removals from the disk leave work on the disk, and each leaves the work of
/// its own scope: the selected downloads, all of them, or the complete ones.
pub proof fn law_disk_work(t: ConfirmTask)
    ensures
        disk_work(t) == DiskWork::SelectedFromDisk <==> t == ConfirmTask::RemoveSelectedFromDisk,
        disk_work(t) == DiskWork::AllFromDisk <==> t == ConfirmTask::RemoveAllFromDisk,
        disk_work(t) == DiskWork::CompleteFromDisk <==> t == ConfirmTask::RemoveCompleteFromDisk,
{
}

/// Ticking or unticking a download sets its mark to exactly the value given, and
/// changes nothing else of it.
pub proof fn law_with_selected(f: FDl, s: bool)
    ensures
        with_selected(f, s).selected == s,
        with_selected(f, s).file == f.file,
        with_selected(f, s).new == f.new && with_selected(f, s).initiated == f.initiated,
        with_selected(f, s).action_on_save == f.action_on_save,
        with_selected(f, s).has_error == f.has_error && with_selected(f, s).got_notif == f.got_notif,
        with_selected(f, s).initial_status == f.initial_status,
{
}

/// Pausing or resuming, or setting a speed limit, changes only that of the download.
pub proof fn law_with_running_speed(f: FDl, running: bool, speed: usize)
    ensures
        with_running(f, running).file.running == running,
        with_running(f, running).file.speed == f.file.speed,
        with_running(f, running).selected == f.selected,
        with_speed(f, speed).file.speed == speed,
        with_speed(f, speed).file.running == f.file.running,
        with_speed(f, speed).selected == f.selected,
{
}

/// Whether "remove complete from disk" removes the files of download `f` from the disk:
/// it does so for the downloads that are not complete.
pub fn touched_by_delete_complete(f: &FDl) -> (r: bool)
    ensures
        r == !f.file.complete,
{
    !f.file.complete
}

/// The log line for a file removed by "remove all from disk".
pub fn deleted_text(path: &str, tmp: bool) -> (s: String)
    ensures
        s@ == (if tmp { "Deleted tmp file: "@ } else { "Deleted file: "@ }) + path@ + "\n"@,
{
    let head = if tmp { String::from_str("Deleted tmp file: ") } else { String::from_str("Deleted file: ") };
    head.concat(path).concat("\n")
}

/// The log line for a file removed by "remove selected from disk".
pub fn removed_text(path: &str, tmp: bool) -> (s: String)
    ensures
        s@ == (if tmp { "Tmp File: "@ } else { "File: "@ }) + path@ + " was removed\n"@,
{
    let head = if tmp { String::from_str("Tmp File: ") } else { String::from_str("File: ") };
    head.concat(path).concat(" was removed\n")
}

/// The log line for a file that could not be removed.
pub fn failure_text(path: &str, error: &str) -> (s: String)
    ensures
        s@ == "File Path: "@ + path@ + ", Error: "@ + error@ + "\n"@,
{
    String::from_str("File Path: ").concat(path).concat(", Error: ").concat(error).concat("\n")
}

} // verus!
