//! The state of the pop-up windows, and the log.

use vstd::prelude::*;
use vstd::string::*;

verus! {

/// The colours in which texts are shown.
#[derive(Debug, Clone, Copy, PartialEq, Eq, Structural)]
pub enum Tone {
    /// No colour of its own.
    Plain,
    /// Plain bright green.
    BrightGreen,
    /// The theme's green: something went well.
    Green,
    /// The theme's red: something went wrong.
    Red,
    /// The theme's cyan: information.
    Cyan,
}

/// One line of the log: when, what, and in which colour.
pub struct LogEntry {
    pub time: String,
    pub text: String,
    pub tone: Tone,
}

impl View for LogEntry {
    type V = (Seq<char>, Seq<char>, Tone);

    open spec fn view(&self) -> (Seq<char>, Seq<char>, Tone) {
        (self.time@, self.text@, self.tone)
    }
}

/// The log as a sequence of `(time, text, colour)`.
pub open spec fn log_view(logs: Seq<LogEntry>) -> Seq<(Seq<char>, Seq<char>, Tone)> {
    logs.map_values(|e: LogEntry| e@)
}

impl LogEntry {
    /// The line as the log window shows it: `time: text`.
    pub fn formatted(&self) -> (s: String)
        ensures
            s@ == self.time@ + ": "@ + self.text@,
    {
        self.time.as_str().to_owned().concat(": ").concat(self.text.as_str())
    }
}

/// What a confirmation asks the user to agree to.
#[derive(Debug, Clone, Copy, PartialEq, Eq, Structural)]
pub enum ConfirmTask {
    Nothing,
    RemoveSelectedFromList,
    RemoveSelectedFromDisk,
    RemoveAllFromList,
    RemoveAllFromDisk,
    RemoveCompleteFromList,
    RemoveCompleteFromDisk,
}

/// The text that asks for each confirmation.
pub open spec fn confirm_text(t: ConfirmTask) -> Seq<char> {
    match t {
        ConfirmTask::Nothing => Seq::empty(),
        ConfirmTask::RemoveSelectedFromList => "This will remove files selected from list"@,
        ConfirmTask::RemoveSelectedFromDisk => "This will remove selected files from disk"@,
        ConfirmTask::RemoveAllFromList => "This will not delete files from disk"@,
        ConfirmTask::RemoveAllFromDisk => "This will remove all files from disk"@,
        ConfirmTask::RemoveCompleteFromList => "This will remove all complete files from list"@,
        ConfirmTask::RemoveCompleteFromDisk => "This will remove all complete files from disk"@,
    }
}

/// The colour of the text of each confirmation: red when files leave the disk.
pub open spec fn confirm_tone(t: ConfirmTask) -> Tone {
    match t {
        ConfirmTask::Nothing => Tone::Plain,
        ConfirmTask::RemoveSelectedFromList => Tone::BrightGreen,
        ConfirmTask::RemoveSelectedFromDisk => Tone::Red,
        ConfirmTask::RemoveAllFromList => Tone::Green,
        ConfirmTask::RemoveAllFromDisk => Tone::Red,
        ConfirmTask::RemoveCompleteFromList => Tone::Green,
        ConfirmTask::RemoveCompleteFromDisk => Tone::Red,
    }
}

/// The text and colour that ask for a confirmation.
pub fn confirm_prompt(t: ConfirmTask) -> (r: (String, Tone))
    ensures
        r.0@ == confirm_text(t),
        r.1 == confirm_tone(t),
{
    match t {
        ConfirmTask::Nothing => (String::new(), Tone::Plain),
        ConfirmTask::RemoveSelectedFromList => (String::from_str("This will remove files selected from list"), Tone::BrightGreen),
        ConfirmTask::RemoveSelectedFromDisk => (String::from_str("This will remove selected files from disk"), Tone::Red),
        ConfirmTask::RemoveAllFromList => (String::from_str("This will not delete files from disk"), Tone::Green),
        ConfirmTask::RemoveAllFromDisk => (String::from_str("This will remove all files from disk"), Tone::Red),
        ConfirmTask::RemoveCompleteFromList => (String::from_str("This will remove all complete files from list"), Tone::Green),
        ConfirmTask::RemoveCompleteFromDisk => (String::from_str("This will remove all complete files from disk"), Tone::Red),
    }
}

/// The window that asks to confirm a removal.
pub struct ConfirmPopUp {
    pub text: String,
    pub color: Tone,
    pub show: bool,
    pub task: ConfirmTask,
}

impl Default for ConfirmPopUp {
    fn default() -> (r: Self)
        ensures
            r.text@ == Seq::<char>::empty(),
            r.color == Tone::Plain,
            !r.show,
            r.task == ConfirmTask::Nothing,
    {
        ConfirmPopUp { text: String::new(), color: Tone::Plain, show: false, task: ConfirmTask::Nothing }
    }
}

/// The window that plots the bandwidth.
pub struct PLotPopUp {
    pub show: bool,
}

impl Default for PLotPopUp {
    fn default() -> (r: Self)
        ensures
            !r.show,
    {
        PLotPopUp { show: false }
    }
}

/// The window that changes the speed limit of the selected downloads.
pub struct EditSpeedPopUp {
    pub show: bool,
    pub error: String,
    pub temp_val: String,
}

impl Default for EditSpeedPopUp {
    fn default() -> (r: Self)
        ensures
            !r.show,
            r.error@ == Seq::<char>::empty(),
            r.temp_val@ == Seq::<char>::empty(),
    {
        EditSpeedPopUp { show: false, error: String::new(), temp_val: String::new() }
    }
}

/// The window that shows an error.
pub struct ErrorPopUp {
    pub value: String,
    pub show: bool,
}

impl Default for ErrorPopUp {
    fn default() -> (r: Self)
        ensures
            r.value@ == Seq::<char>::empty(),
            !r.show,
    {
        ErrorPopUp { value: String::new(), show: false }
    }
}

/// The window in which a download is added.
pub struct DownloadPopUp {
    pub link: String,
    pub speed: String,
    pub show: bool,
    pub error: String,
}

impl Default for DownloadPopUp {
    fn default() -> (r: Self)
        ensures
            r.link@ == Seq::<char>::empty(),
            r.speed@ == Seq::<char>::empty(),
            !r.show,
            r.error@ == Seq::<char>::empty(),
    {
        DownloadPopUp { link: String::new(), speed: String::new(), show: false, error: String::new() }
    }
}

/// The log window, and the log itself.
pub struct LogPopUp {
    pub logs: Vec<LogEntry>,
    pub show: bool,
    pub has_error: bool,
}

impl Default for LogPopUp {
    fn default() -> (r: Self)
        ensures
            r.logs@.len() == 0,
            !r.show,
            !r.has_error,
    {
        LogPopUp { logs: Vec::new(), show: false, has_error: false }
    }
}

/// The settings window, with what is being typed in it.
pub struct SettingsPopUp {
    pub show: bool,
    pub error: String,
    pub dl_dir: String,
    pub temp_str: String,
}

impl Default for SettingsPopUp {
    fn default() -> (r: Self)
        ensures
            !r.show,
            r.error@ == Seq::<char>::empty(),
            r.dl_dir@ == Seq::<char>::empty(),
            r.temp_str@ == Seq::<char>::empty(),
    {
        SettingsPopUp { show: false, error: String::new(), dl_dir: String::new(), temp_str: String::new() }
    }
}

/// All the pop-up windows.
pub struct PopUps {
    pub download: DownloadPopUp,
    pub error: ErrorPopUp,
    pub confirm: ConfirmPopUp,
    pub plot: PLotPopUp,
    pub speed: EditSpeedPopUp,
    pub log: LogPopUp,
    pub settings: SettingsPopUp,
}

impl PopUps {
    /// Whether the windows are as at start-up: all closed, nothing typed or shown in
    /// them, no confirmation pending, and an empty log without error mark.
    pub open spec fn is_initial(&self) -> bool {
        &&& !self.download.show && self.download.link@.len() == 0 && self.download.speed@.len() == 0
            && self.download.error@.len() == 0
        &&& !self.error.show && self.error.value@.len() == 0
        &&& !self.confirm.show && self.confirm.text@.len() == 0 && self.confirm.color == Tone::Plain
            && self.confirm.task == ConfirmTask::Nothing
        &&& !self.plot.show
        &&& !self.speed.show && self.speed.error@.len() == 0 && self.speed.temp_val@.len() == 0
        &&& !self.log.show && !self.log.has_error && self.log.logs@.len() == 0
        &&& !self.settings.show && self.settings.error@.len() == 0 && self.settings.dl_dir@.len() == 0
            && self.settings.temp_str@.len() == 0
    }
}

impl Default for PopUps {
    fn default() -> (r: Self)
        ensures
            r.is_initial(),
    {
        PopUps {
            download: DownloadPopUp::default(),
            error: ErrorPopUp::default(),
            confirm: ConfirmPopUp::default(),
            plot: PLotPopUp::default(),
            speed: EditSpeedPopUp::default(),
            log: LogPopUp::default(),
            settings: SettingsPopUp::default(),
        }
    }
}

} // verus!
