use rusty_dl::download::{Actions, Bandwidth, ConsumingIterator, HISTORY_LIMIT};
use rusty_dl::explorer::{extensions_of, Category, Explorer};
use rusty_dl::files::{
    attempt_policy, file_path, metadata_file_name, metadata_path, on_save_effect, play_button,
    resume_offset, retry_after, AttemptPolicy, DlFile, FDl, HoverHint, SaveEffect,
};
use rusty_dl::manager::{
    deleted_text, failure_text, removed_text, touched_by_delete_complete, AppState, DiskWork,
};
use rusty_dl::metadata::MetaData;
use rusty_dl::popups::{ConfirmTask, LogEntry, Tone};
use rusty_dl::settings::Settings;
use rusty_dl::status::Connection;
use rusty_dl::table::visible_files;
use rusty_dl::tray::Message;
use rusty_dl::url::Url;

fn file(name: &str, link: &str, complete: bool) -> DlFile {
    DlFile {
        url: Url {
            link: link.to_string(),
            filename: name.to_string(),
            content_length: 10,
            range_support: true,
        },
        name_on_disk: name.to_string(),
        dl_dir: "Downloads".to_string(),
        size_on_disk: 0,
        running: false,
        complete,
        bytes_per_sec: 0,
        speed: 0,
    }
}

fn state(files: Vec<(&str, bool)>) -> AppState {
    let list = files
        .into_iter()
        .map(|(n, c)| FDl::loaded(file(n, &format!("https://h.org/{}", n), c)))
        .collect();
    AppState::new(list, Settings::default())
}

fn names(s: &AppState) -> Vec<String> {
    s.files.iter().map(|f| f.file.name_on_disk.clone()).collect()
}

#[test]
fn consuming_iterator_takes_from_front() {
    let mut v = vec![1, 2, 3];
    assert_eq!(v.next(), Some(1));
    assert_eq!(v, vec![2, 3]);
    let mut e: Vec<u8> = vec![];
    assert_eq!(e.next(), None);
}

#[test]
fn bandwidth_history_is_capped() {
    let mut b = Bandwidth::default();
    for i in 0..150usize {
        b.set_total(&vec![i, 1]);
        assert!(b.history.len() <= HISTORY_LIMIT);
        assert_eq!(*b.history.last().unwrap(), i + 1);
    }
    assert_eq!(b.history.len(), 100);
    assert_eq!(b.history[0], 51);
    assert_eq!(b.total_bandwidth, 150);
}

#[test]
fn record_bandwidth_sums_speeds() {
    let mut s = state(vec![("a.zip", false), ("b.zip", false)]);
    s.files[0].file.bytes_per_sec = 300;
    s.files[1].file.bytes_per_sec = 45;
    s.set_total_bandwidth();
    assert_eq!(s.bandwidth.total_bandwidth, 345);
    assert_eq!(s.bandwidth.history, vec![345]);
}

#[test]
fn plan_run_starts_idle_download() {
    let mut f = FDl::added(file("a.zip", "https://h/a.zip", false), Actions::Nothing);
    let step = f.plan_run(true, false);
    assert!(step.start && !step.notify && step.reset_clock);
    assert!(f.initiated && !f.has_error);
    let step = f.plan_run(true, true);
    assert!(!step.start && !step.reset_clock);
}

#[test]
fn plan_run_flags_stalled_download() {
    let mut f = FDl::added(file("a.zip", "https://h/a.zip", false), Actions::Nothing);
    f.file.running = true;
    let step = f.plan_run(true, true);
    assert!(step.start && !step.reset_clock);
    assert!(f.has_error);
}

#[test]
fn plan_run_announces_once() {
    let mut f = FDl::added(file("a.zip", "https://h/a.zip", false), Actions::Nothing);
    f.file.complete = true;
    let step = f.plan_run(false, false);
    assert!(step.notify && !step.start);
    assert!(f.got_notif);
    let step = f.plan_run(false, false);
    assert!(!step.notify);
    let mut g = FDl::loaded(file("b.zip", "https://h/b.zip", true));
    let step = g.plan_run(false, false);
    assert!(!step.notify);
    let mut h = FDl::added(file("c.zip", "https://h/c.zip", false), Actions::Nothing);
    h.file.complete = true;
    let step = h.plan_run(true, false);
    assert!(!step.notify && h.got_notif);
}

#[test]
fn attempts() {
    assert_eq!(attempt_policy(true, false), AttemptPolicy::UntilSuccess);
    assert_eq!(attempt_policy(false, true), AttemptPolicy::Once);
    assert_eq!(attempt_policy(false, false), AttemptPolicy::Never);
    assert!(retry_after(AttemptPolicy::UntilSuccess, false));
    assert!(!retry_after(AttemptPolicy::UntilSuccess, true));
    assert!(!retry_after(AttemptPolicy::Once, false));
}

#[test]
fn play_buttons() {
    let b = play_button(true, false, false);
    assert!(b.active && b.hint == HoverHint::Pointer);
    let b = play_button(false, false, false);
    assert!(!b.active && b.hint == HoverHint::NoResume);
    let b = play_button(false, true, true);
    assert!(!b.active && b.hint == HoverHint::Plain);
}

#[test]
fn save_effects() {
    assert_eq!(on_save_effect(Actions::Open, false), SaveEffect::Nothing);
    assert_eq!(on_save_effect(Actions::Open, true), SaveEffect::OpenFile);
    assert_eq!(on_save_effect(Actions::Reboot, true), SaveEffect::Reboot);
    assert_eq!(on_save_effect(Actions::Shutdown, true), SaveEffect::Shutdown);
    assert_eq!(on_save_effect(Actions::Nothing, true), SaveEffect::Nothing);
    assert_eq!(Actions::default(), Actions::Nothing);
}

#[test]
fn paths() {
    assert_eq!(file_path("Downloads", "a.zip"), "Downloads/a.zip");
    assert_eq!(metadata_file_name("a.zip"), ".a.zip.metadl");
    assert_eq!(metadata_path("Downloads", "a.zip"), "Downloads/.a.zip.metadl");
}

#[test]
fn metadata_of_file() {
    let f = file("a.zip", "https://h/a.zip", false);
    let m = MetaData::for_file(&f);
    assert_eq!(m.link, "https://h/a.zip");
    assert_eq!(m.name_on_disk, "a.zip");
    assert_eq!(m.url_name, "a.zip");
    assert_eq!(m.content_length, 10);
    assert!(m.range_support);
}

#[test]
fn explorer_selects_one_category() {
    let mut e = Explorer::default();
    assert!(e.is_chosen(Category::All) && !e.is_chosen(Category::Videos));
    assert!(e.current.is_empty());
    e.select(Category::Fonts);
    assert!(e.is_chosen(Category::Fonts) && !e.is_chosen(Category::All));
    assert_eq!(e.current, vec!["eot", "otf", "ttf", "woff", "woff2"]);
    e.select(Category::All);
    assert!(e.current.is_empty() && e.is_chosen(Category::All) && !e.is_chosen(Category::Fonts));
    e.toggle_off();
    assert!(!e.is_chosen(Category::All));
    assert_eq!(e.current, Vec::<String>::new());
    assert_eq!(extensions_of(Category::Slides), vec!["ppt", "pptx", "odp"]);
    assert_eq!(extensions_of(Category::Archives).len(), 39);
    assert_eq!(extensions_of(Category::Videos).len(), 40);
}

#[test]
fn table_filters_and_sorts() {
    let list = vec![
        FDl::loaded(file("b.mp4", "https://h/b.mp4", true)),
        FDl::loaded(file("Zeta.MP4 ", "https://h/z", false)),
        FDl::loaded(file("a.txt", "https://h/a.txt", false)),
        FDl::loaded(file("c.mp4", "https://h/c.mp4", false)),
    ];
    let all = visible_files(&list, "", &vec![]);
    assert_eq!(all, vec![1, 2, 3, 0]);
    let videos = visible_files(&list, "", &extensions_of(Category::Videos));
    assert_eq!(videos, vec![1, 3, 0]);
    let search = visible_files(&list, "zeta", &vec![]);
    assert_eq!(search, vec![1]);
    let by_link = visible_files(&list, "h/c", &vec![]);
    assert_eq!(by_link, vec![3]);
    let none = visible_files(&list, "ZETA", &vec![]);
    assert!(none.is_empty());
}

#[test]
fn table_keeps_list_order_between_equal_keys() {
    let list = vec![
        FDl::loaded(file("same", "https://h/1", false)),
        FDl::loaded(file("same", "https://h/2", false)),
        FDl::loaded(file("earlier", "https://h/3", false)),
    ];
    assert_eq!(visible_files(&list, "", &vec![]), vec![2, 0, 1]);
}

#[test]
fn link_taken_when_download_window_free() {
    let mut s = state(vec![]);
    let mut links = vec!["https://h/x.zip".to_string(), "https://h/y.zip".to_string()];
    s.check_urls(&mut links, "10:00:00".to_string());
    assert_eq!(links, vec!["https://h/y.zip"]);
    assert!(s.popups.download.show && s.show_window);
    assert_eq!(s.popups.download.link, "https://h/x.zip");
    assert_eq!(s.popups.log.logs.len(), 1);
    assert_eq!(s.popups.log.logs[0].text, "Received link from server:https://h/x.zip");
    assert!(s.popups.log.logs[0].tone == Tone::Green);
    s.check_urls(&mut links, "10:00:01".to_string());
    assert_eq!(links.len(), 1);
    assert_eq!(s.popups.log.logs.len(), 1);
}

#[test]
fn tray_messages() {
    let mut s = state(vec![]);
    s.popups.plot.show = true;
    assert!(!s.handle_tray_events(Message::Hide));
    assert!(!s.show_window && !s.popups.plot.show);
    assert!(!s.handle_tray_events(Message::Show));
    assert!(s.show_window && s.tray_message == Message::Show);
    assert!(!s.handle_tray_events(Message::AddDl));
    assert!(s.popups.download.show);
    s.popups.error.show = true;
    assert!(s.handle_tray_events(Message::Quit));
    assert!(!s.handle_tray_events(Message::Nothing));
    assert!(s.popups.error.show && s.popups.download.show && s.show_window);
    assert!(Message::default() == Message::Nothing);
}

#[test]
fn confirmations_remove_from_list() {
    let mut s = state(vec![("a", false), ("b", true), ("c", false)]);
    s.files[0].selected = true;
    s.request_confirmation(ConfirmTask::RemoveSelectedFromList);
    assert!(s.popups.confirm.show);
    assert_eq!(s.popups.confirm.text, "This will remove files selected from list");
    assert!(s.popups.confirm.color == Tone::BrightGreen);
    assert!(s.confirmed("t".to_string()) == DiskWork::Nothing);
    assert!(!s.popups.confirm.show);
    assert_eq!(names(&s), vec!["b", "c"]);
    s.request_confirmation(ConfirmTask::RemoveCompleteFromList);
    s.confirmed("t".to_string());
    assert_eq!(names(&s), vec!["c"]);
    assert_eq!(s.popups.log.logs.last().unwrap().text, "Delete complete downloads from list");
    s.request_confirmation(ConfirmTask::RemoveAllFromList);
    assert_eq!(s.popups.confirm.text, "This will not delete files from disk");
    s.confirmed("t".to_string());
    assert!(s.files.is_empty());
}

#[test]
fn confirmations_on_disk() {
    let mut s = state(vec![("a", false), ("b", true)]);
    s.request_confirmation(ConfirmTask::RemoveAllFromDisk);
    assert!(s.popups.confirm.color == Tone::Red);
    assert!(s.confirmed("t".to_string()) == DiskWork::AllFromDisk);
    assert_eq!(s.files.len(), 2);
    s.report_failure("t".to_string(), "File Path: d/a, Error: denied\n".to_string());
    s.finish_delete_all(false);
    assert_eq!(s.files.len(), 2);
    assert!(s.popups.error.show);
    assert_eq!(s.popups.error.value, "File Path: d/a, Error: denied\n");
    assert_eq!(s.popups.log.logs.len(), 1);
    s.files[1].selected = true;
    s.finish_remove_selected();
    assert_eq!(names(&s), vec!["a"]);
    assert!(s.popups.error.show);
    assert!(touched_by_delete_complete(&s.files[0]));
    s.finish_delete_complete();
    assert_eq!(names(&s), vec!["a"]);
    s.finish_delete_all(true);
    assert!(s.files.is_empty());
    assert_eq!(deleted_text("d/a", false), "Deleted file: d/a\n");
    assert_eq!(deleted_text("d/.a.metadl", true), "Deleted tmp file: d/.a.metadl\n");
    assert_eq!(removed_text("d/a", false), "File: d/a was removed\n");
    assert_eq!(removed_text("d/a", true), "Tmp File: d/a was removed\n");
    assert_eq!(failure_text("d/a", "denied"), "File Path: d/a, Error: denied\n");
}

#[test]
fn failures_are_reported() {
    let mut s = state(vec![]);
    s.report_failure("t".to_string(), "oops".to_string());
    assert!(s.popups.error.show);
    assert_eq!(s.popups.error.value, "oops");
    assert!(s.popups.log.logs[0].tone == Tone::Red);
    s.note_download_error("t".to_string(), "lost".to_string());
    assert!(s.popups.log.has_error);
    s.open_log();
    assert!(s.popups.log.show && !s.popups.log.has_error);
    let e = LogEntry { time: "12:00:00".to_string(), text: "hi".to_string(), tone: Tone::Cyan };
    assert_eq!(e.formatted(), "12:00:00: hi");
}

#[test]
fn running_and_speed_changes() {
    let mut s = state(vec![("a", false), ("b", false)]);
    s.set_all_running(true);
    assert!(s.files.iter().all(|f| f.file.running));
    s.set_all_running(false);
    assert!(s.files.iter().all(|f| !f.file.running));
    s.files[1].selected = true;
    s.popups.speed.show = true;
    s.set_speed_of_selected(2048);
    assert_eq!(s.files[0].file.speed, 0);
    assert_eq!(s.files[1].file.speed, 2048);
    assert!(!s.popups.speed.show);
}

#[test]
fn select_all_box_follows_files() {
    let mut s = state(vec![("a", false), ("b", false)]);
    s.select.select_all = true;
    s.select_logic();
    assert!(s.files.iter().all(|f| f.selected));
    assert!(s.select.select_all && s.select.initial_state);
    assert_eq!(s.set_selected_by_name("b", false), Some(1));
    s.select_logic();
    assert!(!s.select.select_all && !s.select.initial_state);
    assert!(s.files[0].selected);
    assert_eq!(s.set_selected_by_name("zz", true), None);
    let mut e = state(vec![]);
    e.select.select_all = true;
    e.select_logic();
    assert!(!e.select.select_all);
}

#[test]
fn adding_a_download() {
    let mut s = state(vec![]);
    s.temp_action = Actions::Open;
    s.popups.download.show = true;
    s.popups.download.error = "Initiating...".to_string();
    s.show_window = false;
    s.add_download(file("n.zip", "https://h/n.zip", false));
    assert_eq!(s.files.len(), 1);
    assert!(!s.files[0].has_error && !s.files[0].got_notif && !s.files[0].initial_status);
    assert!(s.show_window);
    assert!(s.files[0].new && s.files[0].action_on_save == Actions::Open);
    assert!(!s.popups.download.show && s.popups.download.error.is_empty());
    assert!(s.temp_action == Actions::Nothing);
    s.popups.download.show = true;
    s.cancel_download_window();
    assert!(!s.popups.download.show);
}

#[test]
fn planning_a_download_logs_its_start() {
    let mut s = state(vec![("a.zip", false), ("b.zip", true)]);
    let step = s.plan_download(0, false, "t".to_string());
    assert!(step.start);
    assert_eq!(s.popups.log.logs[0].text, "Initiating : https://h.org/a.zip");
    let step = s.plan_download(1, false, "t".to_string());
    assert!(!step.start);
    assert_eq!(s.popups.log.logs.len(), 1);
}

#[test]
fn settings_window() {
    let mut s = state(vec![]);
    s.popups.settings.show = true;
    s.popups.settings.temp_str = "abc".to_string();
    assert!(!s.apply_settings_input("t".to_string(), true));
    assert!(s.popups.settings.show);
    assert_eq!(s.popups.settings.error, "invalid digit found in string");
    s.popups.settings.temp_str = "".to_string();
    s.popups.settings.dl_dir = "/tmp".to_string();
    assert!(!s.apply_settings_input("t".to_string(), false));
    assert_eq!(s.popups.settings.error, "Not a valid dir");
    assert!(s.popups.settings.show);
    assert_eq!(s.settings.retry_interval, 5);
    s.popups.settings.temp_str = "30".to_string();
    assert!(s.apply_settings_input("t".to_string(), true));
    assert_eq!(s.settings.retry_interval, 30);
    assert_eq!(s.settings.dl_dir, "/tmp");
    s.settings_saved("t".to_string(), vec![]);
    assert!(!s.popups.settings.show);
    assert_eq!(s.popups.log.logs.last().unwrap().text, "Updated log");
    s.dir_chosen("t".to_string(), None);
    assert_eq!(s.popups.settings.error, "Couldn't accept this dir");
    s.dir_chosen("t".to_string(), Some("/data".to_string()));
    assert_eq!(s.popups.settings.dl_dir, "/data");
    s.settings_failed("t".to_string(), "no".to_string());
    assert_eq!(s.popups.settings.error, "no");
}

#[test]
fn connection_updates() {
    let mut c = Connection::default();
    assert!(!c.connected);
    c.update_connected(Some(true));
    assert!(c.connected);
    c.update_connected(None);
    assert!(c.connected);
    c.update_connected(Some(false));
    assert!(!c.connected);
}

#[test]
fn visible_uses_state_filter() {
    let mut s = state(vec![("b.txt", false), ("a.mp4", false)]);
    assert_eq!(s.visible(), vec![1, 0]);
    s.explorer.select(Category::Texts);
    assert_eq!(s.visible(), vec![0]);
}

#[test]
fn new_state_starts_with_windows_closed() {
    let s = state(vec![("a", false)]);
    assert!(s.show_window);
    assert!(!s.popups.plot.show && !s.popups.speed.show && !s.popups.log.show && !s.popups.settings.show);
    assert!(!s.popups.download.show && !s.popups.error.show && !s.popups.confirm.show);
    assert_eq!(s.bandwidth.total_bandwidth, 0);
    assert!(s.bandwidth.history.is_empty());
    assert!(s.explorer.is_chosen(Category::All) && s.explorer.current.is_empty());
    assert!(s.popups.download.speed.is_empty() && s.popups.download.link.is_empty());
    assert!(s.popups.confirm.text.is_empty() && s.popups.confirm.color == Tone::Plain);
    assert!(s.popups.confirm.task == ConfirmTask::Nothing);
    assert!(s.popups.speed.error.is_empty() && s.popups.speed.temp_val.is_empty());
    assert!(s.popups.settings.error.is_empty() && s.popups.settings.dl_dir.is_empty());
    assert!(s.popups.settings.temp_str.is_empty() && s.popups.log.logs.is_empty());
}

#[test]
fn resume_offsets() {
    assert_eq!(resume_offset(true, 4096), 4096);
    assert_eq!(resume_offset(false, 4096), 0);
    assert_eq!(resume_offset(true, 0), 0);
}
