use assetto_sync::install_thread::{
    get_download_link, install_summary, Action, Event, InstallThread, Stage,
};
use assetto_sync::template::JsonModTemplate;

fn entry(checksum: &str, filename: &str, size: u64) -> JsonModTemplate {
    JsonModTemplate::new(checksum.to_string(), filename.to_string(), size)
}

fn strings(v: &[&str]) -> Vec<String> {
    v.iter().map(|s| s.to_string()).collect()
}

fn started(tasks: Vec<JsonModTemplate>) -> (InstallThread, Action) {
    let mut t = InstallThread::new(tasks);
    assert_eq!(t.start(), Action::CreateScratch);
    let a = t.handle(Event::ScratchCreated);
    (t, a)
}

#[test]
fn scenario_one_wrong_size_in_three() {
    let (mut t, a) = started(vec![entry("A", "A", 10), entry("B", "B", 20), entry("C", "C", 30)]);
    assert_eq!(a, Action::Download(0));
    assert_eq!(t.handle(Event::Downloaded(10)), Action::Extract(0));
    assert_eq!(t.handle(Event::Extracted), Action::Resolve(0));
    assert_eq!(t.handle(Event::Resolved(2)), Action::Place(0, 0));
    assert_eq!(t.handle(Event::Placed), Action::Place(0, 1));
    assert_eq!(t.handle(Event::Placed), Action::Download(1));
    assert_eq!(t.handle(Event::Downloaded(19)), Action::Download(2));
    assert_eq!(t.handle(Event::Downloaded(30)), Action::Extract(2));
    assert_eq!(t.handle(Event::Extracted), Action::Resolve(2));
    assert_eq!(t.handle(Event::Resolved(1)), Action::Place(2, 0));
    assert_eq!(t.handle(Event::Placed), Action::Stop);
    assert_eq!(t.get_successfully_installed_mods(), strings(&["A", "C"]));
    assert_eq!(t.get_error_list(), strings(&["mod B: size mismatch"]));
    assert!(t.is_finished());
    assert_eq!(t.get_status(), "Finished");
}

#[test]
fn scratch_failure_ends_run_with_one_error() {
    let mut t = InstallThread::new(vec![entry("A", "A", 1), entry("B", "B", 2), entry("C", "C", 3)]);
    t.start();
    let a = t.handle(Event::ScratchFailed("permission denied".to_string()));
    assert_eq!(a, Action::Stop);
    assert!(t.is_finished());
    assert_eq!(t.get_status(), "Finished");
    assert!(t.get_successfully_installed_mods().is_empty());
    assert_eq!(
        t.get_error_list(),
        strings(&["Cannot create download temporary dir, error: permission denied"])
    );
}

#[test]
fn size_mismatch_never_reaches_extraction() {
    let (mut t, _) = started(vec![entry("x1", "first.zip", 100), entry("x2", "second.zip", 5)]);
    let a = t.handle(Event::Downloaded(99));
    assert_ne!(a, Action::Extract(0));
    assert_eq!(a, Action::Download(1));
    assert_eq!(t.get_error_list(), strings(&["mod first.zip: size mismatch"]));
    assert_eq!(t.get_status(), "Downloading mod second.zip (2/2)");
}

#[test]
fn failure_at_every_stage_keeps_going() {
    let (mut t, _) = started(vec![
        entry("m1", "one", 1),
        entry("m2", "two", 2),
        entry("m3", "three", 3),
        entry("m4", "four", 4),
        entry("m5", "five", 5),
    ]);
    assert_eq!(t.handle(Event::DownloadFailed("timeout".to_string())), Action::Download(1));
    assert_eq!(t.handle(Event::Downloaded(2)), Action::Extract(1));
    assert_eq!(t.handle(Event::ExtractFailed("corrupt".to_string())), Action::Download(2));
    t.handle(Event::Downloaded(3));
    t.handle(Event::Extracted);
    assert_eq!(t.handle(Event::ResolveFailed("no content root".to_string())), Action::Download(3));
    t.handle(Event::Downloaded(4));
    t.handle(Event::Extracted);
    t.handle(Event::Resolved(3));
    t.handle(Event::Placed);
    assert_eq!(t.handle(Event::PlaceFailed("busy".to_string())), Action::Download(4));
    t.handle(Event::Downloaded(5));
    t.handle(Event::Extracted);
    t.handle(Event::Resolved(1));
    assert_eq!(t.handle(Event::Placed), Action::Stop);
    assert_eq!(t.get_successfully_installed_mods(), strings(&["m5"]));
    assert_eq!(
        t.get_error_list(),
        strings(&[
            "Mod one, download error: timeout",
            "Mod two, extract error: corrupt",
            "Mod three, resolve error: no content root",
            "Mod four, placement error: busy",
        ])
    );
}

#[test]
fn failed_mod_in_the_middle_leaves_others_in_order() {
    let (mut t, _) = started(vec![entry("a", "a", 1), entry("b", "b", 1), entry("c", "c", 1)]);
    for k in 0..3 {
        t.handle(Event::Downloaded(1));
        t.handle(Event::Extracted);
        if k == 1 {
            t.handle(Event::ResolveFailed("unknown layout".to_string()));
        } else {
            t.handle(Event::Resolved(1));
            t.handle(Event::Placed);
        }
    }
    assert!(t.is_finished());
    assert_eq!(t.get_successfully_installed_mods(), strings(&["a", "c"]));
    assert_eq!(t.get_error_list().len(), 1);
}

#[test]
fn finished_run_stays_finished_and_lists_only_grow() {
    let (mut t, _) = started(vec![entry("a", "a", 1), entry("b", "b", 2)]);
    let events = vec![
        Event::Downloaded(1),
        Event::Extracted,
        Event::Resolved(1),
        Event::Placed,
        Event::Downloaded(7),
    ];
    let mut errors = 0;
    let mut done = 0;
    let mut was_finished = false;
    for e in events {
        assert!(t.expects(&e));
        t.handle(e);
        assert!(t.get_error_list().len() >= errors);
        assert!(t.get_successfully_installed_mods().len() >= done);
        assert!(!was_finished || t.is_finished());
        errors = t.get_error_list().len();
        done = t.get_successfully_installed_mods().len();
        was_finished = t.is_finished();
    }
    assert!(t.is_finished());
    assert_eq!(t.stage, Stage::Finished);
    assert!(!t.expects(&Event::Placed));
    assert!(!t.expects(&Event::ScratchCreated));
    assert!(!t.expects(&Event::Downloaded(1)));
    assert!(t.is_finished());
}

#[test]
fn empty_task_list_finishes_at_once() {
    let (t, a) = started(vec![]);
    assert_eq!(a, Action::Stop);
    assert!(t.is_finished());
    assert_eq!(t.get_status(), "Finished");
    assert!(t.get_error_list().is_empty());
}

#[test]
fn archive_without_instructions_counts_as_installed() {
    let (mut t, _) = started(vec![entry("e", "empty.7z", 0)]);
    t.handle(Event::Downloaded(0));
    t.handle(Event::Extracted);
    assert_eq!(t.handle(Event::Resolved(0)), Action::Stop);
    assert_eq!(t.get_successfully_installed_mods(), strings(&["e"]));
}

#[test]
fn status_texts_follow_the_stages() {
    let mut t = InstallThread::new(vec![entry("a", "car.zip", 4)]);
    assert_eq!(t.get_status(), "");
    t.start();
    assert_eq!(t.get_status(), "starting workers");
    t.handle(Event::ScratchCreated);
    assert_eq!(t.get_status(), "Downloading mod car.zip (1/1)");
    t.handle(Event::Downloaded(4));
    assert_eq!(t.get_status(), "Extracting mod car.zip (1/1)");
    t.handle(Event::Extracted);
    assert_eq!(t.get_status(), "Extracting mod car.zip (1/1)");
    t.handle(Event::Resolved(1));
    assert_eq!(t.get_status(), "Placing mod car.zip (1/1)");
    assert!(!t.is_finished());
}

#[test]
fn status_counts_past_nine() {
    let tasks: Vec<JsonModTemplate> =
        (0..12).map(|i| entry(&format!("h{}", i), &format!("m{}", i), 1)).collect();
    let (mut t, _) = started(tasks);
    for _ in 0..9 {
        t.handle(Event::DownloadFailed("x".to_string()));
    }
    assert_eq!(t.get_status(), "Downloading mod m9 (10/12)");
    assert_eq!(t.handle(Event::Downloaded(1)), Action::Extract(9));
}

#[test]
fn download_link_appends_checksum() {
    let link = get_download_link(&"ddf7cb7a8dd889f3de6b649624a02725".to_string());
    assert_eq!(
        link,
        "https://acsync.team8.pl/mod_management/download?hash=ddf7cb7a8dd889f3de6b649624a02725"
    );
}

#[test]
fn summary_without_errors() {
    assert_eq!(install_summary(3, &vec![]), "3 mods installed successfully.");
}

#[test]
fn summary_lists_errors_one_per_line() {
    let errors = strings(&["mod B: size mismatch", "Mod D, extract error: corrupt"]);
    assert_eq!(
        install_summary(12, &errors),
        "12 mods installed successfully.\nErrors:\nmod B: size mismatch\nMod D, extract error: corrupt\n"
    );
}
