use filefox::action::{Action, Event, Failure};
use filefox::browser::{MyExplorerApp, RenameIntent};
use filefox::entry::{DirItem, Entry, EntryKind, IoError};
use filefox::path::{DirectoryPath, PathPart};
use filefox::session::{Delivery, SessionStatus};

fn dir(names: &[&str]) -> DirectoryPath {
    DirectoryPath {
        anchor: "/".to_string(),
        parts: names.iter().map(|name| PathPart::Normal(name.to_string())).collect(),
    }
}

fn item(name: &str, is_dir: bool) -> DirItem {
    DirItem::Found { name: name.to_string(), is_dir }
}

fn entry_names(app: &MyExplorerApp) -> Vec<String> {
    app.entries().iter().map(|entry| entry.name.clone()).collect()
}

/// A session at /home/user showing a.txt, b.txt and the directory sub.
fn browsing() -> MyExplorerApp {
    let mut app = MyExplorerApp::new(dir(&["home", "user"]));
    let action = app.read_current_directory_entries(Ok(vec![
        item("sub", true),
        item("b.txt", false),
        item("a.txt", false),
    ]));
    assert_eq!(action, Action::Idle);
    app
}

fn search_for(app: &mut MyExplorerApp, query: &str) -> Action {
    app.set_search_query(query.to_string());
    app.execute_search()
}

fn handle_of(action: &Action) -> u64 {
    match action {
        Action::StartWalk { handle, .. } => *handle,
        other => panic!("no walk was started: {:?}", other),
    }
}

#[test]
fn new_session_is_empty() {
    let app = MyExplorerApp::new(dir(&["home"]));
    assert_eq!(app.current_dir(), &dir(&["home"]));
    assert!(app.entries().is_empty());
    assert_eq!(app.recursive_search_results(), &None);
    assert_eq!(app.rename_mode(), &None);
    assert!(!app.show_search_popup());
    assert_eq!(app.search_query(), "");
    assert_eq!(app.session(), &None);
    assert!(!app.is_searching());
    assert_eq!(app.active_handle(), None);
}

#[test]
fn default_session_starts_at_the_empty_path() {
    let app = MyExplorerApp::default();
    assert_eq!(app.current_dir(), &DirectoryPath::new(String::new()));
    assert!(app.entries().is_empty());
    assert!(!app.is_searching());
}

#[test]
fn directory_read_shows_the_sorted_listing() {
    let app = browsing();
    assert_eq!(
        app.entries(),
        &vec![
            Entry { name: "a.txt".to_string(), kind: EntryKind::File },
            Entry { name: "b.txt".to_string(), kind: EntryKind::File },
            Entry { name: "sub".to_string(), kind: EntryKind::Directory },
        ]
    );
}

#[test]
fn failed_directory_read_empties_the_listing_and_reports() {
    let mut app = browsing();
    let action = app.read_current_directory_entries(Err(IoError::PermissionDenied));
    assert_eq!(action, Action::Report { failure: Failure::Listing(IoError::PermissionDenied) });
    assert!(app.entries().is_empty());
    assert_eq!(app.current_dir(), &dir(&["home", "user"]));
}

#[test]
fn directory_read_leaves_a_running_search_alone() {
    let mut app = browsing();
    let started = search_for(&mut app, "a");
    let handle = handle_of(&started);
    app.read_current_directory_entries(Ok(vec![item("z", false)]));
    assert!(app.is_searching());
    assert_eq!(app.active_handle(), Some(handle));
    assert_eq!(entry_names(&app), vec!["z"]);
}

#[test]
fn directory_read_ends_a_rename_in_progress() {
    let mut app = browsing();
    app.begin_rename(0);
    assert!(app.rename_mode().is_some());
    app.read_current_directory_entries(Ok(vec![item("a.txt", false)]));
    assert_eq!(app.rename_mode(), &None);
}

#[test]
fn navigate_to_enters_a_directory() {
    let mut app = browsing();
    let action = app.navigate_to("sub", true);
    assert_eq!(action, Action::ReadDirectory { path: dir(&["home", "user", "sub"]) });
    assert_eq!(app.current_dir(), &dir(&["home", "user", "sub"]));
    assert!(app.entries().is_empty());
    app.read_current_directory_entries(Ok(vec![item("inner.txt", false)]));
    assert_eq!(entry_names(&app), vec!["inner.txt"]);
}

#[test]
fn navigate_to_ignores_what_is_no_directory() {
    let mut app = browsing();
    let action = app.navigate_to("a.txt", false);
    assert_eq!(action, Action::Idle);
    assert_eq!(app.current_dir(), &dir(&["home", "user"]));
    assert_eq!(entry_names(&app), vec!["a.txt", "b.txt", "sub"]);
}

#[test]
fn navigate_up_pops_one_component() {
    let mut app = browsing();
    let action = app.navigate_up();
    assert_eq!(action, Action::ReadDirectory { path: dir(&["home"]) });
    assert_eq!(app.current_dir(), &dir(&["home"]));
    assert!(app.entries().is_empty());
}

#[test]
fn navigate_up_stops_at_the_root() {
    let mut app = MyExplorerApp::new(dir(&[]));
    app.read_current_directory_entries(Ok(vec![item("home", true)]));
    let action = app.navigate_up();
    assert_eq!(action, Action::Idle);
    assert_eq!(app.current_dir(), &dir(&[]));
    assert_eq!(entry_names(&app), vec!["home"]);
}

#[test]
fn navigation_discards_the_search() {
    let mut app = browsing();
    let started = search_for(&mut app, "txt");
    let handle = handle_of(&started);
    assert!(app.is_searching());
    app.navigate_to("sub", true);
    assert!(!app.is_searching());
    assert_eq!(app.active_handle(), None);
    assert_eq!(app.session().as_ref().map(|s| s.status()), Some(SessionStatus::Cancelled));
    app.poll_search(handle, Delivery::Ready(vec![dir(&["home", "user", "a.txt"])]));
    assert_eq!(app.recursive_search_results(), &None);
}

#[test]
fn navigation_takes_results_off_display() {
    let mut app = browsing();
    let handle = handle_of(&search_for(&mut app, "txt"));
    app.poll_search(handle, Delivery::Ready(vec![dir(&["home", "user", "a.txt"])]));
    assert!(app.recursive_search_results().is_some());
    app.navigate_up();
    assert_eq!(app.recursive_search_results(), &None);
}

#[test]
fn empty_query_starts_no_search() {
    let mut app = browsing();
    let action = search_for(&mut app, "");
    assert_eq!(action, Action::Idle);
    assert!(!app.is_searching());
    assert_eq!(app.session(), &None);
    assert_eq!(app.recursive_search_results(), &None);
    assert_eq!(entry_names(&app), vec!["a.txt", "b.txt", "sub"]);
}

#[test]
fn empty_query_gives_up_a_running_search() {
    let mut app = browsing();
    let handle = handle_of(&search_for(&mut app, "txt"));
    let action = search_for(&mut app, "");
    assert_eq!(action, Action::Idle);
    assert!(!app.is_searching());
    app.poll_search(handle, Delivery::Ready(vec![dir(&["x"])]));
    assert_eq!(app.recursive_search_results(), &None);
}

#[test]
fn execute_search_lowercases_the_query() {
    let mut app = browsing();
    let action = search_for(&mut app, "RePort");
    assert_eq!(
        action,
        Action::StartWalk {
            handle: 0,
            start: dir(&["home", "user"]),
            query_lower: "report".to_string(),
        }
    );
    assert!(app.is_searching());
    assert_eq!(app.active_handle(), Some(0));
    assert_eq!(app.search_query(), "RePort");
    assert_eq!(app.session().as_ref().map(|s| s.query().clone()), Some("report".to_string()));
}

#[test]
fn execute_search_clears_results_on_display() {
    let mut app = browsing();
    let first = handle_of(&search_for(&mut app, "a"));
    app.poll_search(first, Delivery::Ready(vec![dir(&["home", "user", "a.txt"])]));
    assert!(app.recursive_search_results().is_some());
    search_for(&mut app, "b");
    assert_eq!(app.recursive_search_results(), &None);
    assert!(app.is_searching());
}

#[test]
fn search_handles_are_never_reused() {
    let mut app = browsing();
    let a = handle_of(&search_for(&mut app, "a"));
    let b = handle_of(&search_for(&mut app, "b"));
    let c = handle_of(&search_for(&mut app, "c"));
    assert_eq!((a, b, c), (0, 1, 2));
}

#[test]
fn poll_shows_the_delivered_result() {
    let mut app = browsing();
    let handle = handle_of(&search_for(&mut app, "txt"));
    assert!(!app.poll_search(handle, Delivery::Pending));
    assert!(app.is_searching());
    assert_eq!(app.recursive_search_results(), &None);
    let result = vec![dir(&["home", "user", "b.txt"]), dir(&["home", "user", "a.txt"])];
    assert!(app.poll_search(handle, Delivery::Ready(result.clone())));
    assert!(!app.is_searching());
    assert_eq!(app.recursive_search_results(), &Some(result));
    assert_eq!(app.session().as_ref().map(|s| s.status()), Some(SessionStatus::Delivered));
}

#[test]
fn poll_after_delivery_delivers_nothing_more() {
    let mut app = browsing();
    let handle = handle_of(&search_for(&mut app, "txt"));
    let result = vec![dir(&["home", "user", "a.txt"])];
    assert!(app.poll_search(handle, Delivery::Ready(result.clone())));
    assert!(!app.poll_search(handle, Delivery::Ready(vec![dir(&["other"])])));
    assert_eq!(app.recursive_search_results(), &Some(result.clone()));
    assert!(!app.poll_search(handle, Delivery::Disconnected));
    assert!(!app.poll_search(handle, Delivery::Pending));
    assert_eq!(app.recursive_search_results(), &Some(result));
    assert!(!app.is_searching());
}

#[test]
fn disconnected_worker_counts_as_no_results() {
    let mut app = browsing();
    let handle = handle_of(&search_for(&mut app, "txt"));
    assert!(app.poll_search(handle, Delivery::Disconnected));
    assert!(!app.is_searching());
    assert_eq!(app.recursive_search_results(), &Some(vec![]));
}

#[test]
fn superseded_search_cannot_overwrite_the_new_one() {
    let mut app = browsing();
    let a = handle_of(&search_for(&mut app, "alpha"));
    let b = handle_of(&search_for(&mut app, "beta"));
    assert_ne!(a, b);
    assert_eq!(app.active_handle(), Some(b));

    // A's worker finishes after B was started: dropped.
    assert!(!app.poll_search(a, Delivery::Ready(vec![dir(&["alpha"])])));
    assert!(app.is_searching());
    assert_eq!(app.recursive_search_results(), &None);

    assert!(app.poll_search(b, Delivery::Ready(vec![dir(&["beta"])])));
    assert_eq!(app.recursive_search_results(), &Some(vec![dir(&["beta"])]));

    // And A's worker finishing after B's delivery changes nothing either.
    assert!(!app.poll_search(a, Delivery::Ready(vec![dir(&["alpha"])])));
    assert!(!app.poll_search(a, Delivery::Disconnected));
    assert_eq!(app.recursive_search_results(), &Some(vec![dir(&["beta"])]));
}

#[test]
fn poll_under_an_unknown_handle_changes_nothing() {
    let mut app = browsing();
    assert!(!app.poll_search(0, Delivery::Ready(vec![dir(&["x"])])));
    assert_eq!(app.recursive_search_results(), &None);
    let handle = handle_of(&search_for(&mut app, "txt"));
    assert!(!app.poll_search(handle + 1, Delivery::Ready(vec![dir(&["x"])])));
    assert!(app.is_searching());
    assert_eq!(app.recursive_search_results(), &None);
}

#[test]
fn cancel_search_gives_up_and_closes_the_popup() {
    let mut app = browsing();
    app.open_search_popup();
    assert!(app.show_search_popup());
    let handle = handle_of(&search_for(&mut app, "txt"));
    app.cancel_search();
    assert!(!app.show_search_popup());
    assert!(!app.is_searching());
    assert_eq!(app.recursive_search_results(), &None);
    app.poll_search(handle, Delivery::Ready(vec![dir(&["x"])]));
    assert_eq!(app.recursive_search_results(), &None);
}

#[test]
fn search_popup_opens_with_an_empty_query() {
    let mut app = browsing();
    app.set_search_query("old".to_string());
    app.open_search_popup();
    assert!(app.show_search_popup());
    assert_eq!(app.search_query(), "");
    assert_eq!(app.recursive_search_results(), &None);
}

#[test]
fn submit_search_starts_and_closes_the_popup() {
    let mut app = browsing();
    app.open_search_popup();
    app.set_search_query("Txt".to_string());
    let action = app.submit_search();
    assert_eq!(
        action,
        Action::StartWalk { handle: 0, start: dir(&["home", "user"]), query_lower: "txt".to_string() }
    );
    assert!(!app.show_search_popup());
    assert!(app.is_searching());
}

#[test]
fn submit_search_is_ignored_while_searching() {
    let mut app = browsing();
    app.open_search_popup();
    app.set_search_query("one".to_string());
    let first = handle_of(&app.submit_search());
    app.open_search_popup();
    app.set_search_query("two".to_string());
    assert_eq!(app.submit_search(), Action::Idle);
    assert!(app.show_search_popup());
    assert_eq!(app.active_handle(), Some(first));
}

#[test]
fn rename_failure_changes_nothing() {
    // a.txt is to become b.txt, which exists: the filesystem refuses.
    let mut app = browsing();
    app.begin_rename(0);
    app.set_rename_input("b.txt".to_string());
    let request = app.confirm_rename();
    assert_eq!(
        request,
        Action::Rename {
            dir: dir(&["home", "user"]),
            old_name: "a.txt".to_string(),
            new_name: "b.txt".to_string(),
        }
    );
    let action = app.rename_entry(Err(IoError::AlreadyExists));
    assert_eq!(action, Action::Report { failure: Failure::Rename(IoError::AlreadyExists) });
    assert_eq!(entry_names(&app), vec!["a.txt", "b.txt", "sub"]);
    assert_eq!(app.current_dir(), &dir(&["home", "user"]));
}

#[test]
fn rename_success_asks_for_a_reload() {
    let mut app = browsing();
    let action = app.rename_entry(Ok(()));
    assert_eq!(action, Action::ReadDirectory { path: dir(&["home", "user"]) });
    app.read_current_directory_entries(Ok(vec![
        item("sub", true),
        item("b.txt", false),
        item("c.txt", false),
    ]));
    assert_eq!(entry_names(&app), vec!["b.txt", "c.txt", "sub"]);
}

#[test]
fn delete_of_a_directory_reloads_without_it() {
    let mut app = browsing();
    let request = app.request_delete(2);
    assert_eq!(request, Action::Delete { dir: dir(&["home", "user"]), name: "sub".to_string() });
    let action = app.delete_entry(Ok(()));
    assert_eq!(action, Action::ReadDirectory { path: dir(&["home", "user"]) });
    app.read_current_directory_entries(Ok(vec![item("b.txt", false), item("a.txt", false)]));
    assert_eq!(entry_names(&app), vec!["a.txt", "b.txt"]);
    assert!(!entry_names(&app).contains(&"sub".to_string()));
}

#[test]
fn delete_failure_is_reported() {
    let app = browsing();
    assert_eq!(
        app.delete_entry(Err(IoError::NotFound)),
        Action::Report { failure: Failure::Delete(IoError::NotFound) }
    );
    assert_eq!(
        app.delete_entry(Err(IoError::Other)),
        Action::Report { failure: Failure::Delete(IoError::Other) }
    );
    assert_eq!(entry_names(&app), vec!["a.txt", "b.txt", "sub"]);
}

#[test]
fn mutation_reload_keeps_the_search() {
    let mut app = browsing();
    let handle = handle_of(&search_for(&mut app, "txt"));
    let action = app.delete_entry(Ok(()));
    assert_eq!(action, Action::ReadDirectory { path: dir(&["home", "user"]) });
    app.read_current_directory_entries(Ok(vec![item("a.txt", false)]));
    assert_eq!(app.active_handle(), Some(handle));
}

#[test]
fn rename_editor_opens_on_the_entry_name() {
    let mut app = browsing();
    app.begin_rename(1);
    assert_eq!(
        app.rename_mode(),
        &Some(RenameIntent { target: "b.txt".to_string(), proposed: "b.txt".to_string() })
    );
    app.set_rename_input("c.txt".to_string());
    assert_eq!(
        app.rename_mode(),
        &Some(RenameIntent { target: "b.txt".to_string(), proposed: "c.txt".to_string() })
    );
    app.cancel_rename();
    assert_eq!(app.rename_mode(), &None);
}

#[test]
fn rename_with_empty_name_only_closes_the_editor() {
    let mut app = browsing();
    app.begin_rename(0);
    app.set_rename_input(String::new());
    assert_eq!(app.confirm_rename(), Action::Idle);
    assert_eq!(app.rename_mode(), &None);
}

#[test]
fn rename_gestures_without_editor_do_nothing() {
    let mut app = browsing();
    app.set_rename_input("x".to_string());
    assert_eq!(app.rename_mode(), &None);
    assert_eq!(app.confirm_rename(), Action::Idle);
    app.begin_rename(3);
    assert_eq!(app.rename_mode(), &None);
}

#[test]
fn activating_an_entry_probes_directories_and_opens_files() {
    let app = browsing();
    assert_eq!(
        app.activate_entry(2),
        Action::ProbeEntry { name: "sub".to_string(), path: dir(&["home", "user", "sub"]) }
    );
    assert_eq!(app.activate_entry(0), Action::OpenFile { path: dir(&["home", "user", "a.txt"]) });
    assert_eq!(app.activate_entry(3), Action::Idle);
}

#[test]
fn directory_gestures_are_ignored_while_results_are_shown() {
    let mut app = browsing();
    let handle = handle_of(&search_for(&mut app, "txt"));
    app.poll_search(handle, Delivery::Ready(vec![dir(&["home", "user", "a.txt"])]));
    assert_eq!(app.activate_entry(0), Action::Idle);
    assert_eq!(app.request_delete(0), Action::Idle);
    app.begin_rename(0);
    assert_eq!(app.rename_mode(), &None);
}

#[test]
fn search_result_file_is_opened_and_results_stay() {
    let mut app = browsing();
    let handle = handle_of(&search_for(&mut app, "txt"));
    let result = vec![dir(&["home", "user", "a.txt"]), dir(&["home", "user", "sub"])];
    app.poll_search(handle, Delivery::Ready(result.clone()));
    assert_eq!(app.activate_result(0), Action::ProbeResult { path: result[0].clone() });
    assert_eq!(app.reveal_result(1), Action::Reveal { path: result[1].clone() });
    assert_eq!(app.activate_result(2), Action::Idle);
    assert_eq!(app.reveal_result(2), Action::Idle);
    let action = app.open_search_result(result[0].clone(), false);
    assert_eq!(action, Action::OpenFile { path: result[0].clone() });
    assert_eq!(app.recursive_search_results(), &Some(result));
    assert_eq!(app.current_dir(), &dir(&["home", "user"]));
}

#[test]
fn search_result_directory_is_entered() {
    let mut app = browsing();
    let handle = handle_of(&search_for(&mut app, "sub"));
    let result = vec![dir(&["home", "user", "sub"])];
    app.poll_search(handle, Delivery::Ready(result.clone()));
    let action = app.open_search_result(result[0].clone(), true);
    assert_eq!(action, Action::ReadDirectory { path: result[0].clone() });
    assert_eq!(app.current_dir(), &result[0]);
    assert_eq!(app.recursive_search_results(), &None);
    assert!(app.entries().is_empty());
}

#[test]
fn result_gestures_without_results_do_nothing() {
    let app = browsing();
    assert_eq!(app.activate_result(0), Action::Idle);
    assert_eq!(app.reveal_result(0), Action::Idle);
}

#[test]
fn update_runs_a_whole_navigation() {
    let mut app = browsing();
    let probe = app.update(Event::EntryActivated { index: 2 });
    assert_eq!(
        probe,
        Action::ProbeEntry { name: "sub".to_string(), path: dir(&["home", "user", "sub"]) }
    );
    let read = app.update(Event::EntryProbed { name: "sub".to_string(), is_dir: true });
    assert_eq!(read, Action::ReadDirectory { path: dir(&["home", "user", "sub"]) });
    let done = app.update(Event::DirectoryRead { read: Ok(vec![item("n", false), item("m", true)]) });
    assert_eq!(done, Action::Idle);
    assert_eq!(entry_names(&app), vec!["m", "n"]);
    let up = app.update(Event::UpPressed);
    assert_eq!(up, Action::ReadDirectory { path: dir(&["home", "user"]) });
    assert_eq!(app.current_dir(), &dir(&["home", "user"]));
}

#[test]
fn update_runs_a_whole_rename() {
    let mut app = browsing();
    assert_eq!(app.update(Event::RenamePressed { index: 0 }), Action::Idle);
    assert_eq!(app.update(Event::RenameEdited { text: "z.txt".to_string() }), Action::Idle);
    let request = app.update(Event::RenameConfirmed);
    assert_eq!(
        request,
        Action::Rename {
            dir: dir(&["home", "user"]),
            old_name: "a.txt".to_string(),
            new_name: "z.txt".to_string(),
        }
    );
    assert_eq!(app.rename_mode(), &None);
    let reload = app.update(Event::RenameFinished { outcome: Ok(()) });
    assert_eq!(reload, Action::ReadDirectory { path: dir(&["home", "user"]) });
    let failed = app.update(Event::RenameFinished { outcome: Err(IoError::PermissionDenied) });
    assert_eq!(failed, Action::Report { failure: Failure::Rename(IoError::PermissionDenied) });
    app.update(Event::RenamePressed { index: 1 });
    assert_eq!(app.update(Event::RenameCancelled), Action::Idle);
    assert_eq!(app.rename_mode(), &None);
}

#[test]
fn update_runs_a_whole_delete() {
    let mut app = browsing();
    let request = app.update(Event::DeletePressed { index: 2 });
    assert_eq!(request, Action::Delete { dir: dir(&["home", "user"]), name: "sub".to_string() });
    let reload = app.update(Event::DeleteFinished { outcome: Ok(()) });
    assert_eq!(reload, Action::ReadDirectory { path: dir(&["home", "user"]) });
    let failed = app.update(Event::DeleteFinished { outcome: Err(IoError::NotFound) });
    assert_eq!(failed, Action::Report { failure: Failure::Delete(IoError::NotFound) });
    let listing = app.update(Event::DirectoryRead { read: Err(IoError::NotFound) });
    assert_eq!(listing, Action::Report { failure: Failure::Listing(IoError::NotFound) });
    assert!(app.entries().is_empty());
}

#[test]
fn update_runs_a_whole_search() {
    let mut app = browsing();
    assert_eq!(app.update(Event::SearchPressed), Action::Idle);
    assert!(app.show_search_popup());
    assert_eq!(app.update(Event::QueryEdited { text: "TXT".to_string() }), Action::Idle);
    let walk = app.update(Event::SearchSubmitted);
    let handle = handle_of(&walk);
    assert_eq!(
        walk,
        Action::StartWalk { handle, start: dir(&["home", "user"]), query_lower: "txt".to_string() }
    );
    assert!(!app.show_search_popup());
    assert_eq!(app.update(Event::SearchPolled { handle, delivery: Delivery::Pending }), Action::Idle);
    assert!(app.is_searching());
    let result = vec![dir(&["home", "user", "a.txt"]), dir(&["home", "user", "sub"])];
    app.update(Event::SearchPolled { handle, delivery: Delivery::Ready(result.clone()) });
    assert_eq!(app.recursive_search_results(), &Some(result.clone()));

    assert_eq!(
        app.update(Event::ResultRevealed { index: 0 }),
        Action::Reveal { path: result[0].clone() }
    );
    assert_eq!(
        app.update(Event::ResultActivated { index: 1 }),
        Action::ProbeResult { path: result[1].clone() }
    );
    let open = app.update(Event::ResultProbed { path: result[0].clone(), is_dir: false });
    assert_eq!(open, Action::OpenFile { path: result[0].clone() });
    let enter = app.update(Event::ResultProbed { path: result[1].clone(), is_dir: true });
    assert_eq!(enter, Action::ReadDirectory { path: result[1].clone() });
    assert_eq!(app.recursive_search_results(), &None);
}

#[test]
fn update_cancels_a_search() {
    let mut app = browsing();
    app.update(Event::SearchPressed);
    app.update(Event::QueryEdited { text: "x".to_string() });
    let handle = handle_of(&app.update(Event::SearchSubmitted));
    assert_eq!(app.update(Event::SearchCancelled), Action::Idle);
    assert!(!app.is_searching());
    app.update(Event::SearchPolled { handle, delivery: Delivery::Ready(vec![dir(&["x"])]) });
    assert_eq!(app.recursive_search_results(), &None);
}

#[test]
fn update_with_empty_query_stays_browsing() {
    let mut app = browsing();
    app.update(Event::SearchPressed);
    let action = app.update(Event::SearchSubmitted);
    assert_eq!(action, Action::Idle);
    assert!(!app.is_searching());
    assert_eq!(app.recursive_search_results(), &None);
    assert_eq!(app.session(), &None);
    assert!(!app.show_search_popup());
    assert_eq!(entry_names(&app), vec!["a.txt", "b.txt", "sub"]);
}
