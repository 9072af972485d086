use seelen_weg::events::WegEvent;
use seelen_weg::policy::FrameCreatorResolution;
use seelen_weg::registry::{CreatorLookup, WindowRegistry};

fn lookup_for(exe: &str) -> CreatorLookup {
    CreatorLookup {
        exe: Some(String::from(exe)),
        icon_path: Some(String::from("C:\\icons\\app.png")),
        shell_path: None,
        missing_icon: String::from("C:\\icons\\missing.png"),
    }
}

#[test]
fn add_builds_entry_with_resolved_data() {
    let mut reg = WindowRegistry::new();
    let event = reg.add_hwnd(
        1,
        String::from("Editor"),
        FrameCreatorResolution::Resolved(9),
        lookup_for("C:\\apps\\editor.exe"),
    );
    match event {
        Some(WegEvent::AddOpenApp(app)) => {
            assert_eq!(app.hwnd, 1);
            assert_eq!(app.title, "Editor");
            assert_eq!(app.exe, "C:\\apps\\editor.exe");
            assert_eq!(app.icon_path, "C:\\icons\\app.png");
            assert_eq!(app.execution_path, "C:\\apps\\editor.exe");
            assert_eq!(app.creator_hwnd, 9);
        }
        other => panic!("expected an added notification, got {:?}", other.is_some()),
    }
    assert_eq!(reg.len(), 1);
}

#[test]
fn adding_same_id_twice_emits_one_notification_and_keeps_size() {
    let mut reg = WindowRegistry::new();
    let first = reg.add_hwnd(
        5,
        String::from("App"),
        FrameCreatorResolution::Resolved(5),
        lookup_for("C:\\apps\\a.exe"),
    );
    let second = reg.add_hwnd(
        5,
        String::from("App"),
        FrameCreatorResolution::Resolved(5),
        lookup_for("C:\\apps\\a.exe"),
    );
    assert!(first.is_some());
    assert!(second.is_none());
    assert_eq!(reg.len(), 1);
}

#[test]
fn adding_id_recorded_as_creator_is_a_no_op() {
    let mut reg = WindowRegistry::new();
    let first = reg.add_hwnd(
        1,
        String::from("Frame"),
        FrameCreatorResolution::Resolved(33),
        lookup_for("C:\\apps\\a.exe"),
    );
    assert!(first.is_some());
    let second = reg.add_hwnd(
        33,
        String::from("Owner"),
        FrameCreatorResolution::Resolved(33),
        lookup_for("C:\\apps\\a.exe"),
    );
    assert!(second.is_none());
    assert_eq!(reg.len(), 1);
}

#[test]
fn add_aborts_when_resolution_reports_no_creator() {
    let mut reg = WindowRegistry::new();
    let event = reg.add_hwnd(
        2,
        String::from("Ghost"),
        FrameCreatorResolution::NoCreator,
        lookup_for("C:\\apps\\g.exe"),
    );
    assert!(event.is_none());
    assert_eq!(reg.len(), 0);
}

#[test]
fn failed_resolution_falls_back_to_window_itself() {
    let mut reg = WindowRegistry::new();
    let event = reg.add_hwnd(
        3,
        String::from("App"),
        FrameCreatorResolution::Failed,
        lookup_for("C:\\apps\\a.exe"),
    );
    match event {
        Some(WegEvent::AddOpenApp(app)) => assert_eq!(app.creator_hwnd, 3),
        _ => panic!("expected an added notification"),
    }
}

#[test]
fn missing_icon_fallback_is_used_when_extraction_failed() {
    let mut reg = WindowRegistry::new();
    let lookup = CreatorLookup {
        exe: Some(String::from("C:\\apps\\a.exe")),
        icon_path: None,
        shell_path: None,
        missing_icon: String::from("C:\\icons\\missing.png"),
    };
    match reg.add_hwnd(4, String::from("App"), FrameCreatorResolution::Resolved(4), lookup) {
        Some(WegEvent::AddOpenApp(app)) => assert_eq!(app.icon_path, "C:\\icons\\missing.png"),
        _ => panic!("expected an added notification"),
    }
}

#[test]
fn packaged_app_uses_shell_path() {
    let mut reg = WindowRegistry::new();
    let lookup = CreatorLookup {
        exe: Some(String::from("C:\\apps\\store.exe")),
        icon_path: Some(String::from("C:\\icons\\s.png")),
        shell_path: Some(String::from("shell:AppsFolder\\Store!App")),
        missing_icon: String::from("C:\\icons\\missing.png"),
    };
    match reg.add_hwnd(6, String::from("Store"), FrameCreatorResolution::Resolved(6), lookup) {
        Some(WegEvent::AddOpenApp(app)) => {
            assert_eq!(app.execution_path, "shell:AppsFolder\\Store!App");
            assert_eq!(app.exe, "C:\\apps\\store.exe");
        }
        _ => panic!("expected an added notification"),
    }
}

#[test]
fn unresolved_executable_uses_fallbacks() {
    let mut reg = WindowRegistry::new();
    let lookup = CreatorLookup {
        exe: None,
        icon_path: Some(String::from("C:\\icons\\unused.png")),
        shell_path: Some(String::from("unused")),
        missing_icon: String::from("C:\\icons\\missing.png"),
    };
    match reg.add_hwnd(7, String::from("App"), FrameCreatorResolution::Resolved(7), lookup) {
        Some(WegEvent::AddOpenApp(app)) => {
            assert_eq!(app.exe, "");
            assert_eq!(app.execution_path, "");
            assert_eq!(app.icon_path, "C:\\icons\\missing.png");
        }
        _ => panic!("expected an added notification"),
    }
}

#[test]
fn update_patches_title_and_reports_entry() {
    let mut reg = WindowRegistry::new();
    reg.add_hwnd(
        1,
        String::from("Old Title"),
        FrameCreatorResolution::Resolved(1),
        lookup_for("C:\\apps\\a.exe"),
    );
    match reg.update_app(1, String::from("New Title")) {
        Some(WegEvent::UpdateOpenAppInfo(app)) => {
            assert_eq!(app.hwnd, 1);
            assert_eq!(app.title, "New Title");
            assert_eq!(app.exe, "C:\\apps\\a.exe");
        }
        _ => panic!("expected an updated notification"),
    }
    let apps = reg.snapshot();
    assert_eq!(apps[0].title, "New Title");
}

#[test]
fn update_of_unknown_id_is_a_no_op() {
    let mut reg = WindowRegistry::new();
    assert!(reg.update_app(99, String::from("X")).is_none());
    assert_eq!(reg.len(), 0);
}

#[test]
fn remove_deletes_entry_and_reports_id() {
    let mut reg = WindowRegistry::new();
    reg.add_hwnd(
        1,
        String::from("A"),
        FrameCreatorResolution::Resolved(1),
        lookup_for("C:\\apps\\a.exe"),
    );
    reg.add_hwnd(
        2,
        String::from("B"),
        FrameCreatorResolution::Resolved(2),
        lookup_for("C:\\apps\\b.exe"),
    );
    match reg.remove_hwnd(1) {
        Some(WegEvent::RemoveOpenApp(id)) => assert_eq!(id, 1),
        _ => panic!("expected a removed notification"),
    }
    assert_eq!(reg.len(), 1);
    let apps = reg.snapshot();
    assert_eq!(apps[0].hwnd, 2);
}

#[test]
fn remove_of_unknown_id_is_a_no_op() {
    let mut reg = WindowRegistry::new();
    reg.add_hwnd(
        1,
        String::from("A"),
        FrameCreatorResolution::Resolved(1),
        lookup_for("C:\\apps\\a.exe"),
    );
    assert!(reg.remove_hwnd(2).is_none());
    assert_eq!(reg.len(), 1);
}

#[test]
fn snapshot_keeps_insertion_order() {
    let mut reg = WindowRegistry::new();
    for (id, title) in [(3, "C"), (1, "A"), (2, "B")] {
        reg.add_hwnd(
            id,
            String::from(title),
            FrameCreatorResolution::Resolved(id),
            lookup_for("C:\\apps\\x.exe"),
        );
    }
    let titles: Vec<String> = reg.snapshot().into_iter().map(|a| a.title).collect();
    assert_eq!(titles, vec!["C", "A", "B"]);
}

#[test]
fn contains_app_sees_ids_and_creators() {
    let mut reg = WindowRegistry::new();
    reg.add_hwnd(
        1,
        String::from("A"),
        FrameCreatorResolution::Resolved(50),
        lookup_for("C:\\apps\\a.exe"),
    );
    assert!(reg.contains_app(1));
    assert!(reg.contains_app(50));
    assert!(!reg.contains_app(2));
}

#[test]
fn bulk_reply_carries_whole_registry() {
    let mut reg = WindowRegistry::new();
    reg.add_hwnd(
        1,
        String::from("A"),
        FrameCreatorResolution::Resolved(1),
        lookup_for("C:\\apps\\a.exe"),
    );
    reg.add_hwnd(
        2,
        String::from("B"),
        FrameCreatorResolution::Resolved(2),
        lookup_for("C:\\apps\\b.exe"),
    );
    match reg.all_open_apps_event() {
        WegEvent::AddMultipleOpenApps(apps) => {
            assert_eq!(apps.len(), 2);
            assert_eq!(apps[0].hwnd, 1);
            assert_eq!(apps[1].hwnd, 2);
        }
        _ => panic!("expected the bulk notification"),
    }
}

#[test]
fn event_names_match_the_wire_protocol() {
    let mut reg = WindowRegistry::new();
    let added = reg
        .add_hwnd(
            1,
            String::from("A"),
            FrameCreatorResolution::Resolved(1),
            lookup_for("C:\\apps\\a.exe"),
        )
        .unwrap();
    assert_eq!(added.event_name(), "add-open-app");
    let updated = reg.update_app(1, String::from("B")).unwrap();
    assert_eq!(updated.event_name(), "update-open-app-info");
    let removed = reg.remove_hwnd(1).unwrap();
    assert_eq!(removed.event_name(), "remove-open-app");
    assert_eq!(reg.all_open_apps_event().event_name(), "add-multiple-open-apps");
}
