use ease_md_core::menu::build_menu;
use ease_md_core::router::{MenuEvent, MenuRouter, PRIMARY_WINDOW};

fn router_with(paths: &[&str]) -> MenuRouter {
    let mut router = MenuRouter::new();
    router.set_recent_menu(paths.iter().map(|p| p.to_string()).collect());
    router
}

#[test]
fn a_new_router_holds_no_recent_file() {
    let router = MenuRouter::new();
    assert!(router.recents().is_empty());
    assert_eq!(router.on_menu_activated("recent:0"), MenuEvent::Action("recent:0".to_string()));
}

#[test]
fn set_recent_menu_replaces_the_list_and_builds_the_menu() {
    let mut router = router_with(&["/old/a.md", "/old/b.md"]);
    let recents = vec!["/new/c.md".to_string()];
    let menu = router.set_recent_menu(recents.clone());
    assert_eq!(router.recents(), &recents);
    assert_eq!(menu, build_menu(&recents));
}

#[test]
fn a_recent_entry_opens_its_file() {
    let router = router_with(&["/a/x.md", "/b/y.md", "/c/z.md"]);
    assert_eq!(router.on_menu_activated("recent:0"), MenuEvent::OpenRecent("/a/x.md".to_string()));
    assert_eq!(router.on_menu_activated("recent:2"), MenuEvent::OpenRecent("/c/z.md".to_string()));
}

#[test]
fn every_built_entry_opens_the_file_it_stands_for() {
    let paths = ["/a/x.md", "/b/y.md", "/c/z.md", "/d/w.md"];
    let mut router = MenuRouter::new();
    let menu = router.set_recent_menu(paths.iter().map(|p| p.to_string()).collect());
    for (index, entry) in menu.open_recent.items.iter().enumerate() {
        assert_eq!(
            router.on_menu_activated(&entry.id),
            MenuEvent::OpenRecent(paths[index].to_string())
        );
    }
}

#[test]
fn an_index_beyond_the_list_opens_nothing() {
    let router = router_with(&["/a/x.md", "/b/y.md"]);
    assert_eq!(router.on_menu_activated("recent:2"), MenuEvent::Action("recent:2".to_string()));
    assert_eq!(router.on_menu_activated("recent:99"), MenuEvent::Action("recent:99".to_string()));
    let huge = "recent:99999999999999999999999999999999";
    assert_eq!(router.on_menu_activated(huge), MenuEvent::Action(huge.to_string()));
}

#[test]
fn the_list_at_dispatch_time_decides() {
    let mut router = router_with(&["/a/x.md", "/b/y.md", "/c/z.md"]);
    assert_eq!(router.on_menu_activated("recent:2"), MenuEvent::OpenRecent("/c/z.md".to_string()));
    router.set_recent_menu(vec!["/n/only.md".to_string()]);
    assert_eq!(router.on_menu_activated("recent:2"), MenuEvent::Action("recent:2".to_string()));
    assert_eq!(router.on_menu_activated("recent:0"), MenuEvent::OpenRecent("/n/only.md".to_string()));
}

#[test]
fn what_is_no_index_passes_through() {
    let router = router_with(&["/a/x.md"]);
    for id in ["recent:", "recent:x", "recent:-1", "recent: 0", "recent:0 ", "Recent:0", "recent", ""] {
        assert_eq!(router.on_menu_activated(id), MenuEvent::Action(id.to_string()));
    }
}

#[test]
fn other_entries_pass_through() {
    let router = router_with(&["/a/x.md"]);
    assert_eq!(router.on_menu_activated("file_save"), MenuEvent::Action("file_save".to_string()));
    assert_eq!(
        router.on_menu_activated("view_toggle_theme"),
        MenuEvent::Action("view_toggle_theme".to_string())
    );
}

#[test]
fn a_signed_or_padded_index_is_an_index() {
    let router = router_with(&["/a/x.md", "/b/y.md"]);
    assert_eq!(router.on_menu_activated("recent:+1"), MenuEvent::OpenRecent("/b/y.md".to_string()));
    assert_eq!(router.on_menu_activated("recent:001"), MenuEvent::OpenRecent("/b/y.md".to_string()));
}

#[test]
fn events_have_a_name_and_a_payload() {
    let open = MenuEvent::OpenRecent("/a/x.md".to_string());
    assert_eq!(open.name(), "menu:open-recent");
    assert_eq!(open.payload(), "/a/x.md");
    let action = MenuEvent::Action("file_new".to_string());
    assert_eq!(action.name(), "menu:action");
    assert_eq!(action.payload(), "file_new");
    assert_eq!(PRIMARY_WINDOW, "main");
}
