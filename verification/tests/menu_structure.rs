use monight_core::menus::{create_menu, set_action_enabled, set_print_enabled, MenuId, MenuNode, Platform};

const ALL_IDS: [MenuId; 12] = [
    MenuId::Open,
    MenuId::Print,
    MenuId::Settings,
    MenuId::ZoomIn,
    MenuId::ZoomOut,
    MenuId::ResetZoom,
    MenuId::ToggleFullscreen,
    MenuId::CloseTab,
    MenuId::LearnMore,
    MenuId::License,
    MenuId::Bugs,
    MenuId::Contact,
];

fn collect_ids(nodes: &[MenuNode], out: &mut Vec<MenuId>) {
    for node in nodes {
        match node {
            MenuNode::Action { id, .. } => out.push(*id),
            MenuNode::Submenu { children, .. } => collect_ids(children, out),
            _ => {}
        }
    }
}

fn find_action<'a>(nodes: &'a [MenuNode], wanted: MenuId) -> Option<&'a MenuNode> {
    for node in nodes {
        match node {
            MenuNode::Action { id, .. } if *id == wanted => return Some(node),
            MenuNode::Submenu { children, .. } => {
                if let Some(found) = find_action(children, wanted) {
                    return Some(found);
                }
            }
            _ => {}
        }
    }
    None
}

fn submenu_label(node: &MenuNode) -> &str {
    match node {
        MenuNode::Submenu { label, .. } => label,
        _ => panic!("expected a submenu"),
    }
}

#[test]
fn other_platform_menu_reaches_every_identifier() {
    let root = create_menu(Platform::Other);
    let mut ids = Vec::new();
    collect_ids(&root.menus, &mut ids);
    for id in ALL_IDS {
        assert!(ids.contains(&id), "{:?} missing from menu", id);
    }
    assert_eq!(ids.len(), ALL_IDS.len());
}

#[test]
fn macos_menu_reaches_everything_but_close_tab() {
    let root = create_menu(Platform::MacOs);
    let mut ids = Vec::new();
    collect_ids(&root.menus, &mut ids);
    for id in ALL_IDS {
        if id == MenuId::CloseTab {
            assert!(!ids.contains(&id));
        } else {
            assert!(ids.contains(&id), "{:?} missing from menu", id);
        }
    }
}

#[test]
fn macos_menu_opens_with_application_identity_submenu() {
    let root = create_menu(Platform::MacOs);
    assert_eq!(submenu_label(&root.menus[0]), "Monight");
    // settings lives there, not in File
    let file_menu = &root.menus[1];
    assert_eq!(submenu_label(file_menu), "File");
    if let MenuNode::Submenu { children, .. } = file_menu {
        assert!(find_action(children, MenuId::Settings).is_none());
    }
    if let MenuNode::Submenu { children, .. } = &root.menus[0] {
        match find_action(children, MenuId::Settings) {
            Some(MenuNode::Action { shortcut, .. }) => {
                assert_eq!(shortcut.as_deref(), Some("Cmd+,"));
            }
            _ => panic!("settings action missing from application menu"),
        }
    }
}

#[test]
fn other_platform_file_menu_carries_settings() {
    let root = create_menu(Platform::Other);
    let file_menu = &root.menus[0];
    assert_eq!(submenu_label(file_menu), "File");
    if let MenuNode::Submenu { children, .. } = file_menu {
        match find_action(children, MenuId::Settings) {
            Some(MenuNode::Action { shortcut, label, .. }) => {
                assert_eq!(shortcut.as_deref(), Some("Alt+S"));
                assert_eq!(label, "Settings");
            }
            _ => panic!("settings action missing from File menu"),
        }
    }
}

#[test]
fn every_action_starts_enabled() {
    for platform in [Platform::MacOs, Platform::Other] {
        let root = create_menu(platform);
        let mut ids = Vec::new();
        collect_ids(&root.menus, &mut ids);
        for id in ids {
            match find_action(&root.menus, id) {
                Some(MenuNode::Action { enabled, .. }) => assert!(*enabled),
                _ => panic!("{:?} not found", id),
            }
        }
    }
}

#[test]
fn set_print_enabled_greys_out_print_only() {
    let root = create_menu(Platform::Other);
    let updated = set_print_enabled(&root, false);
    match find_action(&updated.menus, MenuId::Print) {
        Some(MenuNode::Action { enabled, .. }) => assert!(!enabled),
        _ => panic!("print action missing"),
    }
    match find_action(&updated.menus, MenuId::Open) {
        Some(MenuNode::Action { enabled, .. }) => assert!(*enabled),
        _ => panic!("open action missing"),
    }
    let restored = set_print_enabled(&updated, true);
    assert_eq!(restored, root);
}

#[test]
fn set_action_enabled_is_noop_for_absent_identifier() {
    let root = create_menu(Platform::MacOs);
    let same = set_action_enabled(&root, MenuId::CloseTab, false);
    assert_eq!(same, root);
}
