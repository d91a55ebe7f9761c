use monight_core::errors::FileError;
use monight_core::launch::OpenRequest;
use monight_core::router::{
    handle_menu_event, emit_event, event_name, menu_id_str, parse_menu_id, route, AppState,
    EmittedEvent, MenuDispatch,
};
use monight_core::menus::MenuId;
use monight_core::windows::{WindowConfig, WindowRegistry};

fn main_window() -> WindowConfig {
    WindowConfig {
        label: "main".to_string(),
        parent: None,
        width: 1024,
        height: 768,
        resizable: true,
        centered: false,
        url: "index.html".to_string(),
    }
}

fn state_with_main() -> AppState {
    AppState {
        registry: WindowRegistry {
            windows: vec![main_window()],
            focused: Some(0),
        },
        emitted: Vec::new(),
        opened_urls: Vec::new(),
    }
}

fn state_without_windows() -> AppState {
    AppState {
        registry: WindowRegistry {
            windows: Vec::new(),
            focused: None,
        },
        emitted: Vec::new(),
        opened_urls: Vec::new(),
    }
}

#[test]
fn known_identifiers_emit_their_events() {
    let cases = [
        ("open", EmittedEvent::MenuOpen),
        ("print", EmittedEvent::MenuPrint),
        ("zoom_in", EmittedEvent::MenuZoomIn),
        ("zoom_out", EmittedEvent::MenuZoomOut),
        ("reset_zoom", EmittedEvent::MenuResetZoom),
        ("toggle_fullscreen", EmittedEvent::MenuToggleFullscreen),
        ("close_tab", EmittedEvent::MenuCloseTab),
    ];
    for (id, event) in cases {
        let mut st = state_with_main();
        handle_menu_event(&mut st, id);
        assert_eq!(st.emitted, vec![event], "for identifier {id}");
        assert!(st.opened_urls.is_empty());
    }
}

#[test]
fn emission_without_main_window_is_dropped() {
    let mut st = state_without_windows();
    handle_menu_event(&mut st, "print");
    assert!(st.emitted.is_empty());
}

#[test]
fn unknown_identifier_is_a_silent_noop() {
    let mut st = state_with_main();
    let before = st.clone();
    handle_menu_event(&mut st, "unknown-id");
    assert_eq!(st, before);
}

#[test]
fn settings_dispatch_is_idempotent() {
    let mut st = state_with_main();
    handle_menu_event(&mut st, "settings");
    assert_eq!(st.registry.windows.len(), 2);
    let settings_count = |st: &AppState| {
        st.registry
            .windows
            .iter()
            .filter(|w| w.label == "settings")
            .count()
    };
    assert_eq!(settings_count(&st), 1);
    assert_eq!(st.registry.focused, Some(1));

    handle_menu_event(&mut st, "settings");
    assert_eq!(st.registry.windows.len(), 2);
    assert_eq!(settings_count(&st), 1);
    assert_eq!(st.registry.focused, Some(1));
}

#[test]
fn settings_window_is_created_with_fixed_shape() {
    let mut st = state_with_main();
    handle_menu_event(&mut st, "settings");
    let w = &st.registry.windows[1];
    assert_eq!(w.label, "settings");
    assert_eq!(w.parent.as_deref(), Some("main"));
    assert_eq!((w.width, w.height), (700, 500));
    assert!(!w.resizable);
    assert!(w.centered);
    assert_eq!(w.url, "settings.html");
}

#[test]
fn open_settings_without_main_window_fails_precondition() {
    let mut registry = WindowRegistry {
        windows: Vec::new(),
        focused: None,
    };
    assert_eq!(registry.open_settings(), Err(FileError::PreconditionError));
    assert!(registry.windows.is_empty());
}

#[test]
fn settings_dispatch_swallows_window_errors() {
    let mut st = state_without_windows();
    let before = st.clone();
    handle_menu_event(&mut st, "settings");
    assert_eq!(st, before);
}

#[test]
fn help_entries_open_their_urls() {
    let cases = [
        ("learn_more", "https://github.com/yourusername/yourrepo"),
        (
            "license",
            "https://github.com/yourusername/yourrepo/blob/master/LICENSE",
        ),
        ("bugs", "https://github.com/yourusername/yourrepo/issues"),
        ("contact", "mailto:your-email@example.com"),
    ];
    for (id, url) in cases {
        let mut st = state_with_main();
        handle_menu_event(&mut st, id);
        assert_eq!(st.opened_urls, vec![url.to_string()], "for identifier {id}");
        assert!(st.emitted.is_empty());
    }
}

#[test]
fn identifier_strings_round_trip() {
    let all = [
        MenuId::Open,
        MenuId::Print,
        MenuId::Settings,
        MenuId::ZoomIn,
        MenuId::ZoomOut,
        MenuId::ResetZoom,
        MenuId::ToggleFullscreen,
        MenuId::CloseTab,
        MenuId::LearnMore,
        MenuId::License,
        MenuId::Bugs,
        MenuId::Contact,
    ];
    for id in all {
        assert_eq!(parse_menu_id(&menu_id_str(id)), Some(id));
    }
}

#[test]
fn every_identifier_routes_somewhere() {
    assert_eq!(
        route(MenuId::Open),
        MenuDispatch::EmitToMain(EmittedEvent::MenuOpen)
    );
    assert_eq!(route(MenuId::Settings), MenuDispatch::OpenSettingsWindow);
    assert!(matches!(
        route(MenuId::LearnMore),
        MenuDispatch::OpenExternal(_)
    ));
}

#[test]
fn event_names_match_the_outbound_contract() {
    let cases = [
        (EmittedEvent::MenuOpen, "menu-open"),
        (EmittedEvent::MenuPrint, "menu-print"),
        (EmittedEvent::MenuZoomIn, "menu-zoom-in"),
        (EmittedEvent::MenuZoomOut, "menu-zoom-out"),
        (EmittedEvent::MenuResetZoom, "menu-reset-zoom"),
        (EmittedEvent::MenuToggleFullscreen, "menu-toggle-fullscreen"),
        (EmittedEvent::MenuCloseTab, "menu-close-tab"),
        (
            EmittedEvent::CliOpenFiles(OpenRequest {
                files: vec!["/a.pdf".to_string()],
                page: Some(1),
            }),
            "cli-open-files",
        ),
    ];
    for (event, name) in cases {
        assert_eq!(event_name(&event), name);
    }
}

#[test]
fn open_request_event_reaches_main_window() {
    let mut st = state_with_main();
    let req = OpenRequest {
        files: vec!["/a.pdf".to_string()],
        page: Some(2),
    };
    emit_event(&mut st, EmittedEvent::CliOpenFiles(req.clone()));
    assert_eq!(st.emitted, vec![EmittedEvent::CliOpenFiles(req)]);
}
