//! Routing of menu selections: the native layer reports an identifier
//! string; the router maps it into the closed vocabulary and performs the
//! matching action — an event to the main window, the settings-window
//! lifecycle operation, or a best-effort external link.
//!
//! Side effects exist here only as changes to the `AppState` value: the
//! window registry, the log of events emitted to the main window, and the
//! log of external URLs opened.  The binary around the library replays
//! those changes against the real collaborators.

use vstd::prelude::*;
use crate::launch::OpenRequest;
use crate::menus::{MenuId, Platform, MenuNodeV, menu_spec, nodes_have_action, node_has_action,
    lemma_nodes_have_action_index, lemma_nodes_have_action_witness, app_menu_children,
    file_menu_children, edit_menu_children, view_menu_children, help_menu_children};
use crate::windows::{WindowRegistry, main_present, open_settings_post, find_label_exec};
use crate::text::str_eq;

verus! {

/// An event forwarded to the main window, named for the payload the
/// presentation layer expects.
#[derive(Debug, Clone, PartialEq, Eq)]
pub enum EmittedEvent {
    MenuOpen,
    MenuPrint,
    MenuZoomIn,
    MenuZoomOut,
    MenuResetZoom,
    MenuToggleFullscreen,
    MenuCloseTab,
    CliOpenFiles(OpenRequest),
}

/// The outbound name of an event.
pub open spec fn event_name_spec(ev: EmittedEvent) -> Seq<char> {
    match ev {
        EmittedEvent::MenuOpen => "menu-open"@,
        EmittedEvent::MenuPrint => "menu-print"@,
        EmittedEvent::MenuZoomIn => "menu-zoom-in"@,
        EmittedEvent::MenuZoomOut => "menu-zoom-out"@,
        EmittedEvent::MenuResetZoom => "menu-reset-zoom"@,
        EmittedEvent::MenuToggleFullscreen => "menu-toggle-fullscreen"@,
        EmittedEvent::MenuCloseTab => "menu-close-tab"@,
        EmittedEvent::CliOpenFiles(_) => "cli-open-files"@,
    }
}

/// The outbound name of an event.
pub fn event_name(ev: &EmittedEvent) -> (r: String)
    ensures
        r@ == event_name_spec(*ev),
{
    match ev {
        EmittedEvent::MenuOpen => String::from_str("menu-open"),
        EmittedEvent::MenuPrint => String::from_str("menu-print"),
        EmittedEvent::MenuZoomIn => String::from_str("menu-zoom-in"),
        EmittedEvent::MenuZoomOut => String::from_str("menu-zoom-out"),
        EmittedEvent::MenuResetZoom => String::from_str("menu-reset-zoom"),
        EmittedEvent::MenuToggleFullscreen => String::from_str("menu-toggle-fullscreen"),
        EmittedEvent::MenuCloseTab => String::from_str("menu-close-tab"),
        EmittedEvent::CliOpenFiles(_) => String::from_str("cli-open-files"),
    }
}

/// The fixed external destinations of the Help submenu.
#[derive(Clone, Copy, PartialEq, Eq, Structural, Debug)]
pub enum ExternalSite {
    Repository,
    LicensePage,
    IssueTracker,
    ContactEmail,
}

/// The URL of an external destination.
pub open spec fn site_url_spec(site: ExternalSite) -> Seq<char> {
    match site {
        ExternalSite::Repository => "https://github.com/yourusername/yourrepo"@,
        ExternalSite::LicensePage => "https://github.com/yourusername/yourrepo/blob/master/LICENSE"@,
        ExternalSite::IssueTracker => "https://github.com/yourusername/yourrepo/issues"@,
        ExternalSite::ContactEmail => "mailto:your-email@example.com"@,
    }
}

/// The URL of an external destination.
pub fn site_url(site: ExternalSite) -> (r: String)
    ensures
        r@ == site_url_spec(site),
{
    match site {
        ExternalSite::Repository => String::from_str("https://github.com/yourusername/yourrepo"),
        ExternalSite::LicensePage => String::from_str(
            "https://github.com/yourusername/yourrepo/blob/master/LICENSE",
        ),
        ExternalSite::IssueTracker => String::from_str(
            "https://github.com/yourusername/yourrepo/issues",
        ),
        ExternalSite::ContactEmail => String::from_str("mailto:your-email@example.com"),
    }
}

/// What dispatching one identifier does.
#[derive(Debug, Clone, PartialEq, Eq)]
pub enum MenuDispatch {
    EmitToMain(EmittedEvent),
    OpenSettingsWindow,
    OpenExternal(ExternalSite),
}

/// The routing table, total over the closed vocabulary: zoom, print,
/// open, close-tab and fullscreen go to the main window as events,
/// settings goes to the window lifecycle, the Help entries go to the
/// external URL opener.
pub open spec fn route_spec(id: MenuId) -> MenuDispatch {
    match id {
        MenuId::Open => MenuDispatch::EmitToMain(EmittedEvent::MenuOpen),
        MenuId::Print => MenuDispatch::EmitToMain(EmittedEvent::MenuPrint),
        MenuId::Settings => MenuDispatch::OpenSettingsWindow,
        MenuId::ZoomIn => MenuDispatch::EmitToMain(EmittedEvent::MenuZoomIn),
        MenuId::ZoomOut => MenuDispatch::EmitToMain(EmittedEvent::MenuZoomOut),
        MenuId::ResetZoom => MenuDispatch::EmitToMain(EmittedEvent::MenuResetZoom),
        MenuId::ToggleFullscreen => MenuDispatch::EmitToMain(EmittedEvent::MenuToggleFullscreen),
        MenuId::CloseTab => MenuDispatch::EmitToMain(EmittedEvent::MenuCloseTab),
        MenuId::LearnMore => MenuDispatch::OpenExternal(ExternalSite::Repository),
        MenuId::License => MenuDispatch::OpenExternal(ExternalSite::LicensePage),
        MenuId::Bugs => MenuDispatch::OpenExternal(ExternalSite::IssueTracker),
        MenuId::Contact => MenuDispatch::OpenExternal(ExternalSite::ContactEmail),
    }
}

/// The routing table.
pub fn route(id: MenuId) -> (r: MenuDispatch)
    ensures
        r == route_spec(id),
{
    match id {
        MenuId::Open => MenuDispatch::EmitToMain(EmittedEvent::MenuOpen),
        MenuId::Print => MenuDispatch::EmitToMain(EmittedEvent::MenuPrint),
        MenuId::Settings => MenuDispatch::OpenSettingsWindow,
        MenuId::ZoomIn => MenuDispatch::EmitToMain(EmittedEvent::MenuZoomIn),
        MenuId::ZoomOut => MenuDispatch::EmitToMain(EmittedEvent::MenuZoomOut),
        MenuId::ResetZoom => MenuDispatch::EmitToMain(EmittedEvent::MenuResetZoom),
        MenuId::ToggleFullscreen => MenuDispatch::EmitToMain(EmittedEvent::MenuToggleFullscreen),
        MenuId::CloseTab => MenuDispatch::EmitToMain(EmittedEvent::MenuCloseTab),
        MenuId::LearnMore => MenuDispatch::OpenExternal(ExternalSite::Repository),
        MenuId::License => MenuDispatch::OpenExternal(ExternalSite::LicensePage),
        MenuId::Bugs => MenuDispatch::OpenExternal(ExternalSite::IssueTracker),
        MenuId::Contact => MenuDispatch::OpenExternal(ExternalSite::ContactEmail),
    }
}

/// The string form of an identifier, as registered with the native menu.
pub open spec fn id_str_spec(id: MenuId) -> Seq<char> {
    match id {
        MenuId::Open => "open"@,
        MenuId::Print => "print"@,
        MenuId::Settings => "settings"@,
        MenuId::ZoomIn => "zoom_in"@,
        MenuId::ZoomOut => "zoom_out"@,
        MenuId::ResetZoom => "reset_zoom"@,
        MenuId::ToggleFullscreen => "toggle_fullscreen"@,
        MenuId::CloseTab => "close_tab"@,
        MenuId::LearnMore => "learn_more"@,
        MenuId::License => "license"@,
        MenuId::Bugs => "bugs"@,
        MenuId::Contact => "contact"@,
    }
}

/// What an incoming identifier string maps to; anything outside the
/// closed vocabulary maps to nothing.
pub open spec fn parse_menu_id_spec(s: Seq<char>) -> Option<MenuId> {
    if s == "open"@ {
        Some(MenuId::Open)
    } else if s == "print"@ {
        Some(MenuId::Print)
    } else if s == "settings"@ {
        Some(MenuId::Settings)
    } else if s == "zoom_in"@ {
        Some(MenuId::ZoomIn)
    } else if s == "zoom_out"@ {
        Some(MenuId::ZoomOut)
    } else if s == "reset_zoom"@ {
        Some(MenuId::ResetZoom)
    } else if s == "toggle_fullscreen"@ {
        Some(MenuId::ToggleFullscreen)
    } else if s == "close_tab"@ {
        Some(MenuId::CloseTab)
    } else if s == "learn_more"@ {
        Some(MenuId::LearnMore)
    } else if s == "license"@ {
        Some(MenuId::License)
    } else if s == "bugs"@ {
        Some(MenuId::Bugs)
    } else if s == "contact"@ {
        Some(MenuId::Contact)
    } else {
        None
    }
}

/// The string form of an identifier.
pub fn menu_id_str(id: MenuId) -> (r: String)
    ensures
        r@ == id_str_spec(id),
{
    match id {
        MenuId::Open => String::from_str("open"),
        MenuId::Print => String::from_str("print"),
        MenuId::Settings => String::from_str("settings"),
        MenuId::ZoomIn => String::from_str("zoom_in"),
        MenuId::ZoomOut => String::from_str("zoom_out"),
        MenuId::ResetZoom => String::from_str("reset_zoom"),
        MenuId::ToggleFullscreen => String::from_str("toggle_fullscreen"),
        MenuId::CloseTab => String::from_str("close_tab"),
        MenuId::LearnMore => String::from_str("learn_more"),
        MenuId::License => String::from_str("license"),
        MenuId::Bugs => String::from_str("bugs"),
        MenuId::Contact => String::from_str("contact"),
    }
}

/// Map an incoming identifier string into the closed vocabulary.
pub fn parse_menu_id(s: &str) -> (r: Option<MenuId>)
    ensures
        r == parse_menu_id_spec(s@),
{
    if str_eq(s, "open") {
        Some(MenuId::Open)
    } else if str_eq(s, "print") {
        Some(MenuId::Print)
    } else if str_eq(s, "settings") {
        Some(MenuId::Settings)
    } else if str_eq(s, "zoom_in") {
        Some(MenuId::ZoomIn)
    } else if str_eq(s, "zoom_out") {
        Some(MenuId::ZoomOut)
    } else if str_eq(s, "reset_zoom") {
        Some(MenuId::ResetZoom)
    } else if str_eq(s, "toggle_fullscreen") {
        Some(MenuId::ToggleFullscreen)
    } else if str_eq(s, "close_tab") {
        Some(MenuId::CloseTab)
    } else if str_eq(s, "learn_more") {
        Some(MenuId::LearnMore)
    } else if str_eq(s, "license") {
        Some(MenuId::License)
    } else if str_eq(s, "bugs") {
        Some(MenuId::Bugs)
    } else if str_eq(s, "contact") {
        Some(MenuId::Contact)
    } else {
        None
    }
}

/// The registered string of every identifier maps back to it: the
/// vocabulary the menu registers and the vocabulary the router parses
/// never drift.
pub proof fn lemma_menu_id_round_trip(id: MenuId)
    ensures
        parse_menu_id_spec(id_str_spec(id)) == Some(id),
{
    reveal_strlit("open");
    reveal_strlit("print");
    reveal_strlit("settings");
    reveal_strlit("zoom_in");
    reveal_strlit("zoom_out");
    reveal_strlit("reset_zoom");
    reveal_strlit("toggle_fullscreen");
    reveal_strlit("close_tab");
    reveal_strlit("learn_more");
    reveal_strlit("license");
    reveal_strlit("bugs");
    reveal_strlit("contact");
    assert(("open"@).len() == 4);
    assert(("print"@).len() == 5);
    assert(("settings"@).len() == 8);
    assert(("zoom_in"@).len() == 7);
    assert(("zoom_out"@).len() == 8);
    assert(("reset_zoom"@).len() == 10);
    assert(("toggle_fullscreen"@).len() == 17);
    assert(("close_tab"@).len() == 9);
    assert(("learn_more"@).len() == 10);
    assert(("license"@).len() == 7);
    assert(("bugs"@).len() == 4);
    assert(("contact"@).len() == 7);
    assert(("zoom_out"@)[0] != ("settings"@)[0]);
    assert(("learn_more"@)[0] != ("reset_zoom"@)[0]);
    assert(("license"@)[0] != ("zoom_in"@)[0]);
    assert(("bugs"@)[0] != ("open"@)[0]);
    assert(("contact"@)[0] != ("zoom_in"@)[0]);
    assert(("contact"@)[0] != ("license"@)[0]);
    match id {
        MenuId::Open => {
            assert(parse_menu_id_spec(id_str_spec(id)) == Some(MenuId::Open));
        },
        MenuId::Print => {
            assert(parse_menu_id_spec(id_str_spec(id)) == Some(MenuId::Print));
        },
        MenuId::Settings => {
            assert(parse_menu_id_spec(id_str_spec(id)) == Some(MenuId::Settings));
        },
        MenuId::ZoomIn => {
            assert(parse_menu_id_spec(id_str_spec(id)) == Some(MenuId::ZoomIn));
        },
        MenuId::ZoomOut => {
            assert("zoom_out"@ != "open"@);
            assert("zoom_out"@ != "print"@);
            assert("zoom_out"@ != "settings"@);
            assert("zoom_out"@ != "zoom_in"@);
            assert(parse_menu_id_spec(id_str_spec(id)) == Some(MenuId::ZoomOut));
        },
        MenuId::ResetZoom => {
            assert(parse_menu_id_spec(id_str_spec(id)) == Some(MenuId::ResetZoom));
        },
        MenuId::ToggleFullscreen => {
            assert("toggle_fullscreen"@ != "open"@);
            assert("toggle_fullscreen"@ != "print"@);
            assert("toggle_fullscreen"@ != "settings"@);
            assert("toggle_fullscreen"@ != "zoom_in"@);
            assert("toggle_fullscreen"@ != "zoom_out"@);
            assert("toggle_fullscreen"@ != "reset_zoom"@);
            assert(parse_menu_id_spec(id_str_spec(id)) == Some(MenuId::ToggleFullscreen));
        },
        MenuId::CloseTab => {
            assert("close_tab"@ != "open"@);
            assert("close_tab"@ != "print"@);
            assert("close_tab"@ != "settings"@);
            assert("close_tab"@ != "zoom_in"@);
            assert("close_tab"@ != "zoom_out"@);
            assert("close_tab"@ != "reset_zoom"@);
            assert("close_tab"@ != "toggle_fullscreen"@);
            assert(parse_menu_id_spec(id_str_spec(id)) == Some(MenuId::CloseTab));
        },
        MenuId::LearnMore => {
            assert(parse_menu_id_spec(id_str_spec(id)) == Some(MenuId::LearnMore));
        },
        MenuId::License => {
            assert("license"@ != "open"@);
            assert("license"@ != "print"@);
            assert("license"@ != "settings"@);
            assert("license"@ != "zoom_in"@);
            assert("license"@ != "zoom_out"@);
            assert("license"@ != "reset_zoom"@);
            assert("license"@ != "toggle_fullscreen"@);
            assert("license"@ != "close_tab"@);
            assert("license"@ != "learn_more"@);
            assert(parse_menu_id_spec(id_str_spec(id)) == Some(MenuId::License));
        },
        MenuId::Bugs => {
            assert(parse_menu_id_spec(id_str_spec(id)) == Some(MenuId::Bugs));
        },
        MenuId::Contact => {
            assert("contact"@ != "open"@);
            assert("contact"@ != "print"@);
            assert("contact"@ != "settings"@);
            assert("contact"@ != "zoom_in"@);
            assert("contact"@ != "zoom_out"@);
            assert("contact"@ != "reset_zoom"@);
            assert("contact"@ != "toggle_fullscreen"@);
            assert("contact"@ != "close_tab"@);
            assert("contact"@ != "learn_more"@);
            assert("contact"@ != "license"@);
            assert("contact"@ != "bugs"@);
            assert(parse_menu_id_spec(id_str_spec(id)) == Some(MenuId::Contact));
        },
    }
}

/// Everything the core asks of its collaborators, as one value: the
/// window registry, the events emitted to the main window in order, and
/// the external URLs opened in order.
#[derive(Debug, Clone, PartialEq, Eq)]
pub struct AppState {
    pub registry: WindowRegistry,
    pub emitted: Vec<EmittedEvent>,
    pub opened_urls: Vec<String>,
}

/// Emit an event to the main window: appended to the outbound log when
/// the main window exists, silently dropped when it does not (a no-op,
/// not an error).
pub fn emit_event(state: &mut AppState, ev: EmittedEvent)
    ensures
        final(state).registry == old(state).registry,
        final(state).opened_urls == old(state).opened_urls,
        main_present(old(state).registry.windows@) ==> final(state).emitted@ == old(
            state,
        ).emitted@.push(ev),
        !main_present(old(state).registry.windows@) ==> final(state).emitted == old(
            state,
        ).emitted,
{
    match find_label_exec(&state.registry.windows, "main") {
        Some(_) => {
            state.emitted.push(ev);
        },
        None => {},
    }
}

/// Dispatch one menu selection.  An identifier outside the closed
/// vocabulary changes nothing and raises nothing; a known identifier
/// performs exactly its routed action.  Failures of the settings window
/// (no main window) are swallowed here — menu dispatch has no return
/// channel — leaving the state unchanged.
pub fn handle_menu_event(state: &mut AppState, event_id: &str)
    ensures
        ({
            match parse_menu_id_spec(event_id@) {
                None => *final(state) == *old(state),
                Some(id) => match route_spec(id) {
                    MenuDispatch::EmitToMain(ev) => {
                        &&& final(state).registry == old(state).registry
                        &&& final(state).opened_urls == old(state).opened_urls
                        &&& main_present(old(state).registry.windows@) ==> final(state).emitted@
                            == old(state).emitted@.push(ev)
                        &&& !main_present(old(state).registry.windows@) ==> final(state).emitted
                            == old(state).emitted
                    },
                    MenuDispatch::OpenSettingsWindow => {
                        &&& final(state).emitted == old(state).emitted
                        &&& final(state).opened_urls == old(state).opened_urls
                        &&& open_settings_post(old(state).registry, final(state).registry)
                    },
                    MenuDispatch::OpenExternal(site) => {
                        &&& final(state).registry == old(state).registry
                        &&& final(state).emitted == old(state).emitted
                        &&& final(state).opened_urls@.len() == old(state).opened_urls@.len() + 1
                        &&& final(state).opened_urls@.drop_last() == old(state).opened_urls@
                        &&& final(state).opened_urls@.last()@ == site_url_spec(site)
                    },
                },
            }
        }),
{
    match parse_menu_id(event_id) {
        None => {},
        Some(id) => {
            match route(id) {
                MenuDispatch::EmitToMain(ev) => {
                    emit_event(state, ev);
                },
                MenuDispatch::OpenSettingsWindow => {
                    let _ = state.registry.open_settings();
                },
                MenuDispatch::OpenExternal(site) => {
                    let url = site_url(site);
                    let ghost urls_pre = state.opened_urls@;
                    state.opened_urls.push(url);
                    proof {
                        assert(state.opened_urls@.drop_last() =~= urls_pre);
                    }
                },
            }
        },
    }
}

/// Menu and router never drift, outward: on the platform class with the
/// full menu, every identifier of the closed vocabulary is reachable as
/// an action node, so no routing case is dead code.  (The converse —
/// every reachable identifier has a routing case — holds by type: action
/// nodes carry `MenuId`, on which `route_spec` is total.)
pub proof fn lemma_menu_covers_router(id: MenuId)
    ensures
        nodes_have_action(menu_spec(Platform::Other), id),
{
    let s = menu_spec(Platform::Other);
    match id {
        MenuId::Open => {
            menu_witness(s, 0, 0, id);
        },
        MenuId::Print => {
            menu_witness(s, 0, 1, id);
        },
        MenuId::Settings => {
            menu_witness(s, 0, 3, id);
        },
        MenuId::ZoomIn => {
            menu_witness(s, 2, 0, id);
        },
        MenuId::ZoomOut => {
            menu_witness(s, 2, 1, id);
        },
        MenuId::ResetZoom => {
            menu_witness(s, 2, 2, id);
        },
        MenuId::ToggleFullscreen => {
            menu_witness(s, 2, 4, id);
        },
        MenuId::CloseTab => {
            menu_witness(s, 3, 0, id);
        },
        MenuId::LearnMore => {
            menu_witness(s, 4, 0, id);
        },
        MenuId::License => {
            menu_witness(s, 4, 1, id);
        },
        MenuId::Bugs => {
            menu_witness(s, 4, 2, id);
        },
        MenuId::Contact => {
            menu_witness(s, 4, 3, id);
        },
    }
}

/// The macOS menu reaches every identifier except close-tab, which lives
/// in the Window submenu that platform convention omits there.
pub proof fn lemma_menu_covers_router_macos(id: MenuId)
    ensures
        nodes_have_action(menu_spec(Platform::MacOs), id) <==> id != MenuId::CloseTab,
{
    let s = menu_spec(Platform::MacOs);
    match id {
        MenuId::Open => {
            menu_witness(s, 1, 0, id);
        },
        MenuId::Print => {
            menu_witness(s, 1, 1, id);
        },
        MenuId::Settings => {
            menu_witness(s, 0, 4, id);
        },
        MenuId::ZoomIn => {
            menu_witness(s, 3, 0, id);
        },
        MenuId::ZoomOut => {
            menu_witness(s, 3, 1, id);
        },
        MenuId::ResetZoom => {
            menu_witness(s, 3, 2, id);
        },
        MenuId::ToggleFullscreen => {
            menu_witness(s, 3, 4, id);
        },
        MenuId::CloseTab => {
            lemma_nodes_have_action_witness(s, id);
            if nodes_have_action(s, id) {
                let i = choose|i: int| 0 <= i < s.len() && node_has_action(s[i], id);
                if i == 0 {
                    submenu_without(app_menu_children(), id);
                } else if i == 1 {
                    submenu_without(file_menu_children(Platform::MacOs), id);
                } else if i == 2 {
                    submenu_without(edit_menu_children(), id);
                } else if i == 3 {
                    submenu_without(view_menu_children(), id);
                } else {
                    submenu_without(help_menu_children(), id);
                }
            }
        },
        MenuId::LearnMore => {
            menu_witness(s, 4, 0, id);
        },
        MenuId::License => {
            menu_witness(s, 4, 1, id);
        },
        MenuId::Bugs => {
            menu_witness(s, 4, 2, id);
        },
        MenuId::Contact => {
            menu_witness(s, 4, 3, id);
        },
    }
}

/// A submenu whose children all lack the action does not reach it.
proof fn submenu_without(children: Seq<MenuNodeV>, id: MenuId)
    requires
        children.len() <= 8,
        forall|j: int|
            0 <= j < children.len() ==> ((#[trigger] children[j]) matches MenuNodeV::Action {
                id: nid,
                ..
            } ==> nid != id),
        forall|j: int| 0 <= j < children.len() ==> !((#[trigger] children[j]) is Submenu),
    ensures
        !nodes_have_action(children, id),
{
    lemma_nodes_have_action_witness(children, id);
    if nodes_have_action(children, id) {
        let j = choose|j: int| 0 <= j < children.len() && node_has_action(children[j], id);
        assert(!node_has_action(children[j], id));
    }
}

/// An action at child `j` of submenu `i` is reachable in the menu.
proof fn menu_witness(s: Seq<crate::menus::MenuNodeV>, i: int, j: int, id: MenuId)
    requires
        0 <= i < s.len(),
        s[i] matches crate::menus::MenuNodeV::Submenu { children, .. } && 0 <= j < children.len()
            && crate::menus::node_has_action(children[j], id),
    ensures
        nodes_have_action(s, id),
{
    let children = s[i]->Submenu_children;
    lemma_nodes_have_action_index(children, id, j);
    lemma_nodes_have_action_index(s, id, i);
}

} // verus!
