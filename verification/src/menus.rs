//! Declarative, platform-conditional construction of the application
//! menu, and the one runtime mutation it admits (enabling or disabling an
//! action).
//!
//! The menu is a tree of nodes; interactive nodes carry an identifier
//! from the closed vocabulary `MenuId`, which is also exactly what the
//! event router dispatches on — the type ties the two sides together.
//! Native menu allocation is the windowing collaborator's business; this
//! core only decides the structure.

use vstd::prelude::*;

verus! {

/// The two platform classes the menu distinguishes.
#[derive(Clone, Copy, PartialEq, Eq, Structural, Debug)]
pub enum Platform {
    MacOs,
    Other,
}

/// The closed vocabulary of interactive menu identifiers.  Adding an
/// action means adding a variant here, a node in `create_menu`, and a
/// case in the router — the compiler holds the three together.
#[derive(Clone, Copy, PartialEq, Eq, Structural, Debug)]
pub enum MenuId {
    Open,
    Print,
    Settings,
    ZoomIn,
    ZoomOut,
    ResetZoom,
    ToggleFullscreen,
    CloseTab,
    LearnMore,
    License,
    Bugs,
    Contact,
}

/// Menu behaviour supplied entirely by the native platform.
#[derive(Clone, Copy, PartialEq, Eq, Structural, Debug)]
pub enum PredefinedItem {
    About,
    Services,
    Hide,
    Quit,
    Undo,
    Redo,
    Cut,
    CopyItem,
    Paste,
    SelectAll,
    CloseWindow,
    Minimize,
    Maximize,
}

/// One node of the menu tree.  A submenu exclusively owns its ordered
/// children; there is no sharing and no cycle.
#[derive(Debug, PartialEq, Eq)]
pub enum MenuNode {
    Action { id: MenuId, label: String, enabled: bool, shortcut: Option<String> },
    Separator,
    Predefined { kind: PredefinedItem, label: Option<String> },
    Submenu { label: String, children: Vec<MenuNode> },
}

/// The whole application menu: its top-level submenus in order.
#[derive(Debug, PartialEq, Eq)]
pub struct MenuRoot {
    pub menus: Vec<MenuNode>,
}

/// The view of a menu node, labels and shortcuts as character sequences.
#[verifier::ext_equal]
pub enum MenuNodeV {
    Action { id: MenuId, label: Seq<char>, enabled: bool, shortcut: Option<Seq<char>> },
    Separator,
    Predefined { kind: PredefinedItem, label: Option<Seq<char>> },
    Submenu { label: Seq<char>, children: Seq<MenuNodeV> },
}

/// The view of one menu node.
pub open spec fn node_view(n: MenuNode) -> MenuNodeV
    decreases n,
{
    match n {
        MenuNode::Action { id, label, enabled, shortcut } => MenuNodeV::Action {
            id,
            label: label@,
            enabled,
            shortcut: match shortcut {
                Some(s) => Some(s@),
                None => None,
            },
        },
        MenuNode::Separator => MenuNodeV::Separator,
        MenuNode::Predefined { kind, label } => MenuNodeV::Predefined {
            kind,
            label: match label {
                Some(s) => Some(s@),
                None => None,
            },
        },
        MenuNode::Submenu { label, children } => MenuNodeV::Submenu {
            label: label@,
            children: nodes_view(children@),
        },
    }
}

/// The view of a sequence of menu nodes.
pub open spec fn nodes_view(s: Seq<MenuNode>) -> Seq<MenuNodeV>
    decreases s,
{
    if s.len() == 0 {
        Seq::empty()
    } else {
        nodes_view(s.drop_last()).push(node_view(s.last()))
    }
}

/// Viewing commutes with appending one node.
pub broadcast proof fn lemma_nodes_view_push(s: Seq<MenuNode>, n: MenuNode)
    ensures
        #[trigger] nodes_view(s.push(n)) == nodes_view(s).push(node_view(n)),
{
    assert(s.push(n).drop_last() =~= s);
    assert(s.push(n).last() == n);
}

/// A viewed sequence keeps its length and views pointwise.
pub proof fn lemma_nodes_view_index(s: Seq<MenuNode>)
    ensures
        nodes_view(s).len() == s.len(),
        forall|i: int| 0 <= i < s.len() ==> nodes_view(s)[i] == node_view(s[i]),
    decreases s.len(),
{
    if s.len() > 0 {
        lemma_nodes_view_index(s.drop_last());
        assert forall|i: int| 0 <= i < s.len() implies nodes_view(s)[i] == node_view(s[i]) by {
            if i < s.len() - 1 {
                assert(s.drop_last()[i] == s[i]);
            }
        }
    }
}

impl View for MenuNode {
    type V = MenuNodeV;

    open spec fn view(&self) -> MenuNodeV {
        node_view(*self)
    }
}

impl View for MenuRoot {
    type V = Seq<MenuNodeV>;

    open spec fn view(&self) -> Seq<MenuNodeV> {
        nodes_view(self.menus@)
    }
}

/// An enabled action node, in spec form.
pub open spec fn action_v(id: MenuId, label: Seq<char>, shortcut: Option<Seq<char>>) -> MenuNodeV {
    MenuNodeV::Action { id, label, enabled: true, shortcut }
}

/// A predefined node without a label override, in spec form.
pub open spec fn predefined_v(kind: PredefinedItem) -> MenuNodeV {
    MenuNodeV::Predefined { kind, label: None }
}

/// The items of the application-identity submenu.
pub open spec fn app_menu_children() -> Seq<MenuNodeV> {
    seq![
        predefined_v(PredefinedItem::About),
        MenuNodeV::Separator,
        predefined_v(PredefinedItem::Services),
        MenuNodeV::Separator,
        action_v(MenuId::Settings, "Settings..."@, Some("Cmd+,"@)),
        MenuNodeV::Separator,
        predefined_v(PredefinedItem::Hide),
        predefined_v(PredefinedItem::Quit),
    ]
}

/// The application-identity submenu, present only on macOS by platform
/// convention; the settings action lives here, under the standard
/// preferences shortcut.
pub open spec fn app_menu_spec() -> MenuNodeV {
    MenuNodeV::Submenu { label: "Monight"@, children: app_menu_children() }
}

/// The items of the File submenu for a platform class.
pub open spec fn file_menu_children(platform: Platform) -> Seq<MenuNodeV> {
    if platform is MacOs {
        seq![
            action_v(MenuId::Open, "Open..."@, Some("CmdOrCtrl+O"@)),
            action_v(MenuId::Print, "Print"@, Some("CmdOrCtrl+P"@)),
            MenuNodeV::Separator,
            MenuNodeV::Predefined { kind: PredefinedItem::CloseWindow, label: Some("Close"@) },
        ]
    } else {
        seq![
            action_v(MenuId::Open, "Open..."@, Some("CmdOrCtrl+O"@)),
            action_v(MenuId::Print, "Print"@, Some("CmdOrCtrl+P"@)),
            MenuNodeV::Separator,
            action_v(MenuId::Settings, "Settings"@, Some("Alt+S"@)),
            MenuNodeV::Separator,
            MenuNodeV::Predefined { kind: PredefinedItem::CloseWindow, label: Some("Close"@) },
        ]
    }
}

/// The File submenu: open, print, close everywhere; on platforms without
/// an application-identity submenu it also carries the settings action.
pub open spec fn file_menu_spec(platform: Platform) -> MenuNodeV {
    MenuNodeV::Submenu { label: "File"@, children: file_menu_children(platform) }
}

/// The items of the Edit submenu.
pub open spec fn edit_menu_children() -> Seq<MenuNodeV> {
    seq![
        predefined_v(PredefinedItem::Undo),
        predefined_v(PredefinedItem::Redo),
        MenuNodeV::Separator,
        predefined_v(PredefinedItem::Cut),
        predefined_v(PredefinedItem::CopyItem),
        predefined_v(PredefinedItem::Paste),
        predefined_v(PredefinedItem::SelectAll),
    ]
}

/// The Edit submenu: native predefined editing behaviour only.
pub open spec fn edit_menu_spec() -> MenuNodeV {
    MenuNodeV::Submenu { label: "Edit"@, children: edit_menu_children() }
}

/// The items of the View submenu.
pub open spec fn view_menu_children() -> Seq<MenuNodeV> {
    seq![
        action_v(MenuId::ZoomIn, "Zoom In"@, Some("CmdOrCtrl+Plus"@)),
        action_v(MenuId::ZoomOut, "Zoom Out"@, Some("CmdOrCtrl+-"@)),
        action_v(MenuId::ResetZoom, "Reset Zoom"@, Some("CmdOrCtrl+0"@)),
        MenuNodeV::Separator,
        action_v(MenuId::ToggleFullscreen, "Toggle Fullscreen"@, Some("F11"@)),
    ]
}

/// The View submenu: zoom control and the fullscreen toggle.
pub open spec fn view_menu_spec() -> MenuNodeV {
    MenuNodeV::Submenu { label: "View"@, children: view_menu_children() }
}

/// The items of the Window submenu.
pub open spec fn window_menu_children() -> Seq<MenuNodeV> {
    seq![
        action_v(MenuId::CloseTab, "Close Tab"@, Some("CmdOrCtrl+W"@)),
        MenuNodeV::Separator,
        predefined_v(PredefinedItem::Minimize),
        predefined_v(PredefinedItem::Maximize),
    ]
}

/// The Window submenu, absent on macOS: close-tab plus native minimize
/// and maximize.
pub open spec fn window_menu_spec() -> MenuNodeV {
    MenuNodeV::Submenu { label: "Window"@, children: window_menu_children() }
}

/// The items of the Help submenu.
pub open spec fn help_menu_children() -> Seq<MenuNodeV> {
    seq![
        action_v(MenuId::LearnMore, "Learn More"@, None),
        action_v(MenuId::License, "License"@, None),
        action_v(MenuId::Bugs, "Report Bug"@, None),
        action_v(MenuId::Contact, "Contact"@, None),
    ]
}

/// The Help submenu: four externally routed links.
pub open spec fn help_menu_spec() -> MenuNodeV {
    MenuNodeV::Submenu { label: "Help"@, children: help_menu_children() }
}

/// The whole menu of each platform class: macOS opens with the
/// application-identity submenu and has no Window submenu; the other
/// class carries settings in File and a Window submenu.
pub open spec fn menu_spec(platform: Platform) -> Seq<MenuNodeV> {
    if platform is MacOs {
        seq![
            app_menu_spec(),
            file_menu_spec(Platform::MacOs),
            edit_menu_spec(),
            view_menu_spec(),
            help_menu_spec(),
        ]
    } else {
        seq![
            file_menu_spec(Platform::Other),
            edit_menu_spec(),
            view_menu_spec(),
            window_menu_spec(),
            help_menu_spec(),
        ]
    }
}

/// An enabled action node.
fn action(id: MenuId, label: &str, shortcut: Option<&str>) -> (r: MenuNode)
    ensures
        node_view(r) == action_v(
            id,
            label@,
            match shortcut {
                Some(s) => Some(s@),
                None => None,
            },
        ),
{
    let sc: Option<String> = match shortcut {
        Some(s) => Some(String::from_str(s)),
        None => None,
    };
    MenuNode::Action { id, label: String::from_str(label), enabled: true, shortcut: sc }
}

/// A predefined node without a label override.
fn predefined(kind: PredefinedItem) -> (r: MenuNode)
    ensures
        node_view(r) == predefined_v(kind),
{
    MenuNode::Predefined { kind, label: None }
}

fn build_app_menu() -> (r: MenuNode)
    ensures
        node_view(r) == app_menu_spec(),
{
    broadcast use lemma_nodes_view_push;

    let mut items: Vec<MenuNode> = Vec::new();
    items.push(predefined(PredefinedItem::About));
    items.push(MenuNode::Separator);
    items.push(predefined(PredefinedItem::Services));
    items.push(MenuNode::Separator);
    items.push(action(MenuId::Settings, "Settings...", Some("Cmd+,")));
    items.push(MenuNode::Separator);
    items.push(predefined(PredefinedItem::Hide));
    items.push(predefined(PredefinedItem::Quit));
    proof {
        assert(nodes_view(items@) =~= app_menu_children());
    }
    MenuNode::Submenu { label: String::from_str("Monight"), children: items }
}

fn build_file_menu(platform: Platform) -> (r: MenuNode)
    ensures
        node_view(r) == file_menu_spec(platform),
{
    broadcast use lemma_nodes_view_push;

    let mut items: Vec<MenuNode> = Vec::new();
    items.push(action(MenuId::Open, "Open...", Some("CmdOrCtrl+O")));
    items.push(action(MenuId::Print, "Print", Some("CmdOrCtrl+P")));
    items.push(MenuNode::Separator);
    if !matches!(platform, Platform::MacOs) {
        items.push(action(MenuId::Settings, "Settings", Some("Alt+S")));
        items.push(MenuNode::Separator);
    }
    items.push(
        MenuNode::Predefined {
            kind: PredefinedItem::CloseWindow,
            label: Some(String::from_str("Close")),
        },
    );
    proof {
        assert(nodes_view(items@) =~= file_menu_children(platform));
    }
    MenuNode::Submenu { label: String::from_str("File"), children: items }
}

fn build_edit_menu() -> (r: MenuNode)
    ensures
        node_view(r) == edit_menu_spec(),
{
    broadcast use lemma_nodes_view_push;

    let mut items: Vec<MenuNode> = Vec::new();
    items.push(predefined(PredefinedItem::Undo));
    items.push(predefined(PredefinedItem::Redo));
    items.push(MenuNode::Separator);
    items.push(predefined(PredefinedItem::Cut));
    items.push(predefined(PredefinedItem::CopyItem));
    items.push(predefined(PredefinedItem::Paste));
    items.push(predefined(PredefinedItem::SelectAll));
    proof {
        assert(nodes_view(items@) =~= edit_menu_children());
    }
    MenuNode::Submenu { label: String::from_str("Edit"), children: items }
}

fn build_view_menu() -> (r: MenuNode)
    ensures
        node_view(r) == view_menu_spec(),
{
    broadcast use lemma_nodes_view_push;

    let mut items: Vec<MenuNode> = Vec::new();
    items.push(action(MenuId::ZoomIn, "Zoom In", Some("CmdOrCtrl+Plus")));
    items.push(action(MenuId::ZoomOut, "Zoom Out", Some("CmdOrCtrl+-")));
    items.push(action(MenuId::ResetZoom, "Reset Zoom", Some("CmdOrCtrl+0")));
    items.push(MenuNode::Separator);
    items.push(action(MenuId::ToggleFullscreen, "Toggle Fullscreen", Some("F11")));
    proof {
        assert(nodes_view(items@) =~= view_menu_children());
    }
    MenuNode::Submenu { label: String::from_str("View"), children: items }
}

fn build_window_menu() -> (r: MenuNode)
    ensures
        node_view(r) == window_menu_spec(),
{
    broadcast use lemma_nodes_view_push;

    let mut items: Vec<MenuNode> = Vec::new();
    items.push(action(MenuId::CloseTab, "Close Tab", Some("CmdOrCtrl+W")));
    items.push(MenuNode::Separator);
    items.push(predefined(PredefinedItem::Minimize));
    items.push(predefined(PredefinedItem::Maximize));
    proof {
        assert(nodes_view(items@) =~= window_menu_children());
    }
    MenuNode::Submenu { label: String::from_str("Window"), children: items }
}

fn build_help_menu() -> (r: MenuNode)
    ensures
        node_view(r) == help_menu_spec(),
{
    broadcast use lemma_nodes_view_push;

    let mut items: Vec<MenuNode> = Vec::new();
    items.push(action(MenuId::LearnMore, "Learn More", None));
    items.push(action(MenuId::License, "License", None));
    items.push(action(MenuId::Bugs, "Report Bug", None));
    items.push(action(MenuId::Contact, "Contact", None));
    proof {
        assert(nodes_view(items@) =~= help_menu_children());
    }
    MenuNode::Submenu { label: String::from_str("Help"), children: items }
}

/// Build the application menu for a platform class.  Pure construction:
/// the same platform always yields the same tree, every action enabled.
pub fn create_menu(platform: Platform) -> (r: MenuRoot)
    ensures
        r@ == menu_spec(platform),
{
    broadcast use lemma_nodes_view_push;

    let mut menus: Vec<MenuNode> = Vec::new();
    if matches!(platform, Platform::MacOs) {
        menus.push(build_app_menu());
        menus.push(build_file_menu(platform));
        menus.push(build_edit_menu());
        menus.push(build_view_menu());
        menus.push(build_help_menu());
    } else {
        menus.push(build_file_menu(platform));
        menus.push(build_edit_menu());
        menus.push(build_view_menu());
        menus.push(build_window_menu());
        menus.push(build_help_menu());
    }
    proof {
        assert(nodes_view(menus@) =~= menu_spec(platform));
    }
    MenuRoot { menus }
}

/// Whether an action with identifier `id` occurs in `n`.
pub open spec fn node_has_action(n: MenuNodeV, id: MenuId) -> bool
    decreases n,
{
    match n {
        MenuNodeV::Action { id: nid, .. } => nid == id,
        MenuNodeV::Submenu { children, .. } => nodes_have_action(children, id),
        _ => false,
    }
}

/// Whether an action with identifier `id` occurs in any node of `s`.
pub open spec fn nodes_have_action(s: Seq<MenuNodeV>, id: MenuId) -> bool
    decreases s,
{
    if s.len() == 0 {
        false
    } else {
        nodes_have_action(s.drop_last(), id) || node_has_action(s.last(), id)
    }
}

/// One node containing the action puts it in the sequence.
pub proof fn lemma_nodes_have_action_index(s: Seq<MenuNodeV>, id: MenuId, i: int)
    requires
        0 <= i < s.len(),
        node_has_action(s[i], id),
    ensures
        nodes_have_action(s, id),
    decreases s.len(),
{
    if i < s.len() - 1 {
        assert(s.drop_last()[i] == s[i]);
        lemma_nodes_have_action_index(s.drop_last(), id, i);
    }
}

/// The action occurs in the sequence only if some node holds it.
pub proof fn lemma_nodes_have_action_witness(s: Seq<MenuNodeV>, id: MenuId)
    ensures
        nodes_have_action(s, id) <==> exists|i: int|
            0 <= i < s.len() && node_has_action(s[i], id),
    decreases s.len(),
{
    if s.len() > 0 {
        lemma_nodes_have_action_witness(s.drop_last(), id);
        if nodes_have_action(s, id) {
            if nodes_have_action(s.drop_last(), id) {
                let i = choose|i: int|
                    0 <= i < s.drop_last().len() && node_has_action(s.drop_last()[i], id);
                assert(s.drop_last()[i] == s[i]);
                assert(node_has_action(s[i], id));
            } else {
                assert(node_has_action(s[s.len() - 1], id));
            }
        }
        if exists|i: int| 0 <= i < s.len() && node_has_action(s[i], id) {
            let i = choose|i: int| 0 <= i < s.len() && node_has_action(s[i], id);
            lemma_nodes_have_action_index(s, id, i);
        }
    }
}

/// The same tree with every action named `id` set to `enabled`; shape,
/// labels, shortcuts and every other action untouched.
pub open spec fn set_node(n: MenuNodeV, id: MenuId, enabled: bool) -> MenuNodeV
    decreases n,
{
    match n {
        MenuNodeV::Action { id: nid, label, enabled: was, shortcut } => if nid == id {
            MenuNodeV::Action { id: nid, label, enabled, shortcut }
        } else {
            n
        },
        MenuNodeV::Submenu { label, children } => MenuNodeV::Submenu {
            label,
            children: set_nodes(children, id, enabled),
        },
        _ => n,
    }
}

/// `set_node` over a sequence of nodes.
pub open spec fn set_nodes(s: Seq<MenuNodeV>, id: MenuId, enabled: bool) -> Seq<MenuNodeV>
    decreases s,
{
    if s.len() == 0 {
        Seq::empty()
    } else {
        set_nodes(s.drop_last(), id, enabled).push(set_node(s.last(), id, enabled))
    }
}

/// Setting an identifier that occurs nowhere changes nothing.
pub proof fn lemma_set_absent_noop_nodes(s: Seq<MenuNodeV>, id: MenuId, enabled: bool)
    requires
        !nodes_have_action(s, id),
    ensures
        set_nodes(s, id, enabled) == s,
    decreases s,
{
    if s.len() > 0 {
        lemma_set_absent_noop_nodes(s.drop_last(), id, enabled);
        lemma_set_absent_noop_node(s.last(), id, enabled);
        assert(set_nodes(s, id, enabled) =~= s);
    }
}

/// Setting an identifier absent from a node leaves the node as it is.
pub proof fn lemma_set_absent_noop_node(n: MenuNodeV, id: MenuId, enabled: bool)
    requires
        !node_has_action(n, id),
    ensures
        set_node(n, id, enabled) == n,
    decreases n,
{
    match n {
        MenuNodeV::Submenu { label, children } => {
            lemma_set_absent_noop_nodes(children, id, enabled);
        },
        _ => {},
    }
}

fn clone_opt_string(o: &Option<String>) -> (r: Option<String>)
    ensures
        r == *o,
{
    match o {
        Some(s) => Some(s.clone()),
        None => None,
    }
}

#[verifier::loop_isolation(false)]
fn set_node_exec(n: &MenuNode, id: MenuId, enabled: bool) -> (r: MenuNode)
    ensures
        node_view(r) == set_node(node_view(*n), id, enabled),
    decreases *n,
{
    match n {
        MenuNode::Action { id: nid, label, enabled: was, shortcut } => {
            let new_enabled: bool = if *nid == id {
                enabled
            } else {
                *was
            };
            MenuNode::Action {
                id: *nid,
                label: label.clone(),
                enabled: new_enabled,
                shortcut: clone_opt_string(shortcut),
            }
        },
        MenuNode::Separator => MenuNode::Separator,
        MenuNode::Predefined { kind, label } => MenuNode::Predefined {
            kind: *kind,
            label: clone_opt_string(label),
        },
        MenuNode::Submenu { label, children } => {
            broadcast use lemma_nodes_view_push;

            let mut out: Vec<MenuNode> = Vec::new();
            let n_children: usize = children.len();
            let mut i: usize = 0;
            proof {
                lemma_nodes_view_index(children@);
                assert(nodes_view(children@).take(0) =~= Seq::<MenuNodeV>::empty());
                assert(nodes_view(out@) =~= Seq::<MenuNodeV>::empty());
            }
            while i < n_children
                invariant
                    i <= n_children,
                    n_children == children@.len(),
                    nodes_view(children@).len() == children@.len(),
                    forall|k: int|
                        0 <= k < children@.len() ==> nodes_view(children@)[k] == node_view(
                            children@[k],
                        ),
                    nodes_view(out@) == set_nodes(
                        nodes_view(children@).take(i as int),
                        id,
                        enabled,
                    ),
                decreases n_children - i,
            {
                proof {
                    assert(decreases_to!(*n => (*n)->Submenu_children));
                    assert(decreases_to!((*n)->Submenu_children => (*n)->Submenu_children@));
                    assert(decreases_to!(
                        (*n)->Submenu_children@ => (*n)->Submenu_children@[i as int]
                    ));
                    assert((*n)->Submenu_children@[i as int] == children@[i as int]);
                    assert(decreases_to!(*n => children@[i as int]));
                }
                let updated = set_node_exec(&children[i], id, enabled);
                let ghost out_pre = out@;
                out.push(updated);
                proof {
                    lemma_nodes_view_push(out_pre, updated);
                    let cv = nodes_view(children@);
                    assert(cv.take(i + 1 as int).drop_last() =~= cv.take(i as int));
                    assert(cv.take(i + 1 as int).last() == cv[i as int]);
                    assert(set_nodes(cv.take(i + 1 as int), id, enabled) == set_nodes(
                        cv.take(i as int),
                        id,
                        enabled,
                    ).push(set_node(cv[i as int], id, enabled)));
                }
                i = i + 1;
            }
            proof {
                assert(nodes_view(children@).take(n_children as int) =~= nodes_view(children@));
            }
            MenuNode::Submenu { label: label.clone(), children: out }
        },
    }
}

/// The menu with every action named `id` set to `enabled` — a no-op when
/// no such action exists (in particular for identifiers the tree of the
/// current platform does not carry).
pub fn set_action_enabled(root: &MenuRoot, id: MenuId, enabled: bool) -> (r: MenuRoot)
    ensures
        r@ == set_nodes(root@, id, enabled),
{
    broadcast use lemma_nodes_view_push;

    let mut menus: Vec<MenuNode> = Vec::new();
    let n: usize = root.menus.len();
    let mut i: usize = 0;
    proof {
        lemma_nodes_view_index(root.menus@);
        assert(nodes_view(root.menus@).take(0) =~= Seq::<MenuNodeV>::empty());
        assert(nodes_view(menus@) =~= Seq::<MenuNodeV>::empty());
    }
    while i < n
        invariant
            i <= n,
            n == root.menus@.len(),
            nodes_view(root.menus@).len() == root.menus@.len(),
            forall|k: int|
                0 <= k < root.menus@.len() ==> nodes_view(root.menus@)[k] == node_view(
                    root.menus@[k],
                ),
            nodes_view(menus@) == set_nodes(nodes_view(root.menus@).take(i as int), id, enabled),
        decreases n - i,
    {
        let updated = set_node_exec(&root.menus[i], id, enabled);
        let ghost menus_pre = menus@;
        menus.push(updated);
        proof {
            lemma_nodes_view_push(menus_pre, updated);
            let cv = nodes_view(root.menus@);
            assert(cv.take(i + 1 as int).drop_last() =~= cv.take(i as int));
            assert(cv.take(i + 1 as int).last() == cv[i as int]);
            assert(set_nodes(cv.take(i + 1 as int), id, enabled) == set_nodes(
                cv.take(i as int),
                id,
                enabled,
            ).push(set_node(cv[i as int], id, enabled)));
        }
        i = i + 1;
    }
    proof {
        assert(nodes_view(root.menus@).take(n as int) =~= nodes_view(root.menus@));
    }
    MenuRoot { menus }
}

/// Enable or disable the Print action (greyed out while no document is
/// open).
pub fn set_print_enabled(root: &MenuRoot, enabled: bool) -> (r: MenuRoot)
    ensures
        r@ == set_nodes(root@, MenuId::Print, enabled),
{
    set_action_enabled(root, MenuId::Print, enabled)
}

} // verus!
