//! The declarative menu tree.
//!
//! The menu is built once at startup and installed by the host as the
//! window's native menu. It is a fixed composition of four submenus (File,
//! Edit, View, Help) whose entries are either built-in commands delegated to
//! the host, custom items carrying a stable identity for the dispatcher, or
//! visual separators. The one input is the product version shown in the
//! about entry; the rest of the tree is the same on every construction.

use vstd::prelude::*;
use crate::dispatch::{MenuAction, spec_identity_of, spec_action_of, identity_of_action};

verus! {

/// A custom menu item: the identity routes its events, the label and the
/// optional keyboard accelerator are presentation only.
#[derive(Clone, PartialEq, Eq, Debug)]
pub struct MenuItemDescriptor {
    pub identity: String,
    pub label: String,
    pub accelerator: Option<String>,
}

/// The mathematical value of a `MenuItemDescriptor`.
#[verifier::ext_equal]
pub struct MenuItemDescriptorSpec {
    pub identity: Seq<char>,
    pub label: Seq<char>,
    pub accelerator: Option<Seq<char>>,
}

impl View for MenuItemDescriptor {
    type V = MenuItemDescriptorSpec;

    open spec fn view(&self) -> MenuItemDescriptorSpec {
        MenuItemDescriptorSpec {
            identity: self.identity@,
            label: self.label@,
            accelerator: match self.accelerator {
                Some(ref a) => Some(a@),
                None => None,
            },
        }
    }
}

/// A menu command delegated entirely to the host's native semantics.
#[derive(Clone, Copy, PartialEq, Eq, Structural, Debug)]
pub enum BuiltInCommand {
    Quit,
    Undo,
    Redo,
    Cut,
    Copy,
    Paste,
    SelectAll,
}

/// What the about entry shows: product name, version read from the
/// application package metadata, authorship, and a one-line description.
#[derive(Clone, PartialEq, Eq, Debug)]
pub struct AboutInfo {
    pub name: String,
    pub version: String,
    pub authors: Vec<String>,
    pub comments: String,
}

/// The mathematical value of an `AboutInfo`.
#[verifier::ext_equal]
pub struct AboutInfoSpec {
    pub name: Seq<char>,
    pub version: Seq<char>,
    pub authors: Seq<Seq<char>>,
    pub comments: Seq<char>,
}

impl View for AboutInfo {
    type V = AboutInfoSpec;

    open spec fn view(&self) -> AboutInfoSpec {
        AboutInfoSpec {
            name: self.name@,
            version: self.version@,
            authors: self.authors@.map_values(|a: String| a@),
            comments: self.comments@,
        }
    }
}

/// One entry of a submenu.
#[derive(Clone, PartialEq, Eq, Debug)]
pub enum MenuEntry {
    BuiltIn(BuiltInCommand),
    Custom(MenuItemDescriptor),
    Separator,
    About(AboutInfo),
}

/// The mathematical value of a `MenuEntry`.
#[verifier::ext_equal]
pub enum MenuEntrySpec {
    BuiltIn(BuiltInCommand),
    Custom(MenuItemDescriptorSpec),
    Separator,
    About(AboutInfoSpec),
}

impl View for MenuEntry {
    type V = MenuEntrySpec;

    open spec fn view(&self) -> MenuEntrySpec {
        match self {
            MenuEntry::BuiltIn(c) => MenuEntrySpec::BuiltIn(*c),
            MenuEntry::Custom(d) => MenuEntrySpec::Custom(d@),
            MenuEntry::Separator => MenuEntrySpec::Separator,
            MenuEntry::About(a) => MenuEntrySpec::About(a@),
        }
    }
}

/// A titled submenu: an ordered sequence of entries.
#[derive(Clone, PartialEq, Eq, Debug)]
pub struct Submenu {
    pub title: String,
    pub entries: Vec<MenuEntry>,
}

/// The mathematical value of a `Submenu`.
#[verifier::ext_equal]
pub struct SubmenuSpec {
    pub title: Seq<char>,
    pub entries: Seq<MenuEntrySpec>,
}

impl View for Submenu {
    type V = SubmenuSpec;

    open spec fn view(&self) -> SubmenuSpec {
        SubmenuSpec { title: self.title@, entries: self.entries@.map_values(|e: MenuEntry| e@) }
    }
}

/// The whole menu: an ordered sequence of submenus.
#[derive(Clone, PartialEq, Eq, Debug)]
pub struct MenuTree {
    pub submenus: Vec<Submenu>,
}

/// The mathematical value of a `MenuTree`.
#[verifier::ext_equal]
pub struct MenuTreeSpec {
    pub submenus: Seq<SubmenuSpec>,
}

impl View for MenuTree {
    type V = MenuTreeSpec;

    open spec fn view(&self) -> MenuTreeSpec {
        MenuTreeSpec { submenus: self.submenus@.map_values(|s: Submenu| s@) }
    }
}

/// The display label of an action's menu item.
pub open spec fn spec_label_of(a: MenuAction) -> Seq<char> {
    match a {
        MenuAction::Reload => "Reload"@,
        MenuAction::ToggleDevtools => "Toggle Developer Tools"@,
        MenuAction::ZoomIn => "Zoom In"@,
        MenuAction::ZoomOut => "Zoom Out"@,
        MenuAction::ZoomReset => "Reset Zoom"@,
        MenuAction::ToggleFullscreen => "Toggle Fullscreen"@,
        MenuAction::CheckUpdates => "Check for Updates..."@,
    }
}

/// The keyboard accelerator of an action's menu item, where it has one.
pub open spec fn spec_accelerator_of(a: MenuAction) -> Option<Seq<char>> {
    match a {
        MenuAction::Reload => Some("CmdOrCtrl+R"@),
        MenuAction::ToggleDevtools => Some("CmdOrCtrl+Shift+I"@),
        MenuAction::ZoomIn => Some("CmdOrCtrl+="@),
        MenuAction::ZoomOut => Some("CmdOrCtrl+-"@),
        MenuAction::ZoomReset => Some("CmdOrCtrl+0"@),
        MenuAction::ToggleFullscreen => Some("F11"@),
        MenuAction::CheckUpdates => None,
    }
}

/// The full descriptor of an action's menu item.
pub open spec fn spec_descriptor_of(a: MenuAction) -> MenuItemDescriptorSpec {
    MenuItemDescriptorSpec {
        identity: spec_identity_of(a),
        label: spec_label_of(a),
        accelerator: spec_accelerator_of(a),
    }
}

/// The File submenu: the built-in quit command.
pub open spec fn spec_file_submenu() -> SubmenuSpec {
    SubmenuSpec { title: "File"@, entries: seq![MenuEntrySpec::BuiltIn(BuiltInCommand::Quit)] }
}

/// The Edit submenu: built-in text-editing commands only.
pub open spec fn spec_edit_submenu() -> SubmenuSpec {
    SubmenuSpec {
        title: "Edit"@,
        entries: seq![
            MenuEntrySpec::BuiltIn(BuiltInCommand::Undo),
            MenuEntrySpec::BuiltIn(BuiltInCommand::Redo),
            MenuEntrySpec::Separator,
            MenuEntrySpec::BuiltIn(BuiltInCommand::Cut),
            MenuEntrySpec::BuiltIn(BuiltInCommand::Copy),
            MenuEntrySpec::BuiltIn(BuiltInCommand::Paste),
            MenuEntrySpec::Separator,
            MenuEntrySpec::BuiltIn(BuiltInCommand::SelectAll),
        ],
    }
}

/// The View submenu: the six custom window actions, with the reload and
/// developer-tools items separated from the zoom and fullscreen group.
pub open spec fn spec_view_submenu() -> SubmenuSpec {
    SubmenuSpec {
        title: "View"@,
        entries: seq![
            MenuEntrySpec::Custom(spec_descriptor_of(MenuAction::Reload)),
            MenuEntrySpec::Custom(spec_descriptor_of(MenuAction::ToggleDevtools)),
            MenuEntrySpec::Separator,
            MenuEntrySpec::Custom(spec_descriptor_of(MenuAction::ZoomIn)),
            MenuEntrySpec::Custom(spec_descriptor_of(MenuAction::ZoomOut)),
            MenuEntrySpec::Custom(spec_descriptor_of(MenuAction::ZoomReset)),
            MenuEntrySpec::Separator,
            MenuEntrySpec::Custom(spec_descriptor_of(MenuAction::ToggleFullscreen)),
        ],
    }
}

/// The about entry's contents, for a given product version.
pub open spec fn spec_about_info(version: Seq<char>) -> AboutInfoSpec {
    AboutInfoSpec {
        name: "Nexus"@,
        version: version,
        authors: seq!["Nexus Team"@],
        comments: "A modern chat and voice communication platform"@,
    }
}

/// The Help submenu: the update-check item, a separator, and the about
/// entry.
pub open spec fn spec_help_submenu(version: Seq<char>) -> SubmenuSpec {
    SubmenuSpec {
        title: "Help"@,
        entries: seq![
            MenuEntrySpec::Custom(spec_descriptor_of(MenuAction::CheckUpdates)),
            MenuEntrySpec::Separator,
            MenuEntrySpec::About(spec_about_info(version)),
        ],
    }
}

/// The whole menu tree, for a given product version. Construction is a
/// function of the version alone: building twice with the same version
/// yields structurally identical trees.
pub open spec fn spec_menu(version: Seq<char>) -> MenuTreeSpec {
    MenuTreeSpec {
        submenus: seq![
            spec_file_submenu(),
            spec_edit_submenu(),
            spec_view_submenu(),
            spec_help_submenu(version),
        ],
    }
}

/// The identities of the custom items among these entries, in order.
pub open spec fn spec_entry_identities(es: Seq<MenuEntrySpec>) -> Seq<Seq<char>>
    decreases es.len(),
{
    if es.len() == 0 {
        Seq::empty()
    } else {
        (match es.first() {
            MenuEntrySpec::Custom(d) => seq![d.identity],
            _ => Seq::empty(),
        }) + spec_entry_identities(es.drop_first())
    }
}

/// The identities of the custom items of these submenus, submenu by
/// submenu, in order.
pub open spec fn spec_submenu_identities(ss: Seq<SubmenuSpec>) -> Seq<Seq<char>>
    decreases ss.len(),
{
    if ss.len() == 0 {
        Seq::empty()
    } else {
        spec_entry_identities(ss.first().entries) + spec_submenu_identities(ss.drop_first())
    }
}

/// The identities of all custom items of the tree, in order.
pub open spec fn spec_tree_identities(t: MenuTreeSpec) -> Seq<Seq<char>> {
    spec_submenu_identities(t.submenus)
}

/// The seven custom identities the menu carries, in the order the tree
/// lists them.
pub open spec fn spec_menu_identities() -> Seq<Seq<char>> {
    seq![
        spec_identity_of(MenuAction::Reload),
        spec_identity_of(MenuAction::ToggleDevtools),
        spec_identity_of(MenuAction::ZoomIn),
        spec_identity_of(MenuAction::ZoomOut),
        spec_identity_of(MenuAction::ZoomReset),
        spec_identity_of(MenuAction::ToggleFullscreen),
        spec_identity_of(MenuAction::CheckUpdates),
    ]
}

/// Law: whatever the version, the custom identities of the constructed menu
/// are exactly the seven identities of the dispatch table, each appearing
/// once — no identity repeats, so no dispatch is ambiguous.
pub proof fn lemma_menu_identities_unique(version: Seq<char>)
    ensures
        spec_tree_identities(spec_menu(version)) == spec_menu_identities(),
        forall|i: int, j: int|
            0 <= i < j < spec_menu_identities().len() ==> spec_menu_identities()[i]
                != spec_menu_identities()[j],
{
    reveal_with_fuel(spec_entry_identities, 9);
    reveal_with_fuel(spec_submenu_identities, 5);
    let t = spec_menu(version);
    assert(spec_entry_identities(spec_file_submenu().entries) =~= Seq::empty());
    assert(spec_entry_identities(spec_edit_submenu().entries) =~= Seq::empty());
    assert(spec_entry_identities(spec_view_submenu().entries) =~= seq![
        spec_identity_of(MenuAction::Reload),
        spec_identity_of(MenuAction::ToggleDevtools),
        spec_identity_of(MenuAction::ZoomIn),
        spec_identity_of(MenuAction::ZoomOut),
        spec_identity_of(MenuAction::ZoomReset),
        spec_identity_of(MenuAction::ToggleFullscreen),
    ]);
    assert(spec_entry_identities(spec_help_submenu(version).entries) =~= seq![
        spec_identity_of(MenuAction::CheckUpdates),
    ]);
    assert(spec_tree_identities(t) =~= spec_menu_identities());
    crate::dispatch::lemma_identities_have_distinct_lengths();
}

/// Law: every custom identity the menu carries resolves to an action of
/// the dispatch table — no menu item fires into the unrecognized arm.
pub proof fn lemma_menu_identities_resolve(version: Seq<char>)
    ensures
        forall|i: int|
            0 <= i < spec_tree_identities(spec_menu(version)).len() ==> spec_action_of(
                spec_tree_identities(spec_menu(version))[i],
            ) is Some,
{
    lemma_menu_identities_unique(version);
    assert forall|i: int| 0 <= i < spec_menu_identities().len() implies spec_action_of(
        spec_menu_identities()[i],
    ) is Some by {
        if i == 0 {
            crate::dispatch::lemma_identity_round_trip(MenuAction::Reload);
        } else if i == 1 {
            crate::dispatch::lemma_identity_round_trip(MenuAction::ToggleDevtools);
        } else if i == 2 {
            crate::dispatch::lemma_identity_round_trip(MenuAction::ZoomIn);
        } else if i == 3 {
            crate::dispatch::lemma_identity_round_trip(MenuAction::ZoomOut);
        } else if i == 4 {
            crate::dispatch::lemma_identity_round_trip(MenuAction::ZoomReset);
        } else if i == 5 {
            crate::dispatch::lemma_identity_round_trip(MenuAction::ToggleFullscreen);
        } else {
            crate::dispatch::lemma_identity_round_trip(MenuAction::CheckUpdates);
        }
    }
}

/// Law: menu construction is deterministic — two trees built from the same
/// version have equal values.
pub proof fn lemma_menu_deterministic(t1: MenuTree, t2: MenuTree, version: Seq<char>)
    requires
        t1@ == spec_menu(version),
        t2@ == spec_menu(version),
    ensures
        t1@ == t2@,
{
}

/// The display label of an action's menu item.
pub fn label_of_action(a: MenuAction) -> (s: &'static str)
    ensures
        s@ == spec_label_of(a),
{
    match a {
        MenuAction::Reload => "Reload",
        MenuAction::ToggleDevtools => "Toggle Developer Tools",
        MenuAction::ZoomIn => "Zoom In",
        MenuAction::ZoomOut => "Zoom Out",
        MenuAction::ZoomReset => "Reset Zoom",
        MenuAction::ToggleFullscreen => "Toggle Fullscreen",
        MenuAction::CheckUpdates => "Check for Updates...",
    }
}

/// The keyboard accelerator of an action's menu item, where it has one.
pub fn accelerator_of_action(a: MenuAction) -> (s: Option<&'static str>)
    ensures
        match s {
            Some(acc) => spec_accelerator_of(a) == Some(acc@),
            None => spec_accelerator_of(a) is None,
        },
{
    match a {
        MenuAction::Reload => Some("CmdOrCtrl+R"),
        MenuAction::ToggleDevtools => Some("CmdOrCtrl+Shift+I"),
        MenuAction::ZoomIn => Some("CmdOrCtrl+="),
        MenuAction::ZoomOut => Some("CmdOrCtrl+-"),
        MenuAction::ZoomReset => Some("CmdOrCtrl+0"),
        MenuAction::ToggleFullscreen => Some("F11"),
        MenuAction::CheckUpdates => None,
    }
}

/// Build the descriptor of an action's menu item.
pub fn descriptor_of_action(a: MenuAction) -> (d: MenuItemDescriptor)
    ensures
        d@ == spec_descriptor_of(a),
{
    let accelerator: Option<String> = match accelerator_of_action(a) {
        Some(acc) => Some(acc.to_owned()),
        None => None,
    };
    MenuItemDescriptor {
        identity: identity_of_action(a).to_owned(),
        label: label_of_action(a).to_owned(),
        accelerator,
    }
}

/// Build the File submenu.
pub fn build_file_submenu() -> (s: Submenu)
    ensures
        s@ == spec_file_submenu(),
{
    let entries: Vec<MenuEntry> = vec![MenuEntry::BuiltIn(BuiltInCommand::Quit)];
    let s = Submenu { title: "File".to_owned(), entries };
    proof {
        assert(s@.entries =~= spec_file_submenu().entries);
        assert(s@ =~= spec_file_submenu());
    }
    s
}

/// Build the Edit submenu.
pub fn build_edit_submenu() -> (s: Submenu)
    ensures
        s@ == spec_edit_submenu(),
{
    let entries: Vec<MenuEntry> = vec![
        MenuEntry::BuiltIn(BuiltInCommand::Undo),
        MenuEntry::BuiltIn(BuiltInCommand::Redo),
        MenuEntry::Separator,
        MenuEntry::BuiltIn(BuiltInCommand::Cut),
        MenuEntry::BuiltIn(BuiltInCommand::Copy),
        MenuEntry::BuiltIn(BuiltInCommand::Paste),
        MenuEntry::Separator,
        MenuEntry::BuiltIn(BuiltInCommand::SelectAll),
    ];
    let s = Submenu { title: "Edit".to_owned(), entries };
    proof {
        assert(s@.entries =~= spec_edit_submenu().entries);
        assert(s@ =~= spec_edit_submenu());
    }
    s
}

/// Build the View submenu.
pub fn build_view_submenu() -> (s: Submenu)
    ensures
        s@ == spec_view_submenu(),
{
    let entries: Vec<MenuEntry> = vec![
        MenuEntry::Custom(descriptor_of_action(MenuAction::Reload)),
        MenuEntry::Custom(descriptor_of_action(MenuAction::ToggleDevtools)),
        MenuEntry::Separator,
        MenuEntry::Custom(descriptor_of_action(MenuAction::ZoomIn)),
        MenuEntry::Custom(descriptor_of_action(MenuAction::ZoomOut)),
        MenuEntry::Custom(descriptor_of_action(MenuAction::ZoomReset)),
        MenuEntry::Separator,
        MenuEntry::Custom(descriptor_of_action(MenuAction::ToggleFullscreen)),
    ];
    let s = Submenu { title: "View".to_owned(), entries };
    proof {
        assert(s@.entries =~= spec_view_submenu().entries);
        assert(s@ =~= spec_view_submenu());
    }
    s
}

/// Build the Help submenu, with the given product version in the about
/// entry.
pub fn build_help_submenu(version: &str) -> (s: Submenu)
    ensures
        s@ == spec_help_submenu(version@),
{
    let authors: Vec<String> = vec!["Nexus Team".to_owned()];
    let about = AboutInfo {
        name: "Nexus".to_owned(),
        version: version.to_owned(),
        authors,
        comments: "A modern chat and voice communication platform".to_owned(),
    };
    proof {
        assert(about@.authors =~= spec_about_info(version@).authors);
        assert(about@ =~= spec_about_info(version@));
    }
    let entries: Vec<MenuEntry> = vec![
        MenuEntry::Custom(descriptor_of_action(MenuAction::CheckUpdates)),
        MenuEntry::Separator,
        MenuEntry::About(about),
    ];
    let s = Submenu { title: "Help".to_owned(), entries };
    proof {
        assert(s@.entries =~= spec_help_submenu(version@).entries);
        assert(s@ =~= spec_help_submenu(version@));
    }
    s
}

/// Build the whole menu tree, with the given product version in the about
/// entry. The result is a function of the version alone: building twice
/// with the same version yields structurally identical trees.
pub fn build_menu(version: &str) -> (t: MenuTree)
    ensures
        t@ == spec_menu(version@),
{
    let submenus: Vec<Submenu> = vec![
        build_file_submenu(),
        build_edit_submenu(),
        build_view_submenu(),
        build_help_submenu(version),
    ];
    let t = MenuTree { submenus };
    proof {
        assert(t@.submenus =~= spec_menu(version@).submenus);
        assert(t@ =~= spec_menu(version@));
    }
    t
}

} // verus!
