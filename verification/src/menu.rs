//! The tray's menu: its two entries, the identifiers a backend gives them, and
//! the way back from an identifier to the command it stands for.

use vstd::prelude::*;
use crate::command::TrayCommand;

verus! {

/// The text shown for the tray icon itself.
pub const TRAY_TITLE: &'static str = "Lan Mouse";

/// An entry of the tray menu.
#[derive(Clone, Copy, Debug, PartialEq, Eq, Structural)]
pub enum MenuEntry {
    /// Brings the main window back.
    Open,
    /// Ends the application.
    Quit,
}

impl MenuEntry {
    /// The command an entry raises.
    pub open spec fn spec_command(self) -> TrayCommand {
        match self {
            MenuEntry::Open => TrayCommand::Show,
            MenuEntry::Quit => TrayCommand::Quit,
        }
    }

    /// The text an entry shows.
    pub open spec fn spec_label(self) -> Seq<char> {
        match self {
            MenuEntry::Open => "Open"@,
            MenuEntry::Quit => "Quit"@,
        }
    }

    /// The command an entry raises.
    #[verifier::when_used_as_spec(spec_command)]
    pub fn command(self) -> (command: TrayCommand)
        ensures
            command == self.spec_command(),
    {
        match self {
            MenuEntry::Open => TrayCommand::Show,
            MenuEntry::Quit => TrayCommand::Quit,
        }
    }

    /// The text an entry shows.
    pub fn label(self) -> (label: &'static str)
        ensures
            label@ == self.spec_label(),
    {
        match self {
            MenuEntry::Open => "Open",
            MenuEntry::Quit => "Quit",
        }
    }
}

/// The entries of the menu, top to bottom.
pub fn menu_entries() -> (entries: Vec<MenuEntry>)
    ensures
        entries@ == seq![MenuEntry::Open, MenuEntry::Quit],
{
    let mut entries: Vec<MenuEntry> = Vec::new();
    entries.push(MenuEntry::Open);
    entries.push(MenuEntry::Quit);
    entries
}

/// The identifier a backend has given to a menu item. Identifiers are issued
/// once and only ever compared.
#[derive(Clone, Debug, PartialEq, Eq)]
pub struct MenuItemId {
    /// The identifier as the backend spells it.
    pub id: String,
}

impl View for MenuItemId {
    type V = Seq<char>;

    open spec fn view(&self) -> Seq<char> {
        self.id@
    }
}

impl MenuItemId {
    /// Wraps a backend's identifier.
    pub fn new(id: String) -> (item: MenuItemId)
        ensures
            item@ == id@,
    {
        MenuItemId { id }
    }

    /// Whether two identifiers name the same item.
    pub fn same_as(&self, other: &MenuItemId) -> (same: bool)
        ensures
            same == (self@ == other@),
    {
        self.id == other.id
    }
}

/// Which identifier stands for which entry. Built once, before the first
/// event, and never changed.
#[derive(Clone, Debug, PartialEq, Eq)]
pub struct MenuBindings {
    /// Identifier of the "Open" item.
    pub open: MenuItemId,
    /// Identifier of the "Quit" item.
    pub quit: MenuItemId,
}

impl MenuBindings {
    /// The two entries have identifiers of their own.
    pub open spec fn distinct(&self) -> bool {
        self.open@ != self.quit@
    }

    /// The identifier bound to `entry`.
    pub open spec fn spec_id_of(&self, entry: MenuEntry) -> Seq<char> {
        match entry {
            MenuEntry::Open => self.open@,
            MenuEntry::Quit => self.quit@,
        }
    }

    /// The entry that `id` is bound to, if any; "Open" is looked at first.
    pub open spec fn spec_entry_for(&self, id: Seq<char>) -> Option<MenuEntry> {
        if id == self.open@ {
            Some(MenuEntry::Open)
        } else if id == self.quit@ {
            Some(MenuEntry::Quit)
        } else {
            None
        }
    }

    /// The command that `id` stands for, if any.
    pub open spec fn spec_command_for(&self, id: Seq<char>) -> Option<TrayCommand> {
        match self.spec_entry_for(id) {
            Some(entry) => Some(entry.spec_command()),
            None => None,
        }
    }

    /// Binds the two entries to the identifiers the backend issued for them.
    pub fn new(open: MenuItemId, quit: MenuItemId) -> (bindings: MenuBindings)
        ensures
            bindings.open == open,
            bindings.quit == quit,
    {
        MenuBindings { open, quit }
    }

    /// The identifier bound to `entry`.
    pub fn id_of(&self, entry: MenuEntry) -> (id: &MenuItemId)
        ensures
            id@ == self.spec_id_of(entry),
    {
        match entry {
            MenuEntry::Open => &self.open,
            MenuEntry::Quit => &self.quit,
        }
    }

    /// The entry that `id` is bound to, if any.
    pub fn entry_for(&self, id: &MenuItemId) -> (entry: Option<MenuEntry>)
        ensures
            entry == self.spec_entry_for(id@),
    {
        if id.same_as(&self.open) {
            Some(MenuEntry::Open)
        } else if id.same_as(&self.quit) {
            Some(MenuEntry::Quit)
        } else {
            None
        }
    }

    /// The command that `id` stands for, if any.
    pub fn command_for(&self, id: &MenuItemId) -> (command: Option<TrayCommand>)
        ensures
            command == self.spec_command_for(id@),
    {
        match self.entry_for(id) {
            Some(entry) => Some(entry.command()),
            None => None,
        }
    }
}

/// Identifiers and entries correspond one to one: with distinct identifiers,
/// looking up the identifier of an entry gives that entry back, and an
/// identifier that is found is the identifier of the entry found.
pub proof fn bindings_are_one_to_one(bindings: MenuBindings, entry: MenuEntry, id: Seq<char>)
    requires
        bindings.distinct(),
    ensures
        bindings.spec_entry_for(bindings.spec_id_of(entry)) == Some(entry),
        bindings.spec_entry_for(id) == Some(entry) <==> id == bindings.spec_id_of(entry),
{
}

} // verus!
