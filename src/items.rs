use std::collections::HashMap;
use vstd::prelude::*;

use crate::about_metadata::{opt_str_view, opt_view, AboutMetadata};
use crate::container::{
    insert_child, insert_children, inserted, inserted_all, remove_child, remove_child_at,
    removed_id, contains_id, snapshot,
};
use crate::error::Error;
use crate::event::{DeliveryMode, MenuEvent, MenuEventSink};
use crate::menu::{Attachment, MenuTheme};
use crate::icon::Icon;
use crate::menu_id::MenuId;

verus! {

broadcast use vstd::std_specs::hash::group_hash_axioms;

/// Which of the five kinds of menu item a node is.
#[derive(Debug, Clone, Copy, PartialEq, Eq, Structural)]
pub enum MenuItemType {
    MenuItem,
    Submenu,
    Predefined,
    Check,
    Icon,
}

impl Default for MenuItemType {
    fn default() -> (r: Self)
        ensures
            r == MenuItemType::MenuItem,
    {
        MenuItemType::MenuItem
    }
}

/// The standard actions a [`PredefinedMenuItem`] can stand for.
#[derive(Debug, Clone, Copy, PartialEq, Eq, Structural)]
pub enum PredefinedMenuItemType {
    Separator,
    Copy,
    Cut,
    Paste,
    SelectAll,
    Undo,
    Redo,
    Minimize,
    Maximize,
    CloseWindow,
    Quit,
    About,
}

/// A normal menu item: a label that can be activated.
#[derive(Debug)]
pub struct MenuItem {
    id: MenuId,
    slot: usize,
}

/// A menu item that holds other items.
#[derive(Debug)]
pub struct Submenu {
    id: MenuId,
    slot: usize,
}

/// A menu item for a standard action of the platform (copy, paste, a separator, ...).
#[derive(Debug)]
pub struct PredefinedMenuItem {
    id: MenuId,
    slot: usize,
}

/// A menu item with a check mark.
#[derive(Debug)]
pub struct CheckMenuItem {
    id: MenuId,
    slot: usize,
}

/// A menu item with an icon.
#[derive(Debug)]
pub struct IconMenuItem {
    id: MenuId,
    slot: usize,
}

impl Clone for MenuItem {
    fn clone(&self) -> (r: Self)
        ensures
            r == *self,
    {
        MenuItem { id: self.id.clone(), slot: self.slot }
    }
}

impl Clone for Submenu {
    fn clone(&self) -> (r: Self)
        ensures
            r == *self,
    {
        Submenu { id: self.id.clone(), slot: self.slot }
    }
}

impl Clone for PredefinedMenuItem {
    fn clone(&self) -> (r: Self)
        ensures
            r == *self,
    {
        PredefinedMenuItem { id: self.id.clone(), slot: self.slot }
    }
}

impl Clone for CheckMenuItem {
    fn clone(&self) -> (r: Self)
        ensures
            r == *self,
    {
        CheckMenuItem { id: self.id.clone(), slot: self.slot }
    }
}

impl Clone for IconMenuItem {
    fn clone(&self) -> (r: Self)
        ensures
            r == *self,
    {
        IconMenuItem { id: self.id.clone(), slot: self.slot }
    }
}

/// One menu item of any of the five kinds, as stored in a menu.
#[derive(Debug)]
pub enum MenuItemKind {
    MenuItem(MenuItem),
    Submenu(Submenu),
    Predefined(PredefinedMenuItem),
    Check(CheckMenuItem),
    Icon(IconMenuItem),
}

impl Clone for MenuItemKind {
    fn clone(&self) -> (r: Self)
        ensures
            r == *self,
    {
        match self {
            MenuItemKind::MenuItem(i) => MenuItemKind::MenuItem(i.clone()),
            MenuItemKind::Submenu(i) => MenuItemKind::Submenu(i.clone()),
            MenuItemKind::Predefined(i) => MenuItemKind::Predefined(i.clone()),
            MenuItemKind::Check(i) => MenuItemKind::Check(i.clone()),
            MenuItemKind::Icon(i) => MenuItemKind::Icon(i.clone()),
        }
    }
}

impl MenuItemKind {
    /// The text of the item's identifier.
    pub closed spec fn id_view(&self) -> Seq<char> {
        match self {
            MenuItemKind::MenuItem(i) => i.id@,
            MenuItemKind::Submenu(i) => i.id@,
            MenuItemKind::Predefined(i) => i.id@,
            MenuItemKind::Check(i) => i.id@,
            MenuItemKind::Icon(i) => i.id@,
        }
    }

    /// The place of the item's state in its store, which is also its native command id.
    pub closed spec fn slot(&self) -> nat {
        match self {
            MenuItemKind::MenuItem(i) => i.slot as nat,
            MenuItemKind::Submenu(i) => i.slot as nat,
            MenuItemKind::Predefined(i) => i.slot as nat,
            MenuItemKind::Check(i) => i.slot as nat,
            MenuItemKind::Icon(i) => i.slot as nat,
        }
    }

    /// The kind of the item.
    pub open spec fn item_type(&self) -> MenuItemType {
        match self {
            MenuItemKind::MenuItem(_) => MenuItemType::MenuItem,
            MenuItemKind::Submenu(_) => MenuItemType::Submenu,
            MenuItemKind::Predefined(_) => MenuItemType::Predefined,
            MenuItemKind::Check(_) => MenuItemType::Check,
            MenuItemKind::Icon(_) => MenuItemType::Icon,
        }
    }

    /// Returns the identifier of this menu item.
    pub fn id(&self) -> (r: &MenuId)
        ensures
            r@ == self.id_view(),
    {
        match self {
            MenuItemKind::MenuItem(i) => &i.id,
            MenuItemKind::Submenu(i) => &i.id,
            MenuItemKind::Predefined(i) => &i.id,
            MenuItemKind::Check(i) => &i.id,
            MenuItemKind::Icon(i) => &i.id,
        }
    }

    /// Returns the native command id of this menu item.
    pub fn native_id(&self) -> (r: usize)
        ensures
            r == self.slot(),
    {
        match self {
            MenuItemKind::MenuItem(i) => i.slot,
            MenuItemKind::Submenu(i) => i.slot,
            MenuItemKind::Predefined(i) => i.slot,
            MenuItemKind::Check(i) => i.slot,
            MenuItemKind::Icon(i) => i.slot,
        }
    }

    /// Returns the kind of this menu item.
    pub fn item_kind(&self) -> (r: MenuItemType)
        ensures
            r == self.item_type(),
    {
        match self {
            MenuItemKind::MenuItem(_) => MenuItemType::MenuItem,
            MenuItemKind::Submenu(_) => MenuItemType::Submenu,
            MenuItemKind::Predefined(_) => MenuItemType::Predefined,
            MenuItemKind::Check(_) => MenuItemType::Check,
            MenuItemKind::Icon(_) => MenuItemType::Icon,
        }
    }

    /// Casts this item to a [`MenuItem`], or `None` if it is another kind.
    pub fn as_menuitem(&self) -> (r: Option<&MenuItem>)
        ensures
            match self {
                MenuItemKind::MenuItem(i) => r == Some(i),
                _ => r is None,
            },
    {
        match self {
            MenuItemKind::MenuItem(i) => Some(i),
            _ => None,
        }
    }

    /// Casts this item to a [`MenuItem`]; the item must be one.
    pub fn as_menuitem_unchecked(&self) -> (r: &MenuItem)
        requires
            self is MenuItem,
        ensures
            *r == self->MenuItem_0,
    {
        match self {
            MenuItemKind::MenuItem(i) => i,
            _ => unreached(),
        }
    }
    /// Casts this item to a [`Submenu`], or `None` if it is another kind.
    pub fn as_submenu(&self) -> (r: Option<&Submenu>)
        ensures
            match self {
                MenuItemKind::Submenu(i) => r == Some(i),
                _ => r is None,
            },
    {
        match self {
            MenuItemKind::Submenu(i) => Some(i),
            _ => None,
        }
    }

    /// Casts this item to a [`Submenu`]; the item must be one.
    pub fn as_submenu_unchecked(&self) -> (r: &Submenu)
        requires
            self is Submenu,
        ensures
            *r == self->Submenu_0,
    {
        match self {
            MenuItemKind::Submenu(i) => i,
            _ => unreached(),
        }
    }

    /// Casts this item to a [`PredefinedMenuItem`], or `None` if it is another kind.
    pub fn as_predefined_menuitem(&self) -> (r: Option<&PredefinedMenuItem>)
        ensures
            match self {
                MenuItemKind::Predefined(i) => r == Some(i),
                _ => r is None,
            },
    {
        match self {
            MenuItemKind::Predefined(i) => Some(i),
            _ => None,
        }
    }

    /// Casts this item to a [`PredefinedMenuItem`]; the item must be one.
    pub fn as_predefined_menuitem_unchecked(&self) -> (r: &PredefinedMenuItem)
        requires
            self is Predefined,
        ensures
            *r == self->Predefined_0,
    {
        match self {
            MenuItemKind::Predefined(i) => i,
            _ => unreached(),
        }
    }

    /// Casts this item to a [`CheckMenuItem`], or `None` if it is another kind.
    pub fn as_check_menuitem(&self) -> (r: Option<&CheckMenuItem>)
        ensures
            match self {
                MenuItemKind::Check(i) => r == Some(i),
                _ => r is None,
            },
    {
        match self {
            MenuItemKind::Check(i) => Some(i),
            _ => None,
        }
    }

    /// Casts this item to a [`CheckMenuItem`]; the item must be one.
    pub fn as_check_menuitem_unchecked(&self) -> (r: &CheckMenuItem)
        requires
            self is Check,
        ensures
            *r == self->Check_0,
    {
        match self {
            MenuItemKind::Check(i) => i,
            _ => unreached(),
        }
    }

    /// Casts this item to a [`IconMenuItem`], or `None` if it is another kind.
    pub fn as_icon_menuitem(&self) -> (r: Option<&IconMenuItem>)
        ensures
            match self {
                MenuItemKind::Icon(i) => r == Some(i),
                _ => r is None,
            },
    {
        match self {
            MenuItemKind::Icon(i) => Some(i),
            _ => None,
        }
    }

    /// Casts this item to a [`IconMenuItem`]; the item must be one.
    pub fn as_icon_menuitem_unchecked(&self) -> (r: &IconMenuItem)
        requires
            self is Icon,
        ensures
            *r == self->Icon_0,
    {
        match self {
            MenuItemKind::Icon(i) => i,
            _ => unreached(),
        }
    }

    /// Converts this item into its identifier.
    pub fn into_id(self) -> (r: MenuId)
        ensures
            r@ == self.id_view(),
    {
        match self {
            MenuItemKind::MenuItem(i) => i.id,
            MenuItemKind::Submenu(i) => i.id,
            MenuItemKind::Predefined(i) => i.id,
            MenuItemKind::Check(i) => i.id,
            MenuItemKind::Icon(i) => i.id,
        }
    }
}

/// The state of one menu item, shared by all handles to it.
#[derive(Debug)]
pub struct ItemState {
    /// The item's identifier.
    pub id: MenuId,
    /// The item's kind.
    pub item_type: MenuItemType,
    /// The label.
    pub text: String,
    /// Whether the item can be activated.
    pub enabled: bool,
    /// Whether the check mark is shown (check items only).
    pub checked: bool,
    /// The keyboard shortcut, as text.
    pub accelerator: Option<String>,
    /// The icon (icon items only).
    pub icon: Option<Icon>,
    /// The standard action (predefined items only).
    pub predefined: Option<PredefinedMenuItemType>,
    /// The metadata for an about dialog (predefined items only).
    pub about: Option<AboutMetadata>,
    /// The children, in order (submenus only).
    pub children: Vec<MenuItemKind>,
}

/// Holds the state of every menu item made through it; item handles refer to it.
///
/// Cloning a handle yields another handle to the same state, so a change made
/// through one handle is seen through every clone.
#[derive(Debug)]
pub struct MenuStore {
    nodes: Vec<ItemState>,
    menus: Vec<MenuState>,
    next_serial: u64,
}

impl MenuStore {
    /// The state of each item, by native command id.
    pub closed spec fn view(&self) -> Seq<ItemState> {
        self.nodes@
    }

    /// The serial number of the next generated identifier.
    pub closed spec fn serial(&self) -> u64 {
        self.next_serial
    }

    /// The state of each root menu.
    pub closed spec fn menus(&self) -> Seq<MenuState> {
        self.menus@
    }

    /// `menu` is a handle to a root menu of this store.
    pub open spec fn holds_menu(&self, menu: Menu) -> bool {
        &&& menu.index() < self.menus().len()
        &&& self.menus()[menu.index() as int].id@ == menu.id_view()
    }

    /// `self` is `old` with one root menu added, the one `menu` is a handle to, which has
    /// no items and no attachments.
    pub open spec fn adds_menu(&self, old: &MenuStore, menu: Menu) -> bool {
        self.adds_menu_with(old, menu, Seq::empty())
    }

    /// `self` is `old` with one root menu added, the one `menu` is a handle to, which has
    /// the items `items` and no attachments.
    pub open spec fn adds_menu_with(&self, old: &MenuStore, menu: Menu, items: Seq<MenuItemKind>) -> bool {
        &&& self@ == old@
        &&& self.menus().len() == old.menus().len() + 1
        &&& self.menus().subrange(0, old.menus().len() as int) == old.menus()
        &&& menu.index() == old.menus().len()
        &&& self.holds_menu(menu)
        &&& menu.children(self) == items
        &&& menu.attachments(self) == Map::<isize, Attachment>::empty()
    }

    /// `self` is `old` where only the root menu `menu` may have changed, keeping its
    /// identifier.
    pub open spec fn menu_changes_only(&self, old: &MenuStore, menu: Menu) -> bool {
        &&& self@ == old@
        &&& self.serial() == old.serial()
        &&& self.menus().len() == old.menus().len()
        &&& forall|j: int| 0 <= j < self.menus().len() && j != menu.index() ==> #[trigger] self.menus()[j] == old.menus()[j]
        &&& self.menus()[menu.index() as int].id == old.menus()[menu.index() as int].id
    }

    /// `self` is `old` where the root menu `menu` has the items `items` and is otherwise
    /// unchanged.
    pub open spec fn menu_items_updated(&self, old: &MenuStore, menu: Menu, items: Seq<MenuItemKind>) -> bool {
        &&& self.menu_changes_only(old, menu)
        &&& menu.attachments(self) == menu.attachments(old)
        &&& menu.children(self) == items
    }

    /// `self` is `old` where the root menu `menu` has the attachments `windows` and is
    /// otherwise unchanged.
    pub open spec fn menu_windows_updated(&self, old: &MenuStore, menu: Menu, windows: Map<isize, Attachment>) -> bool {
        &&& self.menu_changes_only(old, menu)
        &&& menu.children(self) == menu.children(old)
        &&& menu.attachments(self) == windows
    }

    /// `item` is a handle to an item of this store.
    pub open spec fn holds(&self, item: MenuItemKind) -> bool {
        &&& item.slot() < self@.len()
        &&& self@[item.slot() as int].item_type == item.item_type()
        &&& self@[item.slot() as int].id@ == item.id_view()
    }

    /// The state of the item `item` is a handle to.
    pub open spec fn state(&self, item: MenuItemKind) -> ItemState {
        self@[item.slot() as int]
    }

    /// `self` is `old` with one item added, the one `item` is a handle to.
    pub open spec fn extends(&self, old: &MenuStore, item: MenuItemKind) -> bool {
        &&& self@.len() == old@.len() + 1
        &&& self@.subrange(0, old@.len() as int) == old@
        &&& self.menus() == old.menus()
        &&& item.slot() == old@.len()
        &&& self.holds(item)
    }

    /// `self` is `old` where only the item at `slot` may have changed, and keeps its
    /// identifier and kind.
    pub open spec fn changes_only(&self, old: &MenuStore, slot: nat) -> bool {
        &&& self@.len() == old@.len()
        &&& self.serial() == old.serial()
        &&& self.menus() == old.menus()
        &&& forall|j: int| 0 <= j < self@.len() && j != slot ==> #[trigger] self@[j] == old@[j]
        &&& self@[slot as int].id == old@[slot as int].id
        &&& self@[slot as int].item_type == old@[slot as int].item_type
    }

    /// `self` is `old` where the item at `slot` has the children `children` and is otherwise
    /// unchanged.
    pub open spec fn with_children(&self, old: &MenuStore, slot: nat, children: Seq<MenuItemKind>) -> bool {
        &&& self.changes_only(old, slot)
        &&& self@[slot as int].text == old@[slot as int].text
        &&& self@[slot as int].enabled == old@[slot as int].enabled
        &&& self@[slot as int].checked == old@[slot as int].checked
        &&& self@[slot as int].children@ == children
    }

    /// A store with no items.
    pub fn new() -> (r: MenuStore)
        ensures
            r@.len() == 0,
            r.serial() == 0,
    {
        MenuStore { nodes: Vec::new(), menus: Vec::new(), next_serial: 0 }
    }

    /// Makes the next generated identifier.
    pub fn generate_id(&mut self) -> (r: MenuId)
        requires
            old(self).serial() < u64::MAX,
        ensures
            r@ == MenuId::generated(old(self).serial()),
            final(self).serial() == old(self).serial() + 1,
            final(self)@ == old(self)@,
            final(self).menus() == old(self).menus(),
    {
        let r = MenuId::from_serial(self.next_serial);
        self.next_serial = self.next_serial + 1;
        r
    }

    fn add(&mut self, state: ItemState) -> (slot: usize)
        ensures
            slot == old(self)@.len(),
            final(self)@ == old(self)@.push(state),
            final(self).serial() == old(self).serial(),
            final(self).menus() == old(self).menus(),
    {
        let slot = self.nodes.len();
        self.nodes.push(state);
        slot
    }

    fn id_for(&mut self, id: Option<MenuId>) -> (r: MenuId)
        requires
            id is None ==> old(self).serial() < u64::MAX,
        ensures
            id is Some ==> r == id->Some_0 && final(self).serial() == old(self).serial(),
            id is None ==> r@ == MenuId::generated(old(self).serial()) && final(self).serial()
                == old(self).serial() + 1,
            final(self)@ == old(self)@,
            final(self).menus() == old(self).menus(),
    {
        match id {
            Some(id) => id,
            None => self.generate_id(),
        }
    }

    /// The label of `item`.
    pub fn text<I: IsMenuItem>(&self, item: &I) -> (r: String)
        requires
            self.holds(item.menu_item_kind()),
        ensures
            r@ == self.state(item.menu_item_kind()).text@,
    {
        self.nodes[item.native_id()].text.clone()
    }

    /// Sets the label of `item`.
    pub fn set_text<I: IsMenuItem>(&mut self, item: &I, text: &str)
        requires
            old(self).holds(item.menu_item_kind()),
        ensures
            final(self).changes_only(old(self), item.menu_item_kind().slot()),
            final(self).state(item.menu_item_kind()).text@ == text@,
            final(self).state(item.menu_item_kind()).enabled == old(self).state(item.menu_item_kind()).enabled,
            final(self).state(item.menu_item_kind()).checked == old(self).state(item.menu_item_kind()).checked,
    {
        let slot = item.native_id();
        self.nodes[slot].text = text.to_owned();
    }

    /// Whether `item` can be activated.
    pub fn is_enabled<I: IsMenuItem>(&self, item: &I) -> (r: bool)
        requires
            self.holds(item.menu_item_kind()),
        ensures
            r == self.state(item.menu_item_kind()).enabled,
    {
        self.nodes[item.native_id()].enabled
    }

    /// Sets whether `item` can be activated.
    pub fn set_enabled<I: IsMenuItem>(&mut self, item: &I, enabled: bool)
        requires
            old(self).holds(item.menu_item_kind()),
        ensures
            final(self).changes_only(old(self), item.menu_item_kind().slot()),
            final(self).state(item.menu_item_kind()).enabled == enabled,
            final(self).state(item.menu_item_kind()).text == old(self).state(item.menu_item_kind()).text,
            final(self).state(item.menu_item_kind()).checked == old(self).state(item.menu_item_kind()).checked,
    {
        let slot = item.native_id();
        self.nodes[slot].enabled = enabled;
    }

    /// Whether the check mark of `item` is shown.
    pub fn is_checked<I: IsMenuItem>(&self, item: &I) -> (r: bool)
        requires
            self.holds(item.menu_item_kind()),
        ensures
            r == self.state(item.menu_item_kind()).checked,
    {
        self.nodes[item.native_id()].checked
    }

    /// Shows or hides the check mark of a check item.
    pub fn set_checked(&mut self, item: &CheckMenuItem, checked: bool)
        requires
            old(self).holds(item.menu_item_kind()),
        ensures
            final(self).changes_only(old(self), item.menu_item_kind().slot()),
            final(self).state(item.menu_item_kind()).checked == checked,
            final(self).state(item.menu_item_kind()).text == old(self).state(item.menu_item_kind()).text,
            final(self).state(item.menu_item_kind()).enabled == old(self).state(item.menu_item_kind()).enabled,
    {
        let slot = item.native_id();
        self.nodes[slot].checked = checked;
    }

    /// Sets the keyboard shortcut of `item`.
    pub fn set_accelerator<I: IsMenuItem>(&mut self, item: &I, accelerator: Option<&str>)
        requires
            old(self).holds(item.menu_item_kind()),
        ensures
            final(self).changes_only(old(self), item.menu_item_kind().slot()),
            opt_view(final(self).state(item.menu_item_kind()).accelerator) == opt_str_view(accelerator),
            final(self).state(item.menu_item_kind()).text == old(self).state(item.menu_item_kind()).text,
            final(self).state(item.menu_item_kind()).enabled == old(self).state(item.menu_item_kind()).enabled,
            final(self).state(item.menu_item_kind()).checked == old(self).state(item.menu_item_kind()).checked,
    {
        let slot = item.native_id();
        self.nodes[slot].accelerator = match accelerator {
            Some(a) => Some(a.to_owned()),
            None => None,
        };
    }

    /// Sets or clears the icon of an icon item.
    pub fn set_icon(&mut self, item: &IconMenuItem, icon: Option<Icon>)
        requires
            old(self).holds(item.menu_item_kind()),
        ensures
            final(self).changes_only(old(self), item.menu_item_kind().slot()),
            final(self).state(item.menu_item_kind()).icon == icon,
            final(self).state(item.menu_item_kind()).text == old(self).state(item.menu_item_kind()).text,
            final(self).state(item.menu_item_kind()).enabled == old(self).state(item.menu_item_kind()).enabled,
            final(self).state(item.menu_item_kind()).checked == old(self).state(item.menu_item_kind()).checked,
    {
        let slot = item.native_id();
        self.nodes[slot].icon = icon;
    }

    fn create(
        &mut self,
        id: Option<MenuId>,
        item_type: MenuItemType,
        text: &str,
        enabled: bool,
        checked: bool,
        accelerator: Option<&str>,
        icon: Option<Icon>,
        predefined: Option<PredefinedMenuItemType>,
        about: Option<AboutMetadata>,
    ) -> (r: (MenuId, usize))
        requires
            id is None ==> old(self).serial() < u64::MAX,
        ensures
            r.1 == old(self)@.len(),
            final(self)@.len() == old(self)@.len() + 1,
            final(self)@.subrange(0, old(self)@.len() as int) == old(self)@,
            final(self).menus() == old(self).menus(),
            final(self)@[r.1 as int].id == r.0,
            final(self)@[r.1 as int].item_type == item_type,
            is_new_item(final(self)@[r.1 as int], text@, enabled, checked, opt_str_view(accelerator)),
            final(self)@[r.1 as int].icon == icon,
            final(self)@[r.1 as int].predefined == predefined,
            final(self)@[r.1 as int].about == about,
            id is Some ==> r.0 == id->Some_0 && final(self).serial() == old(self).serial(),
            id is None ==> r.0@ == MenuId::generated(old(self).serial()) && final(self).serial()
                == old(self).serial() + 1,
    {
        let id = self.id_for(id);
        let state = ItemState {
            id: id.clone(),
            item_type,
            text: text.to_owned(),
            enabled,
            checked,
            accelerator: match accelerator {
                Some(a) => Some(a.to_owned()),
                None => None,
            },
            icon,
            predefined,
            about,
            children: Vec::new(),
        };
        let slot = self.add(state);
        assert(self@.subrange(0, old(self)@.len() as int) == old(self)@);
        (id, slot)
    }

    /// The identifier of the item with native command id `native_id`, if there is one.
    pub fn id_of_native(&self, native_id: usize) -> (r: Option<MenuId>)
        ensures
            native_id < self@.len() ==> r is Some && r->Some_0 == self@[native_id as int].id,
            native_id >= self@.len() ==> r is None,
    {
        if native_id < self.nodes.len() {
            Some(self.nodes[native_id].id.clone())
        } else {
            None
        }
    }
}

/// A freshly made item with this label, flags and shortcut, and no children.
pub open spec fn is_new_item(
    s: ItemState,
    text: Seq<char>,
    enabled: bool,
    checked: bool,
    accelerator: Option<Seq<char>>,
) -> bool {
    &&& s.text@ == text
    &&& s.enabled == enabled
    &&& s.checked == checked
    &&& opt_view(s.accelerator) == accelerator
    &&& s.children@.len() == 0
}

/// The label a predefined item gets when none is given.
pub open spec fn default_text(kind: PredefinedMenuItemType) -> Seq<char> {
    match kind {
        PredefinedMenuItemType::Separator => ""@,
        PredefinedMenuItemType::Copy => "&Copy"@,
        PredefinedMenuItemType::Cut => "Cu&t"@,
        PredefinedMenuItemType::Paste => "&Paste"@,
        PredefinedMenuItemType::SelectAll => "Select &All"@,
        PredefinedMenuItemType::Undo => "&Undo"@,
        PredefinedMenuItemType::Redo => "&Redo"@,
        PredefinedMenuItemType::Minimize => "&Minimize"@,
        PredefinedMenuItemType::Maximize => "Ma&ximize"@,
        PredefinedMenuItemType::CloseWindow => "Close"@,
        PredefinedMenuItemType::Quit => "&Exit"@,
        PredefinedMenuItemType::About => "&About"@,
    }
}

fn default_text_of(kind: PredefinedMenuItemType) -> (r: &'static str)
    ensures
        r@ == default_text(kind),
{
    match kind {
        PredefinedMenuItemType::Separator => "",
        PredefinedMenuItemType::Copy => "&Copy",
        PredefinedMenuItemType::Cut => "Cu&t",
        PredefinedMenuItemType::Paste => "&Paste",
        PredefinedMenuItemType::SelectAll => "Select &All",
        PredefinedMenuItemType::Undo => "&Undo",
        PredefinedMenuItemType::Redo => "&Redo",
        PredefinedMenuItemType::Minimize => "&Minimize",
        PredefinedMenuItemType::Maximize => "Ma&ximize",
        PredefinedMenuItemType::CloseWindow => "Close",
        PredefinedMenuItemType::Quit => "&Exit",
        PredefinedMenuItemType::About => "&About",
    }
}

impl MenuItem {
    /// Creates a menu item with a generated identifier.
    pub fn new(store: &mut MenuStore, text: &str, enabled: bool, accelerator: Option<&str>) -> (r: MenuItem)
        requires
            old(store).serial() < u64::MAX,
        ensures
            final(store).extends(old(store), r.menu_item_kind()),
            r.menu_item_kind().id_view() == MenuId::generated(old(store).serial()),
            final(store).serial() == old(store).serial() + 1,
            is_new_item(final(store).state(r.menu_item_kind()), text@, enabled, false, opt_str_view(accelerator)),
    {
        let (id, slot) = store.create(None, MenuItemType::MenuItem, text, enabled, false, accelerator, None, None, None);
        MenuItem { id, slot }
    }

    /// Creates a menu item with the given identifier.
    pub fn with_id(store: &mut MenuStore, id: MenuId, text: &str, enabled: bool, accelerator: Option<&str>) -> (r: MenuItem)
        ensures
            final(store).extends(old(store), r.menu_item_kind()),
            r.menu_item_kind().id_view() == id@,
            final(store).serial() == old(store).serial(),
            is_new_item(final(store).state(r.menu_item_kind()), text@, enabled, false, opt_str_view(accelerator)),
    {
        let (id, slot) = store.create(Some(id), MenuItemType::MenuItem, text, enabled, false, accelerator, None, None, None);
        MenuItem { id, slot }
    }
}

impl CheckMenuItem {
    /// Creates a check menu item with a generated identifier.
    pub fn new(store: &mut MenuStore, text: &str, enabled: bool, checked: bool, accelerator: Option<&str>) -> (r: CheckMenuItem)
        requires
            old(store).serial() < u64::MAX,
        ensures
            final(store).extends(old(store), r.menu_item_kind()),
            r.menu_item_kind().id_view() == MenuId::generated(old(store).serial()),
            final(store).serial() == old(store).serial() + 1,
            is_new_item(final(store).state(r.menu_item_kind()), text@, enabled, checked, opt_str_view(accelerator)),
    {
        let (id, slot) = store.create(None, MenuItemType::Check, text, enabled, checked, accelerator, None, None, None);
        CheckMenuItem { id, slot }
    }

    /// Creates a check menu item with the given identifier.
    pub fn with_id(store: &mut MenuStore, id: MenuId, text: &str, enabled: bool, checked: bool, accelerator: Option<&str>) -> (r: CheckMenuItem)
        ensures
            final(store).extends(old(store), r.menu_item_kind()),
            r.menu_item_kind().id_view() == id@,
            final(store).serial() == old(store).serial(),
            is_new_item(final(store).state(r.menu_item_kind()), text@, enabled, checked, opt_str_view(accelerator)),
    {
        let (id, slot) = store.create(Some(id), MenuItemType::Check, text, enabled, checked, accelerator, None, None, None);
        CheckMenuItem { id, slot }
    }
}

impl IconMenuItem {
    /// Creates an icon menu item with a generated identifier.
    pub fn new(store: &mut MenuStore, text: &str, enabled: bool, icon: Option<Icon>, accelerator: Option<&str>) -> (r: IconMenuItem)
        requires
            old(store).serial() < u64::MAX,
        ensures
            final(store).extends(old(store), r.menu_item_kind()),
            r.menu_item_kind().id_view() == MenuId::generated(old(store).serial()),
            final(store).serial() == old(store).serial() + 1,
            is_new_item(final(store).state(r.menu_item_kind()), text@, enabled, false, opt_str_view(accelerator)),
            final(store).state(r.menu_item_kind()).icon == icon,
    {
        let (id, slot) = store.create(None, MenuItemType::Icon, text, enabled, false, accelerator, icon, None, None);
        IconMenuItem { id, slot }
    }

    /// Creates an icon menu item with the given identifier.
    pub fn with_id(store: &mut MenuStore, id: MenuId, text: &str, enabled: bool, icon: Option<Icon>, accelerator: Option<&str>) -> (r: IconMenuItem)
        ensures
            final(store).extends(old(store), r.menu_item_kind()),
            r.menu_item_kind().id_view() == id@,
            final(store).serial() == old(store).serial(),
            is_new_item(final(store).state(r.menu_item_kind()), text@, enabled, false, opt_str_view(accelerator)),
            final(store).state(r.menu_item_kind()).icon == icon,
    {
        let (id, slot) = store.create(Some(id), MenuItemType::Icon, text, enabled, false, accelerator, icon, None, None);
        IconMenuItem { id, slot }
    }
}

impl PredefinedMenuItem {
    /// Creates an item for the standard action `kind`, labelled `text` or, where that is
    /// `None`, with the action's usual label.
    pub fn new(store: &mut MenuStore, kind: PredefinedMenuItemType, text: Option<&str>) -> (r: PredefinedMenuItem)
        requires
            old(store).serial() < u64::MAX,
        ensures
            final(store).extends(old(store), r.menu_item_kind()),
            r.menu_item_kind().id_view() == MenuId::generated(old(store).serial()),
            final(store).serial() == old(store).serial() + 1,
            is_new_item(
                final(store).state(r.menu_item_kind()),
                match text {
                    Some(t) => t@,
                    None => default_text(kind),
                },
                true,
                false,
                None,
            ),
            final(store).state(r.menu_item_kind()).predefined == Some(kind),
            final(store).state(r.menu_item_kind()).about is None,
    {
        let label = match text {
            Some(t) => t,
            None => default_text_of(kind),
        };
        let (id, slot) = store.create(None, MenuItemType::Predefined, label, true, false, None, None, Some(kind), None);
        PredefinedMenuItem { id, slot }
    }

    /// Creates a separator.
    pub fn separator(store: &mut MenuStore) -> (r: PredefinedMenuItem)
        requires
            old(store).serial() < u64::MAX,
        ensures
            final(store).extends(old(store), r.menu_item_kind()),
            r.menu_item_kind().id_view() == MenuId::generated(old(store).serial()),
            final(store).serial() == old(store).serial() + 1,
            final(store).state(r.menu_item_kind()).predefined == Some(PredefinedMenuItemType::Separator),
    {
        PredefinedMenuItem::new(store, PredefinedMenuItemType::Separator, None)
    }

    /// Creates an item that opens the about dialog with `metadata`.
    pub fn about(store: &mut MenuStore, text: Option<&str>, metadata: Option<AboutMetadata>) -> (r: PredefinedMenuItem)
        requires
            old(store).serial() < u64::MAX,
        ensures
            final(store).extends(old(store), r.menu_item_kind()),
            r.menu_item_kind().id_view() == MenuId::generated(old(store).serial()),
            final(store).serial() == old(store).serial() + 1,
            is_new_item(
                final(store).state(r.menu_item_kind()),
                match text {
                    Some(t) => t@,
                    None => default_text(PredefinedMenuItemType::About),
                },
                true,
                false,
                None,
            ),
            final(store).state(r.menu_item_kind()).predefined == Some(PredefinedMenuItemType::About),
            final(store).state(r.menu_item_kind()).about == metadata,
    {
        let label = match text {
            Some(t) => t,
            None => default_text_of(PredefinedMenuItemType::About),
        };
        let (id, slot) = store.create(
            None,
            MenuItemType::Predefined,
            label,
            true,
            false,
            None,
            None,
            Some(PredefinedMenuItemType::About),
            metadata,
        );
        PredefinedMenuItem { id, slot }
    }
}

impl Submenu {
    /// Creates an empty submenu with a generated identifier.
    pub fn new(store: &mut MenuStore, text: &str, enabled: bool) -> (r: Submenu)
        requires
            old(store).serial() < u64::MAX,
        ensures
            final(store).extends(old(store), r.menu_item_kind()),
            r.menu_item_kind().id_view() == MenuId::generated(old(store).serial()),
            final(store).serial() == old(store).serial() + 1,
            is_new_item(final(store).state(r.menu_item_kind()), text@, enabled, false, None),
    {
        let (id, slot) = store.create(None, MenuItemType::Submenu, text, enabled, false, None, None, None, None);
        Submenu { id, slot }
    }

    /// Creates an empty submenu with the given identifier.
    pub fn with_id(store: &mut MenuStore, id: MenuId, text: &str, enabled: bool) -> (r: Submenu)
        ensures
            final(store).extends(old(store), r.menu_item_kind()),
            r.menu_item_kind().id_view() == id@,
            final(store).serial() == old(store).serial(),
            is_new_item(final(store).state(r.menu_item_kind()), text@, enabled, false, None),
    {
        let (id, slot) = store.create(Some(id), MenuItemType::Submenu, text, enabled, false, None, None, None, None);
        Submenu { id, slot }
    }

    /// Creates a submenu with a generated identifier and the children `items`.
    pub fn with_items(store: &mut MenuStore, text: &str, enabled: bool, items: &[MenuItemKind]) -> (r: Result<Submenu, Error>)
        requires
            old(store).serial() < u64::MAX,
        ensures
            r is Ok,
            final(store)@.len() == old(store)@.len() + 1,
            final(store)@.subrange(0, old(store)@.len() as int) == old(store)@,
            final(store).menus() == old(store).menus(),
            final(store).holds(r->Ok_0.menu_item_kind()),
            r->Ok_0.menu_item_kind().slot() == old(store)@.len(),
            r->Ok_0.menu_item_kind().id_view() == MenuId::generated(old(store).serial()),
            final(store).serial() == old(store).serial() + 1,
            final(store).state(r->Ok_0.menu_item_kind()).text@ == text@,
            final(store).state(r->Ok_0.menu_item_kind()).enabled == enabled,
            r->Ok_0.children(final(store)) == items@,
    {
        let sub = Submenu::new(store, text, enabled);
        let ghost mid = *store;
        let _ = sub.append_items(store, items);
        assert(store@.subrange(0, old(store)@.len() as int) =~= old(store)@) by {
            assert forall|j: int| 0 <= j < old(store)@.len() implies store@[j] == old(store)@[j] by {
                assert(mid@.subrange(0, old(store)@.len() as int)[j] == mid@[j]);
            }
        }
        Ok(sub)
    }

    /// The children of this submenu in `store`.
    pub open spec fn children(&self, store: &MenuStore) -> Seq<MenuItemKind> {
        store.state(self.menu_item_kind()).children@
    }

    /// Adds `item` at the end of this submenu.
    pub fn append(&self, store: &mut MenuStore, item: &MenuItemKind) -> (r: Result<(), Error>)
        requires
            old(store).holds(self.menu_item_kind()),
        ensures
            r is Ok,
            final(store).with_children(old(store), self.menu_item_kind().slot(), self.children(old(store)).push(*item)),
    {
        store.nodes[self.slot].children.push(item.clone());
        Ok(())
    }

    /// Adds `item` at the beginning of this submenu.
    pub fn prepend(&self, store: &mut MenuStore, item: &MenuItemKind) -> (r: Result<(), Error>)
        requires
            old(store).holds(self.menu_item_kind()),
        ensures
            r is Ok,
            final(store).with_children(old(store), self.menu_item_kind().slot(), inserted(self.children(old(store)), *item, 0)),
    {
        insert_child(&mut store.nodes[self.slot].children, item.clone(), 0);
        Ok(())
    }

    /// Inserts `item` at `position`, or at the end where `position` is past it.
    pub fn insert(&self, store: &mut MenuStore, item: &MenuItemKind, position: usize) -> (r: Result<(), Error>)
        requires
            old(store).holds(self.menu_item_kind()),
        ensures
            r is Ok,
            final(store).with_children(old(store), self.menu_item_kind().slot(), inserted(self.children(old(store)), *item, position as int)),
    {
        insert_child(&mut store.nodes[self.slot].children, item.clone(), position);
        Ok(())
    }

    /// Adds `items`, in order, at the end of this submenu.
    pub fn append_items(&self, store: &mut MenuStore, items: &[MenuItemKind]) -> (r: Result<(), Error>)
        requires
            old(store).holds(self.menu_item_kind()),
        ensures
            r is Ok,
            final(store).with_children(old(store), self.menu_item_kind().slot(), self.children(old(store)) + items@),
    {
        let ghost s = self.children(store);
        let end = store.nodes[self.slot].children.len();
        insert_children(&mut store.nodes[self.slot].children, items, end);
        assert(s.subrange(0, s.len() as int) + items@ + s.subrange(s.len() as int, s.len() as int) =~= s + items@);
        Ok(())
    }

    /// Adds `items`, in order, at the beginning of this submenu.
    pub fn prepend_items(&self, store: &mut MenuStore, items: &[MenuItemKind]) -> (r: Result<(), Error>)
        requires
            old(store).holds(self.menu_item_kind()),
        ensures
            r is Ok,
            final(store).with_children(old(store), self.menu_item_kind().slot(), inserted_all(self.children(old(store)), items@, 0)),
    {
        self.insert_items(store, items, 0)
    }

    /// Inserts `items`, in order, from `position` on, or at the end where `position` is past it.
    pub fn insert_items(&self, store: &mut MenuStore, items: &[MenuItemKind], position: usize) -> (r: Result<(), Error>)
        requires
            old(store).holds(self.menu_item_kind()),
        ensures
            r is Ok,
            final(store).with_children(old(store), self.menu_item_kind().slot(), inserted_all(self.children(old(store)), items@, position as int)),
    {
        insert_children(&mut store.nodes[self.slot].children, items, position);
        Ok(())
    }

    /// Removes the first child with the identifier of `item`, or fails with
    /// [`Error::NotAChildOfThisMenu`] where there is none.
    pub fn remove(&self, store: &mut MenuStore, item: &MenuItemKind) -> (r: Result<(), Error>)
        requires
            old(store).holds(self.menu_item_kind()),
        ensures
            r is Err <==> !contains_id(self.children(old(store)), item.id_view()),
            r is Err ==> r == Err::<(), Error>(Error::NotAChildOfThisMenu) && *final(store) == *old(store),
            r is Ok ==> final(store).with_children(old(store), self.menu_item_kind().slot(), removed_id(self.children(old(store)), item.id_view())),
    {
        if crate::container::position_of(&store.nodes[self.slot].children, item.id()).is_none() {
            return Err(Error::NotAChildOfThisMenu);
        }
        remove_child(&mut store.nodes[self.slot].children, item.id())
    }

    /// Removes and returns the child at `position`, or `None` where there is none.
    pub fn remove_at(&self, store: &mut MenuStore, position: usize) -> (r: Option<MenuItemKind>)
        requires
            old(store).holds(self.menu_item_kind()),
        ensures
            position >= self.children(old(store)).len() ==> r is None && *final(store) == *old(store),
            position < self.children(old(store)).len() ==> r == Some(self.children(old(store))[position as int])
                && final(store).with_children(old(store), self.menu_item_kind().slot(), self.children(old(store)).remove(position as int)),
    {
        if position >= store.nodes[self.slot].children.len() {
            return None;
        }
        remove_child_at(&mut store.nodes[self.slot].children, position)
    }

    /// The children of this submenu, in order.
    pub fn items(&self, store: &MenuStore) -> (r: Vec<MenuItemKind>)
        requires
            store.holds(self.menu_item_kind()),
        ensures
            r@ == self.children(store),
    {
        snapshot(&store.nodes[self.slot].children)
    }
}

/// A change made through one handle is seen through every clone of it: where `b` is a
/// clone of `a` and `after` is `before` with the enabled flag of `a`'s item set to
/// `enabled` (as [`MenuStore::set_enabled`] leaves it), `b` reads `enabled` too.
pub proof fn lemma_clones_share_state(
    before: MenuStore,
    after: MenuStore,
    a: MenuItemKind,
    b: MenuItemKind,
    enabled: bool,
)
    requires
        before.holds(a),
        b == a,
        after.changes_only(&before, a.slot()),
        after.state(a).enabled == enabled,
    ensures
        after.holds(b),
        after.state(b).enabled == enabled,
{
}

/// Marks the types that can stand in a menu; only the five item types of this crate have it.
pub trait IsMenuItemBase {
}

/// A menu item of one of the five kinds, seen uniformly.
pub trait IsMenuItem: IsMenuItemBase + Sized {
    /// The item as a [`MenuItemKind`].
    spec fn menu_item_kind(&self) -> MenuItemKind;

    /// Returns this item as a [`MenuItemKind`], which shares its state.
    fn kind(&self) -> (r: MenuItemKind)
        ensures
            r == self.menu_item_kind(),
    ;

    /// Returns the identifier of this item.
    fn id(&self) -> (r: &MenuId)
        ensures
            r@ == self.menu_item_kind().id_view(),
    ;

    /// Converts this item into its identifier.
    fn into_id(self) -> (r: MenuId)
        ensures
            r@ == self.menu_item_kind().id_view(),
    ;

    /// Returns the native command id of this item.
    fn native_id(&self) -> (r: usize)
        ensures
            r == self.menu_item_kind().slot(),
    ;
}

impl IsMenuItemBase for MenuItem {
}

impl IsMenuItem for MenuItem {
    open spec fn menu_item_kind(&self) -> MenuItemKind {
        MenuItemKind::MenuItem(*self)
    }

    fn kind(&self) -> (r: MenuItemKind) {
        MenuItemKind::MenuItem(self.clone())
    }

    fn id(&self) -> (r: &MenuId) {
        &self.id
    }

    fn into_id(self) -> (r: MenuId) {
        self.id
    }

    fn native_id(&self) -> (r: usize) {
        self.slot
    }
}

impl IsMenuItemBase for Submenu {
}

impl IsMenuItem for Submenu {
    open spec fn menu_item_kind(&self) -> MenuItemKind {
        MenuItemKind::Submenu(*self)
    }

    fn kind(&self) -> (r: MenuItemKind) {
        MenuItemKind::Submenu(self.clone())
    }

    fn id(&self) -> (r: &MenuId) {
        &self.id
    }

    fn into_id(self) -> (r: MenuId) {
        self.id
    }

    fn native_id(&self) -> (r: usize) {
        self.slot
    }
}

impl IsMenuItemBase for PredefinedMenuItem {
}

impl IsMenuItem for PredefinedMenuItem {
    open spec fn menu_item_kind(&self) -> MenuItemKind {
        MenuItemKind::Predefined(*self)
    }

    fn kind(&self) -> (r: MenuItemKind) {
        MenuItemKind::Predefined(self.clone())
    }

    fn id(&self) -> (r: &MenuId) {
        &self.id
    }

    fn into_id(self) -> (r: MenuId) {
        self.id
    }

    fn native_id(&self) -> (r: usize) {
        self.slot
    }
}

impl IsMenuItemBase for CheckMenuItem {
}

impl IsMenuItem for CheckMenuItem {
    open spec fn menu_item_kind(&self) -> MenuItemKind {
        MenuItemKind::Check(*self)
    }

    fn kind(&self) -> (r: MenuItemKind) {
        MenuItemKind::Check(self.clone())
    }

    fn id(&self) -> (r: &MenuId) {
        &self.id
    }

    fn into_id(self) -> (r: MenuId) {
        self.id
    }

    fn native_id(&self) -> (r: usize) {
        self.slot
    }
}

impl IsMenuItemBase for IconMenuItem {
}

impl IsMenuItem for IconMenuItem {
    open spec fn menu_item_kind(&self) -> MenuItemKind {
        MenuItemKind::Icon(*self)
    }

    fn kind(&self) -> (r: MenuItemKind) {
        MenuItemKind::Icon(self.clone())
    }

    fn id(&self) -> (r: &MenuId) {
        &self.id
    }

    fn into_id(self) -> (r: MenuId) {
        self.id
    }

    fn native_id(&self) -> (r: usize) {
        self.slot
    }
}

impl IsMenuItemBase for MenuItemKind {
}

impl IsMenuItem for MenuItemKind {
    open spec fn menu_item_kind(&self) -> MenuItemKind {
        *self
    }

    fn kind(&self) -> (r: MenuItemKind) {
        self.clone()
    }

    fn id(&self) -> (r: &MenuId) {
        MenuItemKind::id(self)
    }

    fn into_id(self) -> (r: MenuId) {
        MenuItemKind::into_id(self)
    }

    fn native_id(&self) -> (r: usize) {
        MenuItemKind::native_id(self)
    }
}

/// The state of one root menu: its items and the windows it is attached to.
#[derive(Debug)]
pub struct MenuState {
    /// The menu's identifier.
    pub id: MenuId,
    /// The items, in order.
    pub items: Vec<MenuItemKind>,
    /// The windows the menu is attached to, with the state on each.
    pub windows: HashMap<isize, Attachment>,
}

/// A root menu: an ordered list of items that can be attached to windows.
///
/// The menu's state lives in a [`MenuStore`]; clones of a `Menu` refer to the same state,
/// so a change made through one is seen through every clone.
#[derive(Debug)]
pub struct Menu {
    id: MenuId,
    index: usize,
}

impl Clone for Menu {
    fn clone(&self) -> (r: Self)
        ensures
            r == *self,
    {
        Menu { id: self.id.clone(), index: self.index }
    }
}

impl Menu {
    /// The identifier of the menu.
    pub closed spec fn id_view(&self) -> Seq<char> {
        self.id@
    }

    /// The place of the menu's state in its store.
    pub closed spec fn index(&self) -> nat {
        self.index as nat
    }

    /// The items of the menu in `store`, in order.
    pub open spec fn children(&self, store: &MenuStore) -> Seq<MenuItemKind> {
        store.menus()[self.index() as int].items@
    }

    /// The windows the menu is attached to in `store`, with the state on each.
    pub open spec fn attachments(&self, store: &MenuStore) -> Map<isize, Attachment> {
        store.menus()[self.index() as int].windows@
    }

    fn create(store: &mut MenuStore, id: Option<MenuId>) -> (r: Menu)
        requires
            id is None ==> old(store).serial() < u64::MAX,
        ensures
            final(store).adds_menu(old(store), r),
            id is Some ==> r.id_view() == id->Some_0@ && final(store).serial() == old(store).serial(),
            id is None ==> r.id_view() == MenuId::generated(old(store).serial()) && final(store).serial()
                == old(store).serial() + 1,
    {
        let id = store.id_for(id);
        let index = store.menus.len();
        store.menus.push(MenuState { id: id.clone(), items: Vec::new(), windows: HashMap::new() });
        assert(store.menus@.subrange(0, old(store).menus@.len() as int) == old(store).menus@);
        Menu { id, index }
    }

    /// Creates an empty menu with a generated identifier.
    pub fn new(store: &mut MenuStore) -> (r: Menu)
        requires
            old(store).serial() < u64::MAX,
        ensures
            final(store).adds_menu(old(store), r),
            r.id_view() == MenuId::generated(old(store).serial()),
            final(store).serial() == old(store).serial() + 1,
    {
        Menu::create(store, None)
    }

    /// Creates an empty menu with the given identifier.
    pub fn with_id(store: &mut MenuStore, id: MenuId) -> (r: Menu)
        ensures
            final(store).adds_menu(old(store), r),
            r.id_view() == id@,
            final(store).serial() == old(store).serial(),
    {
        Menu::create(store, Some(id))
    }

    /// Creates a menu with a generated identifier and the items `items`.
    pub fn with_items(store: &mut MenuStore, items: &[MenuItemKind]) -> (r: Result<Menu, Error>)
        requires
            old(store).serial() < u64::MAX,
        ensures
            r is Ok,
            final(store).adds_menu_with(old(store), r->Ok_0, items@),
            r->Ok_0.id_view() == MenuId::generated(old(store).serial()),
            final(store).serial() == old(store).serial() + 1,
    {
        let menu = Menu::new(store);
        let ghost mid = *store;
        let _ = menu.append_items(store, items);
        proof { lemma_updated_keeps_prefix(*old(store), mid, *store, menu.index()); }
        Ok(menu)
    }

    /// Creates a menu with the given identifier and the items `items`.
    pub fn with_id_and_items(store: &mut MenuStore, id: MenuId, items: &[MenuItemKind]) -> (r: Result<Menu, Error>)
        ensures
            r is Ok,
            final(store).adds_menu_with(old(store), r->Ok_0, items@),
            r->Ok_0.id_view() == id@,
            final(store).serial() == old(store).serial(),
    {
        let menu = Menu::with_id(store, id);
        let ghost mid = *store;
        let _ = menu.append_items(store, items);
        proof { lemma_updated_keeps_prefix(*old(store), mid, *store, menu.index()); }
        Ok(menu)
    }

    /// Returns the identifier of this menu.
    pub fn id(&self) -> (r: &MenuId)
        ensures
            r@ == self.id_view(),
    {
        &self.id
    }

    /// Adds `item` at the end of this menu.
    pub fn append(&self, store: &mut MenuStore, item: &MenuItemKind) -> (r: Result<(), Error>)
        requires
            old(store).holds_menu(*self),
        ensures
            r is Ok,
            final(store).menu_items_updated(old(store), *self, self.children(old(store)).push(*item)),
    {
        store.menus[self.index].items.push(item.clone());
        Ok(())
    }

    /// Adds `items`, in order, at the end of this menu.
    pub fn append_items(&self, store: &mut MenuStore, items: &[MenuItemKind]) -> (r: Result<(), Error>)
        requires
            old(store).holds_menu(*self),
        ensures
            r is Ok,
            final(store).menu_items_updated(old(store), *self, self.children(old(store)) + items@),
    {
        let ghost s = self.children(store);
        let end = store.menus[self.index].items.len();
        insert_children(&mut store.menus[self.index].items, items, end);
        assert(s.subrange(0, s.len() as int) + items@ + s.subrange(s.len() as int, s.len() as int) =~= s + items@);
        Ok(())
    }

    /// Adds `item` at the beginning of this menu.
    pub fn prepend(&self, store: &mut MenuStore, item: &MenuItemKind) -> (r: Result<(), Error>)
        requires
            old(store).holds_menu(*self),
        ensures
            r is Ok,
            final(store).menu_items_updated(old(store), *self, inserted(self.children(old(store)), *item, 0)),
    {
        insert_child(&mut store.menus[self.index].items, item.clone(), 0);
        Ok(())
    }

    /// Adds `items`, in order, at the beginning of this menu.
    pub fn prepend_items(&self, store: &mut MenuStore, items: &[MenuItemKind]) -> (r: Result<(), Error>)
        requires
            old(store).holds_menu(*self),
        ensures
            r is Ok,
            final(store).menu_items_updated(old(store), *self, inserted_all(self.children(old(store)), items@, 0)),
    {
        self.insert_items(store, items, 0)
    }

    /// Inserts `item` at `position`, or at the end where `position` is past it.
    pub fn insert(&self, store: &mut MenuStore, item: &MenuItemKind, position: usize) -> (r: Result<(), Error>)
        requires
            old(store).holds_menu(*self),
        ensures
            r is Ok,
            final(store).menu_items_updated(old(store), *self, inserted(self.children(old(store)), *item, position as int)),
    {
        insert_child(&mut store.menus[self.index].items, item.clone(), position);
        Ok(())
    }

    /// Inserts `items`, in order, from `position` on, or at the end where `position` is past it.
    pub fn insert_items(&self, store: &mut MenuStore, items: &[MenuItemKind], position: usize) -> (r: Result<(), Error>)
        requires
            old(store).holds_menu(*self),
        ensures
            r is Ok,
            final(store).menu_items_updated(old(store), *self, inserted_all(self.children(old(store)), items@, position as int)),
    {
        insert_children(&mut store.menus[self.index].items, items, position);
        Ok(())
    }

    /// Removes the first item with the identifier of `item`, or fails with
    /// [`Error::NotAChildOfThisMenu`] where there is none.
    pub fn remove(&self, store: &mut MenuStore, item: &MenuItemKind) -> (r: Result<(), Error>)
        requires
            old(store).holds_menu(*self),
        ensures
            r is Err <==> !contains_id(self.children(old(store)), item.id_view()),
            r is Err ==> r == Err::<(), Error>(Error::NotAChildOfThisMenu) && final(store).menu_items_updated(old(store), *self, self.children(old(store))),
            r is Ok ==> final(store).menu_items_updated(old(store), *self, removed_id(self.children(old(store)), item.id_view())),
    {
        remove_child(&mut store.menus[self.index].items, item.id())
    }

    /// Removes and returns the item at `position`, or `None` where there is none.
    pub fn remove_at(&self, store: &mut MenuStore, position: usize) -> (r: Option<MenuItemKind>)
        requires
            old(store).holds_menu(*self),
        ensures
            position >= self.children(old(store)).len() ==> r is None && final(store).menu_items_updated(old(store), *self, self.children(old(store))),
            position < self.children(old(store)).len() ==> r == Some(self.children(old(store))[position as int])
                && final(store).menu_items_updated(old(store), *self, self.children(old(store)).remove(position as int)),
    {
        remove_child_at(&mut store.menus[self.index].items, position)
    }

    /// The items of this menu, in order.
    pub fn items(&self, store: &MenuStore) -> (r: Vec<MenuItemKind>)
        requires
            store.holds_menu(*self),
        ensures
            r@ == self.children(store),
    {
        snapshot(&store.menus[self.index].items)
    }

    /// Attaches this menu to the window `hwnd` with the automatic theme.
    pub fn init_for_hwnd(&self, store: &mut MenuStore, hwnd: isize) -> (r: Result<(), Error>)
        requires
            old(store).holds_menu(*self),
        ensures
            r is Err <==> self.attachments(old(store)).contains_key(hwnd),
            r is Err ==> r == Err::<(), Error>(Error::AlreadyInitialized) && final(store).menu_windows_updated(old(store), *self, self.attachments(old(store))),
            r is Ok ==> final(store).menu_windows_updated(old(store), *self, self.attachments(old(store)).insert(hwnd, Attachment { theme: MenuTheme::Auto, visible: true })),
    {
        self.init_for_hwnd_with_theme(store, hwnd, MenuTheme::Auto)
    }

    /// Attaches this menu to the window `hwnd` with the theme `theme`, or fails with
    /// [`Error::AlreadyInitialized`] where it is attached to that window already.
    pub fn init_for_hwnd_with_theme(&self, store: &mut MenuStore, hwnd: isize, theme: MenuTheme) -> (r: Result<(), Error>)
        requires
            old(store).holds_menu(*self),
        ensures
            r is Err <==> self.attachments(old(store)).contains_key(hwnd),
            r is Err ==> r == Err::<(), Error>(Error::AlreadyInitialized) && final(store).menu_windows_updated(old(store), *self, self.attachments(old(store))),
            r is Ok ==> final(store).menu_windows_updated(old(store), *self, self.attachments(old(store)).insert(hwnd, Attachment { theme, visible: true })),
    {
        if store.menus[self.index].windows.contains_key(&hwnd) {
            return Err(Error::AlreadyInitialized);
        }
        store.menus[self.index].windows.insert(hwnd, Attachment { theme, visible: true });
        Ok(())
    }

    /// Sets the menu bar theme on the window `hwnd`, or fails with
    /// [`Error::NotInitialized`] where the menu is not attached to it.
    pub fn set_theme_for_hwnd(&self, store: &mut MenuStore, hwnd: isize, theme: MenuTheme) -> (r: Result<(), Error>)
        requires
            old(store).holds_menu(*self),
        ensures
            r is Err <==> !self.attachments(old(store)).contains_key(hwnd),
            r is Err ==> r == Err::<(), Error>(Error::NotInitialized) && final(store).menu_windows_updated(old(store), *self, self.attachments(old(store))),
            r is Ok ==> final(store).menu_windows_updated(old(store), *self, self.attachments(old(store)).insert(hwnd, Attachment { theme, visible: self.attachments(old(store))[hwnd].visible })),
    {
        match store.menus[self.index].windows.get(&hwnd) {
            None => Err(Error::NotInitialized),
            Some(a) => {
                let visible = a.visible;
                store.menus[self.index].windows.insert(hwnd, Attachment { theme, visible });
                Ok(())
            },
        }
    }

    fn set_visible(&self, store: &mut MenuStore, hwnd: isize, visible: bool) -> (r: Result<(), Error>)
        requires
            old(store).holds_menu(*self),
        ensures
            r is Err <==> !self.attachments(old(store)).contains_key(hwnd),
            r is Err ==> r == Err::<(), Error>(Error::NotInitialized) && final(store).menu_windows_updated(old(store), *self, self.attachments(old(store))),
            r is Ok ==> final(store).menu_windows_updated(old(store), *self, self.attachments(old(store)).insert(hwnd, Attachment { theme: self.attachments(old(store))[hwnd].theme, visible })),
    {
        match store.menus[self.index].windows.get(&hwnd) {
            None => Err(Error::NotInitialized),
            Some(a) => {
                let theme = a.theme;
                store.menus[self.index].windows.insert(hwnd, Attachment { theme, visible });
                Ok(())
            },
        }
    }

    /// Detaches this menu from the window `hwnd`, or fails with [`Error::NotInitialized`]
    /// where it is not attached to it.
    pub fn remove_for_hwnd(&self, store: &mut MenuStore, hwnd: isize) -> (r: Result<(), Error>)
        requires
            old(store).holds_menu(*self),
        ensures
            r is Err <==> !self.attachments(old(store)).contains_key(hwnd),
            r is Err ==> r == Err::<(), Error>(Error::NotInitialized) && final(store).menu_windows_updated(old(store), *self, self.attachments(old(store))),
            r is Ok ==> final(store).menu_windows_updated(old(store), *self, self.attachments(old(store)).remove(hwnd)),
    {
        match store.menus[self.index].windows.remove(&hwnd) {
            None => {
                assert(old(store).menus@[self.index as int].windows@.remove(hwnd) =~= old(store).menus@[self.index as int].windows@);
                Err(Error::NotInitialized)
            },
            Some(_) => Ok(()),
        }
    }

    /// Hides the menu bar on the window `hwnd`, or fails with [`Error::NotInitialized`]
    /// where the menu is not attached to it.
    pub fn hide_for_hwnd(&self, store: &mut MenuStore, hwnd: isize) -> (r: Result<(), Error>)
        requires
            old(store).holds_menu(*self),
        ensures
            r is Err <==> !self.attachments(old(store)).contains_key(hwnd),
            r is Err ==> r == Err::<(), Error>(Error::NotInitialized) && final(store).menu_windows_updated(old(store), *self, self.attachments(old(store))),
            r is Ok ==> final(store).menu_windows_updated(old(store), *self, self.attachments(old(store)).insert(hwnd, Attachment { theme: self.attachments(old(store))[hwnd].theme, visible: false })),
    {
        self.set_visible(store, hwnd, false)
    }

    /// Shows the menu bar on the window `hwnd`, or fails with [`Error::NotInitialized`]
    /// where the menu is not attached to it.
    pub fn show_for_hwnd(&self, store: &mut MenuStore, hwnd: isize) -> (r: Result<(), Error>)
        requires
            old(store).holds_menu(*self),
        ensures
            r is Err <==> !self.attachments(old(store)).contains_key(hwnd),
            r is Err ==> r == Err::<(), Error>(Error::NotInitialized) && final(store).menu_windows_updated(old(store), *self, self.attachments(old(store))),
            r is Ok ==> final(store).menu_windows_updated(old(store), *self, self.attachments(old(store)).insert(hwnd, Attachment { theme: self.attachments(old(store))[hwnd].theme, visible: true })),
    {
        self.set_visible(store, hwnd, true)
    }

    /// Whether the menu bar is shown on the window `hwnd`; `false` where the menu is not
    /// attached to it.
    pub fn is_visible_on_hwnd(&self, store: &MenuStore, hwnd: isize) -> (r: bool)
        requires
            store.holds_menu(*self),
        ensures
            r == (self.attachments(store).contains_key(hwnd) && self.attachments(store)[hwnd].visible),
    {
        match store.menus[self.index].windows.get(&hwnd) {
            None => false,
            Some(a) => a.visible,
        }
    }

    /// The theme of the menu bar on the window `hwnd`, or `None` where the menu is not
    /// attached to it.
    pub fn theme_for_hwnd(&self, store: &MenuStore, hwnd: isize) -> (r: Option<MenuTheme>)
        requires
            store.holds_menu(*self),
        ensures
            r == (if self.attachments(store).contains_key(hwnd) { Some(self.attachments(store)[hwnd].theme) } else { None::<MenuTheme> }),
    {
        match store.menus[self.index].windows.get(&hwnd) {
            None => None,
            Some(a) => Some(a.theme),
        }
    }

    /// The event for a command that the window `hwnd` reports for the item with native
    /// command id `native_id`: none where the menu is not attached to that window or no
    /// item has that id.
    pub fn command_event(&self, store: &MenuStore, hwnd: isize, native_id: usize) -> (r: Option<MenuEvent>)
        requires
            store.holds_menu(*self),
        ensures
            r is Some <==> self.attachments(store).contains_key(hwnd) && native_id < store@.len(),
            r is Some ==> r->Some_0.id == store@[native_id as int].id,
    {
        if !store.menus[self.index].windows.contains_key(&hwnd) {
            return None;
        }
        match store.id_of_native(native_id) {
            Some(id) => Some(MenuEvent { id }),
            None => None,
        }
    }

    /// Handles a command that the window `hwnd` reports for the item with native command id
    /// `native_id`: sends its event to `sink`, where there is one. Returns whether an event
    /// was sent.
    pub fn dispatch_command<H: Fn(MenuEvent)>(
        &self,
        store: &MenuStore,
        sink: &mut MenuEventSink<H>,
        hwnd: isize,
        native_id: usize,
    ) -> (r: bool)
        requires
            store.holds_menu(*self),
            old(sink).wf(),
        ensures
            final(sink).wf(),
            r == (self.attachments(store).contains_key(hwnd) && native_id < store@.len()),
            !r ==> *final(sink) == *old(sink),
            r && old(sink).mode() == DeliveryMode::Handler ==> final(sink).mode() == old(sink).mode()
                && final(sink).handler() == old(sink).handler()
                && final(sink).pending() == old(sink).pending()
                && old(sink).handler().ensures((MenuEvent { id: store@[native_id as int].id },), ()),
            r && old(sink).mode() == DeliveryMode::Disabled ==> final(sink).mode() == DeliveryMode::Disabled
                && final(sink).pending() == old(sink).pending(),
            r && (old(sink).mode() == DeliveryMode::Undecided || old(sink).mode() == DeliveryMode::Queue)
                ==> final(sink).mode() == DeliveryMode::Queue
                && final(sink).pending() == old(sink).pending().push(MenuEvent { id: store@[native_id as int].id }),
    {
        match self.command_event(store, hwnd, native_id) {
            Some(event) => {
                MenuEvent::send(sink, event);
                true
            },
            None => false,
        }
    }
}

/// A change made through one handle to a root menu is seen through every clone of it:
/// where `b` is a clone of `a` and `after` is `before` with the items of `a`'s menu set to
/// `items` (as [`Menu::append`] and the other item operations leave it), `b` reads `items`
/// too.
pub proof fn lemma_menu_clones_share_state(
    before: MenuStore,
    after: MenuStore,
    a: Menu,
    b: Menu,
    items: Seq<MenuItemKind>,
)
    requires
        before.holds_menu(a),
        b == a,
        after.menu_items_updated(&before, a, items),
    ensures
        after.holds_menu(b),
        b.children(&after) == items,
        b.id_view() == a.id_view(),
{
}

proof fn lemma_updated_keeps_prefix(a: MenuStore, b: MenuStore, c: MenuStore, i: nat)
    requires
        b.menus().len() == a.menus().len() + 1,
        b.menus().subrange(0, a.menus().len() as int) == a.menus(),
        i == a.menus().len(),
        c.menus().len() == b.menus().len(),
        forall|j: int| 0 <= j < c.menus().len() && j != i ==> #[trigger] c.menus()[j] == b.menus()[j],
    ensures
        c.menus().subrange(0, a.menus().len() as int) == a.menus(),
{
    assert forall|j: int| 0 <= j < a.menus().len() implies c.menus()[j] == a.menus()[j] by {
        assert(b.menus().subrange(0, a.menus().len() as int)[j] == b.menus()[j]);
    }
    assert(c.menus().subrange(0, a.menus().len() as int) =~= a.menus());
}

} // verus!
