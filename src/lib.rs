//! Menu trees for desktop applications: menus, submenus and items of five kinds, kept in
//! order, attached to windows, and a delivery path for the events raised when an item is
//! activated.
use vstd::prelude::*;

pub mod about_metadata;
pub mod container;
pub mod error;
pub mod event;
pub mod icon;
pub mod items;
pub mod menu;
pub mod menu_id;

pub use about_metadata::{AboutMetadata, AboutMetadataBuilder};
pub use error::{Error, Result};
pub use event::{DeliveryMode, MenuEvent, MenuEventSink};
pub use icon::{BadIcon, Icon};
pub use items::{
    CheckMenuItem, IconMenuItem, IsMenuItem, IsMenuItemBase, ItemState, MenuItem, MenuItemKind,
    Menu, MenuItemType, MenuState, MenuStore, PredefinedMenuItem, PredefinedMenuItemType, Submenu,
};
pub use menu::{Attachment, MenuTheme};
pub use menu_id::MenuId;

verus! {

} // verus!
