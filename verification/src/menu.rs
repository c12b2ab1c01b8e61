//! The application menu that a new application gets: about, hide, hide others, show all
//! and quit, with their key equivalents.
use vstd::prelude::*;
use vstd::string::StringExecFns;

use crate::event::{NS_FLAG_COMMAND, NS_FLAG_OPTION};

verus! {

/// The action (selector) of a menu item.
#[derive(Clone, Copy, Debug, PartialEq, Eq, Structural)]
pub enum MenuAction {
    /// `orderFrontStandardAboutPanel:`
    OrderFrontStandardAboutPanel,
    /// `hide:`
    Hide,
    /// `hideOtherApplications:`
    HideOtherApplications,
    /// `unhideAllApplications:`
    UnhideAllApplications,
    /// `terminate:`
    Terminate,
}

impl MenuAction {
    /// The name of the selector that the item sends.
    pub fn selector_name(&self) -> (r: &'static str)
        ensures
            r@ == match self {
                MenuAction::OrderFrontStandardAboutPanel => "orderFrontStandardAboutPanel:"@,
                MenuAction::Hide => "hide:"@,
                MenuAction::HideOtherApplications => "hideOtherApplications:"@,
                MenuAction::UnhideAllApplications => "unhideAllApplications:"@,
                MenuAction::Terminate => "terminate:"@,
            },
    {
        match self {
            MenuAction::OrderFrontStandardAboutPanel => "orderFrontStandardAboutPanel:",
            MenuAction::Hide => "hide:",
            MenuAction::HideOtherApplications => "hideOtherApplications:",
            MenuAction::UnhideAllApplications => "unhideAllApplications:",
            MenuAction::Terminate => "terminate:",
        }
    }
}

/// A key equivalent of a menu item: the key, and the modifier mask if not the default
/// (command).
#[derive(Clone, Copy, Debug, PartialEq, Eq)]
pub struct KeyEquivalent {
    pub key: &'static str,
    pub masks: Option<usize>,
}

/// An entry of a menu.
#[derive(Debug, PartialEq, Eq)]
pub enum MenuEntry {
    Item { title: String, action: MenuAction, key_equivalent: Option<KeyEquivalent> },
    Separator,
}

/// Whether a menu entry is an item with this title, action, key and mask.
pub open spec fn is_item(
    e: MenuEntry,
    title: Seq<char>,
    action: MenuAction,
    key: Option<(Seq<char>, Option<usize>)>,
) -> bool {
    match e {
        MenuEntry::Item { title: t, action: a, key_equivalent: k } => {
            &&& t@ == title
            &&& a == action
            &&& match (k, key) {
                (None, None) => true,
                (Some(ke), Some((key, masks))) => ke.key@ == key && ke.masks == masks,
                _ => false,
            }
        },
        MenuEntry::Separator => false,
    }
}

/// The key and modifier mask that a menu item is made with: no key (an empty one) and the
/// default mask when it has no key equivalent.
pub fn key_equivalent_parts(key_equivalent: Option<KeyEquivalent>) -> (r: (&'static str, Option<usize>))
    ensures
        match key_equivalent {
            Some(ke) => r.0@ == ke.key@ && r.1 == ke.masks,
            None => r.0@ == ""@ && r.1 is None,
        },
{
    match key_equivalent {
        Some(ke) => (ke.key, ke.masks),
        None => ("", None),
    }
}

/// A title made of a prefix and the process name.
fn prefixed(prefix: &str, process_name: &str) -> (r: String)
    ensures
        r@ == prefix@ + process_name@,
{
    let mut title = String::from_str(prefix);
    title.append(process_name);
    title
}

/// The application menu of a process: "About", a separator, "Hide" (command-H), "Hide
/// Others" (option-command-H), "Show All", a separator and "Quit" (command-Q); the about,
/// hide and quit titles end with the process name.
pub fn initialize(process_name: &str) -> (menu: Vec<MenuEntry>)
    ensures
        menu.len() == 7,
        is_item(
            menu[0],
            "About "@ + process_name@,
            MenuAction::OrderFrontStandardAboutPanel,
            None,
        ),
        menu[1] is Separator,
        is_item(menu[2], "Hide "@ + process_name@, MenuAction::Hide, Some(("h"@, None))),
        is_item(
            menu[3],
            "Hide Others"@,
            MenuAction::HideOtherApplications,
            Some(("h"@, Some(NS_FLAG_OPTION | NS_FLAG_COMMAND))),
        ),
        is_item(menu[4], "Show All"@, MenuAction::UnhideAllApplications, None),
        menu[5] is Separator,
        is_item(menu[6], "Quit "@ + process_name@, MenuAction::Terminate, Some(("q"@, None))),
{
    let mut menu: Vec<MenuEntry> = Vec::new();
    menu.push(
        MenuEntry::Item {
            title: prefixed("About ", process_name),
            action: MenuAction::OrderFrontStandardAboutPanel,
            key_equivalent: None,
        },
    );
    menu.push(MenuEntry::Separator);
    menu.push(
        MenuEntry::Item {
            title: prefixed("Hide ", process_name),
            action: MenuAction::Hide,
            key_equivalent: Some(KeyEquivalent { key: "h", masks: None }),
        },
    );
    menu.push(
        MenuEntry::Item {
            title: String::from_str("Hide Others"),
            action: MenuAction::HideOtherApplications,
            key_equivalent: Some(KeyEquivalent { key: "h", masks: Some(NS_FLAG_OPTION | NS_FLAG_COMMAND) }),
        },
    );
    menu.push(
        MenuEntry::Item {
            title: String::from_str("Show All"),
            action: MenuAction::UnhideAllApplications,
            key_equivalent: None,
        },
    );
    menu.push(MenuEntry::Separator);
    menu.push(
        MenuEntry::Item {
            title: prefixed("Quit ", process_name),
            action: MenuAction::Terminate,
            key_equivalent: Some(KeyEquivalent { key: "q", masks: None }),
        },
    );
    menu
}

} // verus!
