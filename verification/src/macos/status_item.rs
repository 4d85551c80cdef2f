//! The daemon's menu-bar item: its menu and what each entry asks for.

use vstd::prelude::*;

verus! {

/// What a menu-bar entry asks for.
#[derive(Clone, Copy, Debug, PartialEq, Eq, Structural)]
pub enum StatusAction {
    Settings,
    Refresh,
    Quit,
}

/// An entry of the menu-bar menu.
#[derive(Clone, Copy, Debug, PartialEq, Eq, Structural)]
pub enum StatusMenuEntry {
    /// An item with its tag and title.
    Item(isize, StatusAction),
    Separator,
}

/// The action of the item with a tag (tags 0, 1 and 2; others do nothing).
pub open spec fn action_of_tag(tag: isize) -> Option<StatusAction> {
    if tag == 0 {
        Some(StatusAction::Settings)
    } else if tag == 1 {
        Some(StatusAction::Refresh)
    } else if tag == 2 {
        Some(StatusAction::Quit)
    } else {
        None
    }
}

/// The action of the menu item with `tag`.
pub fn action_for_tag(tag: isize) -> (r: Option<StatusAction>)
    ensures
        r == action_of_tag(tag),
{
    match tag {
        0 => Some(StatusAction::Settings),
        1 => Some(StatusAction::Refresh),
        2 => Some(StatusAction::Quit),
        _ => None,
    }
}

/// The title of an item.
pub fn action_title(action: StatusAction) -> (r: &'static str)
    ensures
        r@ == (match action {
            StatusAction::Settings => "Settings…"@,
            StatusAction::Refresh => "Refresh"@,
            StatusAction::Quit => "Quit"@,
        }),
{
    match action {
        StatusAction::Settings => "Settings…",
        StatusAction::Refresh => "Refresh",
        StatusAction::Quit => "Quit",
    }
}

/// The menu: Settings and Refresh, a separator, then Quit.
pub open spec fn status_menu_spec() -> Seq<StatusMenuEntry> {
    seq![
        StatusMenuEntry::Item(0, StatusAction::Settings),
        StatusMenuEntry::Item(1, StatusAction::Refresh),
        StatusMenuEntry::Separator,
        StatusMenuEntry::Item(2, StatusAction::Quit),
    ]
}

/// The entries of the menu-bar menu.
pub fn status_menu() -> (r: Vec<StatusMenuEntry>)
    ensures
        r@ == status_menu_spec(),
{
    let mut menu: Vec<StatusMenuEntry> = Vec::new();
    menu.push(StatusMenuEntry::Item(0, StatusAction::Settings));
    menu.push(StatusMenuEntry::Item(1, StatusAction::Refresh));
    menu.push(StatusMenuEntry::Separator);
    menu.push(StatusMenuEntry::Item(2, StatusAction::Quit));
    assert(menu@ =~= status_menu_spec());
    menu
}

/// Choosing an item of the menu asks for that item's action.
pub proof fn menu_tags_give_their_actions(i: int)
    requires
        0 <= i < status_menu_spec().len(),
    ensures
        status_menu_spec()[i] matches StatusMenuEntry::Item(tag, action) ==> action_of_tag(tag) == Some(action),
{
}

} // verus!
