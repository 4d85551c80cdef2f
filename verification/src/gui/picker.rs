//! The picker window's decisions: what a key press does, the number
//! shortcuts, the menus, and the picker's visibility and placement.

use vstd::prelude::*;
use vstd::string::*;
use crate::gui::model::{full_name, has_priority, UIBrowser, UIState};
use crate::gui::window_placement::{
    context_menu_size, picker_origin, point_in_range, size_in_range, origin_on_axis, Bounds,
    Point, Size,
};
use crate::text::{push_char, str_eq};

verus! {

// ---------------------------------------------------------------------
// Keys
// ---------------------------------------------------------------------

/// The keys the picker reacts to.
#[derive(Clone, Copy, Debug, PartialEq, Eq, Structural)]
pub enum PickerKey {
    Escape,
    Enter,
    Space,
    Up,
    Down,
    Comma,
    LetterC,
    /// A number key; the field is the digit.
    Digit(u8),
    Other,
}

/// Whether `c` is a decimal digit character.
pub open spec fn is_digit_char(c: char) -> bool {
    '0' <= c && c <= '9'
}

/// The key a key name denotes.
pub open spec fn key_of(name: Seq<char>) -> PickerKey {
    if name == "escape"@ {
        PickerKey::Escape
    } else if name == "enter"@ {
        PickerKey::Enter
    } else if name == "space"@ {
        PickerKey::Space
    } else if name == "up"@ {
        PickerKey::Up
    } else if name == "down"@ {
        PickerKey::Down
    } else if name == ","@ {
        PickerKey::Comma
    } else if name == "c"@ {
        PickerKey::LetterC
    } else if name.len() == 1 && is_digit_char(name[0]) {
        PickerKey::Digit((name[0] as u32 - '0' as u32) as u8)
    } else {
        PickerKey::Other
    }
}

impl PickerKey {
    /// The key a key name (as the toolkit reports it) denotes.
    pub fn from_name(name: &str) -> (r: Self)
        ensures
            r == key_of(name@),
    {
        if str_eq(name, "escape") {
            PickerKey::Escape
        } else if str_eq(name, "enter") {
            PickerKey::Enter
        } else if str_eq(name, "space") {
            PickerKey::Space
        } else if str_eq(name, "up") {
            PickerKey::Up
        } else if str_eq(name, "down") {
            PickerKey::Down
        } else if str_eq(name, ",") {
            PickerKey::Comma
        } else if str_eq(name, "c") {
            PickerKey::LetterC
        } else if name.unicode_len() == 1 {
            let c = name.get_char(0);
            if '0' <= c && c <= '9' {
                PickerKey::Digit((c as u32 - '0' as u32) as u8)
            } else {
                PickerKey::Other
            }
        } else {
            PickerKey::Other
        }
    }
}

/// The display position a number key opens: keys 1 to 9 open the first
/// nine browsers and key 0 the tenth.
pub open spec fn digit_target(digit: int) -> int {
    if digit == 0 { 9 } else { digit - 1 }
}

/// The number key shown beside the browser at display position `index`:
/// the first ten browsers get 1 to 9 and then 0.
pub open spec fn hotkey_digit(index: int) -> Option<int> {
    if 0 <= index < 10 {
        Some(if index == 9 { 0 } else { index + 1 })
    } else {
        None
    }
}

/// The label of the number key for display position `index`, when the
/// browser there has one.
pub fn hotkey_label(index: usize) -> (r: Option<String>)
    ensures
        match hotkey_digit(index as int) {
            Some(d) => r matches Some(label) && label@ == seq![crate::text::digit_char(d as nat)],
            None => r is None,
        },
{
    if index < 10 {
        let digit: u64 = if index == 9 { 0 } else { (index + 1) as u64 };
        let mut label = String::new();
        push_char(&mut label, crate::text::digit_to_char(digit));
        assert(label@ =~= seq![crate::text::digit_char(digit as nat)]);
        Some(label)
    } else {
        None
    }
}

/// The number keys and the shortcut labels agree: pressing the key shown
/// beside a browser opens that browser.
pub proof fn hotkeys_open_their_browser(index: int)
    requires
        0 <= index < 10,
    ensures
        hotkey_digit(index) matches Some(d) && digit_target(d) == index,
{
}

/// The focus after moving down through `count` browsers: the next one,
/// wrapping to the first.
pub open spec fn focus_after_down(focused: Option<usize>, count: nat) -> Option<usize> {
    if count > 0 {
        Some(((match focused { Some(f) => f as int, None => 0 } + 1) % (count as int)) as usize)
    } else {
        focused
    }
}

/// The focus after moving up through `count` browsers: the previous one,
/// wrapping to the last (position 0 when there are none).
pub open spec fn focus_after_up(focused: Option<usize>, count: nat) -> Option<usize> {
    let current = match focused { Some(f) => f as int, None => 0 };
    let last = if count == 0 { 0 } else { count - 1 };
    Some((if current == 0 { last } else { current - 1 }) as usize)
}

/// Moving down and then up, or up and then down, returns the focus to
/// where it was.
pub proof fn focus_moves_undo_each_other(focused: usize, count: nat)
    requires
        focused < count,
        count <= usize::MAX,
    ensures
        focus_after_up(focus_after_down(Some(focused), count), count) == Some(focused),
        focus_after_down(focus_after_up(Some(focused), count), count) == Some(focused),
{
    if focused + 1 < count {
        assert((focused + 1) % (count as int) == focused + 1) by (nonlinear_arith)
            requires focused + 1 < count, 0 <= focused;
    } else {
        assert((focused + 1) % (count as int) == 0) by (nonlinear_arith)
            requires focused + 1 == count;
    }
    if focused == 0 {
        assert(((count - 1) + 1) % (count as int) == 0) by (nonlinear_arith)
            requires count > 0;
    } else {
        assert(((focused - 1) + 1) % (count as int) == focused) by (nonlinear_arith)
            requires 0 < focused < count;
    }
}

/// What the picker does in response to a key press.
#[derive(Clone, Copy, Debug, PartialEq, Eq, Structural)]
pub enum KeyOutcome {
    /// Close this (non-picker) window.
    CloseWindow,
    CollapseContextMenu,
    DismissPicker,
    /// Open the URL in the browser at this display position (nothing
    /// happens when there is no browser there).
    Open(usize),
    /// The focus moved; redraw.
    FocusMoved,
    ShowSettings,
    CopyUrl,
    Ignore,
}

/// What a key press does on the picker (after the checks for other
/// windows and for an open context menu).
pub open spec fn picker_key_outcome(key: PickerKey, focused: Option<usize>, count: nat, command: bool) -> KeyOutcome {
    match key {
        PickerKey::Escape => KeyOutcome::DismissPicker,
        PickerKey::Enter | PickerKey::Space => KeyOutcome::Open(
            match focused { Some(f) => f, None => 0 },
        ),
        PickerKey::Up => KeyOutcome::FocusMoved,
        PickerKey::Down => if count > 0 { KeyOutcome::FocusMoved } else { KeyOutcome::Ignore },
        PickerKey::Comma => if command { KeyOutcome::ShowSettings } else { KeyOutcome::Ignore },
        PickerKey::LetterC => if command { KeyOutcome::CopyUrl } else { KeyOutcome::Ignore },
        PickerKey::Digit(d) => if d <= 9 {
            KeyOutcome::Open(digit_target(d as int) as usize)
        } else {
            KeyOutcome::Ignore
        },
        PickerKey::Other => KeyOutcome::Ignore,
    }
}

/// Enter and Space open the focused browser, or the first when none is
/// focused, whatever else is held.
pub proof fn enter_and_space_open_the_focused_browser(focused: Option<usize>, count: nat, command: bool)
    ensures
        picker_key_outcome(PickerKey::Enter, focused, count, command) == KeyOutcome::Open(
            match focused { Some(f) => f, None => 0usize },
        ),
        picker_key_outcome(PickerKey::Space, focused, count, command) == picker_key_outcome(
            PickerKey::Enter,
            focused,
            count,
            command,
        ),
        picker_key_focus(PickerKey::Enter, focused, count) == focused,
{
}

/// The focus after a key press on the picker.
pub open spec fn picker_key_focus(key: PickerKey, focused: Option<usize>, count: nat) -> Option<usize> {
    match key {
        PickerKey::Up => focus_after_up(focused, count),
        PickerKey::Down => focus_after_down(focused, count),
        _ => focused,
    }
}

/// Handles a key press. On a window other than the picker only Escape
/// does something (it closes the window); with a context menu open,
/// Escape closes the menu. Otherwise private mode follows Shift, arrows
/// move the focus with wrap-around, Enter and Space open the focused
/// browser, number keys open by position, Escape dismisses the picker,
/// and with the command key `,` opens the settings and `c` copies the URL.
pub fn handle_key_down(
    on_picker: bool,
    context_menu_expanded: bool,
    state: &mut UIState,
    key: PickerKey,
    shift: bool,
    command: bool,
) -> (r: KeyOutcome)
    ensures
        !on_picker ==> *final(state) == *old(state) && r == (if key == PickerKey::Escape {
            KeyOutcome::CloseWindow
        } else {
            KeyOutcome::Ignore
        }),
        on_picker && context_menu_expanded && key == PickerKey::Escape ==> *final(state) == *old(
            state,
        ) && r == KeyOutcome::CollapseContextMenu,
        on_picker && !(context_menu_expanded && key == PickerKey::Escape) ==> {
            &&& r == picker_key_outcome(
                key,
                old(state).focused_index,
                old(state).filtered_browsers@.len(),
                command,
            )
            &&& *final(state) == (UIState {
                incognito_mode: shift,
                focused_index: picker_key_focus(
                    key,
                    old(state).focused_index,
                    old(state).filtered_browsers@.len(),
                ),
                ..*old(state)
            })
        },
        old(state).list_is_current() ==> final(state).list_is_current(),
{
    if !on_picker {
        if key == PickerKey::Escape {
            return KeyOutcome::CloseWindow;
        }
        return KeyOutcome::Ignore;
    }
    if context_menu_expanded && key == PickerKey::Escape {
        return KeyOutcome::CollapseContextMenu;
    }
    state.incognito_mode = shift;
    let count = state.filtered_browsers.len();
    match key {
        PickerKey::Escape => KeyOutcome::DismissPicker,
        PickerKey::Enter | PickerKey::Space => {
            let focused = match state.focused_index {
                Some(f) => f,
                None => 0,
            };
            KeyOutcome::Open(focused)
        },
        PickerKey::Up => {
            let last = if count == 0 { 0 } else { count - 1 };
            let current = match state.focused_index {
                Some(f) => f,
                None => 0,
            };
            state.focused_index = Some(if current == 0 { last } else { current - 1 });
            KeyOutcome::FocusMoved
        },
        PickerKey::Down => {
            if count > 0 {
                let current = match state.focused_index {
                    Some(f) => f,
                    None => 0,
                };
                proof {
                    assert(((current as int % count as int) + 1) % (count as int)
                        == (current as int + 1) % (count as int)) by (nonlinear_arith)
                        requires count > 0, current >= 0;
                }
                state.focused_index = Some((current % count + 1) % count);
                KeyOutcome::FocusMoved
            } else {
                KeyOutcome::Ignore
            }
        },
        PickerKey::Comma => if command { KeyOutcome::ShowSettings } else { KeyOutcome::Ignore },
        PickerKey::LetterC => if command { KeyOutcome::CopyUrl } else { KeyOutcome::Ignore },
        PickerKey::Digit(d) => {
            if d == 0 {
                KeyOutcome::Open(9)
            } else if d <= 9 {
                KeyOutcome::Open((d - 1) as usize)
            } else {
                KeyOutcome::Ignore
            }
        },
        PickerKey::Other => KeyOutcome::Ignore,
    }
}

/// Private mode follows the Shift key; returns whether it changed (and
/// the picker must be redrawn).
pub fn handle_modifiers_changed(state: &mut UIState, shift: bool) -> (changed: bool)
    ensures
        changed == (old(state).incognito_mode != shift),
        *final(state) == (UIState { incognito_mode: shift, ..*old(state) }),
        old(state).list_is_current() ==> final(state).list_is_current(),
{
    if state.incognito_mode != shift {
        state.incognito_mode = shift;
        true
    } else {
        false
    }
}

// ---------------------------------------------------------------------
// Menus
// ---------------------------------------------------------------------

/// Where a profile moves in the user's ordering.
#[derive(Clone, Copy, Debug, PartialEq, Eq, Structural)]
pub enum MoveTo {
    Top,
    Up,
    Down,
    Bottom,
}

/// What a menu item asks for when chosen.
pub enum PickerCommand {
    Refresh,
    MakeDefault,
    /// Restore the hidden profile with this unique id.
    RestoreProfile(String),
    ShowSettings,
    ShowAbout,
    Quit,
    /// Move the profile with this unique id.
    MoveProfile(String, MoveTo),
    /// Hide the profile with this unique id.
    HideProfile(String),
    /// Hide every profile of the app with this unique app id.
    HideAllProfiles(String),
}

/// Plain view of [`PickerCommand`].
pub enum PickerCommandView {
    Refresh,
    MakeDefault,
    RestoreProfile(Seq<char>),
    ShowSettings,
    ShowAbout,
    Quit,
    MoveProfile(Seq<char>, MoveTo),
    HideProfile(Seq<char>),
    HideAllProfiles(Seq<char>),
}

impl View for PickerCommand {
    type V = PickerCommandView;

    open spec fn view(&self) -> PickerCommandView {
        match self {
            PickerCommand::Refresh => PickerCommandView::Refresh,
            PickerCommand::MakeDefault => PickerCommandView::MakeDefault,
            PickerCommand::RestoreProfile(id) => PickerCommandView::RestoreProfile(id@),
            PickerCommand::ShowSettings => PickerCommandView::ShowSettings,
            PickerCommand::ShowAbout => PickerCommandView::ShowAbout,
            PickerCommand::Quit => PickerCommandView::Quit,
            PickerCommand::MoveProfile(id, to) => PickerCommandView::MoveProfile(id@, *to),
            PickerCommand::HideProfile(id) => PickerCommandView::HideProfile(id@),
            PickerCommand::HideAllProfiles(id) => PickerCommandView::HideAllProfiles(id@),
        }
    }
}

/// An entry of a popup menu.
pub enum MenuEntry {
    Item { label: String, disabled: bool, command: PickerCommand },
    Separator,
    Heading(String),
}

/// Plain view of [`MenuEntry`].
pub enum MenuEntryView {
    Item { label: Seq<char>, disabled: bool, command: PickerCommandView },
    Separator,
    Heading(Seq<char>),
}

impl View for MenuEntry {
    type V = MenuEntryView;

    open spec fn view(&self) -> MenuEntryView {
        match self {
            MenuEntry::Item { label, disabled, command } => MenuEntryView::Item {
                label: label@,
                disabled: *disabled,
                command: command@,
            },
            MenuEntry::Separator => MenuEntryView::Separator,
            MenuEntry::Heading(text) => MenuEntryView::Heading(text@),
        }
    }
}

/// The views of a sequence of menu entries.
pub open spec fn entry_views(entries: Seq<MenuEntry>) -> Seq<MenuEntryView> {
    entries.map_values(|e: MenuEntry| e@)
}

/// An enabled item.
pub open spec fn item(label: Seq<char>, command: PickerCommandView) -> MenuEntryView {
    MenuEntryView::Item { label, disabled: false, command }
}

/// The context menu of a browser row: the four move items (disabled at
/// the ends of the list) and a separator unless the profile is
/// URL-restricted, "Hide profile", and "Hide all profiles" for browsers
/// with real profiles.
pub open spec fn context_menu_entries(b: crate::gui::model::UIBrowserView) -> Seq<MenuEntryView> {
    let moves = if !has_priority(b) {
        seq![
            MenuEntryView::Item { label: "Move to top"@, disabled: b.is_first, command: PickerCommandView::MoveProfile(b.unique_id, MoveTo::Top) },
            MenuEntryView::Item { label: "Move up"@, disabled: b.is_first, command: PickerCommandView::MoveProfile(b.unique_id, MoveTo::Up) },
            MenuEntryView::Item { label: "Move down"@, disabled: b.is_last, command: PickerCommandView::MoveProfile(b.unique_id, MoveTo::Down) },
            MenuEntryView::Item { label: "Move to bottom"@, disabled: b.is_last, command: PickerCommandView::MoveProfile(b.unique_id, MoveTo::Bottom) },
            MenuEntryView::Separator,
        ]
    } else {
        Seq::empty()
    };
    let hide = seq![item("Hide profile"@, PickerCommandView::HideProfile(b.unique_id))];
    let hide_all = if b.supports_profiles {
        seq![item("Hide all profiles"@, PickerCommandView::HideAllProfiles(b.unique_app_id))]
    } else {
        Seq::empty()
    };
    moves + hide + hide_all
}

/// Whether a menu entry moves the profile `id` to `to`.
pub open spec fn moves_profile(e: MenuEntryView, id: Seq<char>, to: MoveTo) -> bool {
    e matches MenuEntryView::Item { command: PickerCommandView::MoveProfile(i, m), .. } && i == id && m == to
}

/// Whether some entry moves the profile `id` to `to`.
pub open spec fn offers_move(entries: Seq<MenuEntryView>, id: Seq<char>, to: MoveTo) -> bool {
    exists|k: int| 0 <= k < entries.len() && moves_profile(#[trigger] entries[k], id, to)
}

/// Each move item of a browser row's menu moves that browser the way its
/// label says: "Move to top" to the top, "Move up" one up, "Move down" one
/// down, "Move to bottom" to the bottom; the upward moves are disabled for
/// the first browser and the downward ones for the last. A browser that
/// is not URL-restricted is offered all four.
pub proof fn move_items_do_what_they_say(b: crate::gui::model::UIBrowserView, i: int)
    requires
        0 <= i < context_menu_entries(b).len(),
    ensures
        context_menu_entries(b)[i] matches MenuEntryView::Item { label, disabled, command: PickerCommandView::MoveProfile(id, to) }
            ==> {
                &&& id == b.unique_id
                &&& label == "Move to top"@ ==> to == MoveTo::Top
                &&& label == "Move up"@ ==> to == MoveTo::Up
                &&& label == "Move down"@ ==> to == MoveTo::Down
                &&& label == "Move to bottom"@ ==> to == MoveTo::Bottom
                &&& (to == MoveTo::Top || to == MoveTo::Up) ==> disabled == b.is_first
                &&& (to == MoveTo::Down || to == MoveTo::Bottom) ==> disabled == b.is_last
            },
        !has_priority(b) ==> forall|to: MoveTo| #[trigger] offers_move(context_menu_entries(b), b.unique_id, to),
{
    reveal_strlit("Move to top");
    reveal_strlit("Move up");
    reveal_strlit("Move down");
    reveal_strlit("Move to bottom");
    let e = context_menu_entries(b);
    let hide = seq![item("Hide profile"@, PickerCommandView::HideProfile(b.unique_id))];
    let hide_all = if b.supports_profiles {
        seq![item("Hide all profiles"@, PickerCommandView::HideAllProfiles(b.unique_app_id))]
    } else {
        Seq::<MenuEntryView>::empty()
    };
    let tail = hide + hide_all;
    assert forall|k: int| 0 <= k < tail.len() implies !((#[trigger] tail[k]) matches MenuEntryView::Item {
        command: PickerCommandView::MoveProfile(..),
        ..
    }) by {
        if k > 0 {
            assert(tail[k] == hide_all[k - 1]);
        }
    }
    assert("Move to top"@.len() == 11 && "Move up"@.len() == 7);
    assert("Move down"@.len() == 9 && "Move to bottom"@.len() == 14);
    if !has_priority(b) {
        assert(e.len() == 5 + tail.len());
        if i >= 5 {
            assert(e[i] == tail[i - 5]);
        } else if i == 0 {
            assert(e[0] == MenuEntryView::Item { label: "Move to top"@, disabled: b.is_first, command: PickerCommandView::MoveProfile(b.unique_id, MoveTo::Top) });
        } else if i == 1 {
            assert(e[1] == MenuEntryView::Item { label: "Move up"@, disabled: b.is_first, command: PickerCommandView::MoveProfile(b.unique_id, MoveTo::Up) });
        } else if i == 2 {
            assert(e[2] == MenuEntryView::Item { label: "Move down"@, disabled: b.is_last, command: PickerCommandView::MoveProfile(b.unique_id, MoveTo::Down) });
        } else if i == 3 {
            assert(e[3] == MenuEntryView::Item { label: "Move to bottom"@, disabled: b.is_last, command: PickerCommandView::MoveProfile(b.unique_id, MoveTo::Bottom) });
        } else {
            assert(e[4] == MenuEntryView::Separator);
        }
    } else {
        assert(e =~= tail);
    }
    if !has_priority(b) {
        assert forall|to: MoveTo| #[trigger] offers_move(e, b.unique_id, to) by {
            match to {
                MoveTo::Top => assert(moves_profile(e[0], b.unique_id, to)),
                MoveTo::Up => assert(moves_profile(e[1], b.unique_id, to)),
                MoveTo::Down => assert(moves_profile(e[2], b.unique_id, to)),
                MoveTo::Bottom => assert(moves_profile(e[3], b.unique_id, to)),
            }
        }
    }
}

fn label_item(label: &str, disabled: bool, command: PickerCommand) -> (r: MenuEntry)
    ensures
        r@ == (MenuEntryView::Item { label: label@, disabled, command: command@ }),
{
    MenuEntry::Item { label: String::from_str(label), disabled, command }
}

/// The context menu of a browser row.
pub fn browser_context_menu(browser: &UIBrowser) -> (r: Vec<MenuEntry>)
    ensures
        entry_views(r@) == context_menu_entries(browser@),
{
    let mut menu: Vec<MenuEntry> = Vec::new();
    let ghost id = browser@.unique_id;
    if !browser.has_priority_ordering() {
        menu.push(label_item("Move to top", browser.is_first, PickerCommand::MoveProfile(browser.unique_id.clone(), MoveTo::Top)));
        menu.push(label_item("Move up", browser.is_first, PickerCommand::MoveProfile(browser.unique_id.clone(), MoveTo::Up)));
        menu.push(label_item("Move down", browser.is_last, PickerCommand::MoveProfile(browser.unique_id.clone(), MoveTo::Down)));
        menu.push(label_item("Move to bottom", browser.is_last, PickerCommand::MoveProfile(browser.unique_id.clone(), MoveTo::Bottom)));
        menu.push(MenuEntry::Separator);
    }
    menu.push(label_item("Hide profile", false, PickerCommand::HideProfile(browser.unique_id.clone())));
    if browser.supports_profiles {
        menu.push(label_item("Hide all profiles", false, PickerCommand::HideAllProfiles(browser.unique_app_id.clone())));
    }
    assert(entry_views(menu@) =~= context_menu_entries(browser@));
    menu
}

/// The picker's options menu: refresh, "Make Browsers default" when
/// Browsers is not the default browser, the hidden profiles to restore
/// (under a heading, after a separator) when there are any, then settings,
/// about and quit after a separator.
pub open spec fn options_menu_entries(show_default: bool, hidden: Seq<crate::gui::model::UIBrowserView>) -> Seq<MenuEntryView> {
    let refresh = seq![item("Refresh applications"@, PickerCommandView::Refresh)];
    let make_default = if show_default {
        seq![item("Make Browsers default"@, PickerCommandView::MakeDefault)]
    } else {
        Seq::empty()
    };
    let restore = if hidden.len() > 0 {
        seq![MenuEntryView::Separator, MenuEntryView::Heading("Restore hidden profiles"@)]
            + hidden.map_values(|p: crate::gui::model::UIBrowserView| item(full_name(p), PickerCommandView::RestoreProfile(p.unique_id)))
    } else {
        Seq::empty()
    };
    let tail = seq![
        MenuEntryView::Separator,
        item("Settings…"@, PickerCommandView::ShowSettings),
        item("About Browsers"@, PickerCommandView::ShowAbout),
        item("Quit"@, PickerCommandView::Quit),
    ];
    refresh + make_default + restore + tail
}

/// The picker's options menu.
pub fn options_menu(show_default: bool, hidden: &Vec<UIBrowser>) -> (r: Vec<MenuEntry>)
    ensures
        entry_views(r@) == options_menu_entries(show_default, crate::gui::model::browser_views(hidden@)),
{
    let mut menu: Vec<MenuEntry> = Vec::new();
    menu.push(label_item("Refresh applications", false, PickerCommand::Refresh));
    if show_default {
        menu.push(label_item("Make Browsers default", false, PickerCommand::MakeDefault));
    }
    let ghost head = entry_views(menu@);
    if hidden.len() > 0 {
        menu.push(MenuEntry::Separator);
        menu.push(MenuEntry::Heading(String::from_str("Restore hidden profiles")));
        let ghost start = menu@.len();
        let ghost prefix = entry_views(menu@);
        assert(prefix =~= head + seq![MenuEntryView::Separator, MenuEntryView::Heading("Restore hidden profiles"@)]);
        let mut i: usize = 0;
        while i < hidden.len()
            invariant
                i <= hidden@.len(),
                prefix.len() == start,
                menu@.len() == start + i,
                entry_views(menu@).subrange(0, start as int) == prefix,
                forall|j: int| 0 <= j < i ==> #[trigger] menu@[start + j]@ == item(
                    full_name(hidden@[j]@),
                    PickerCommandView::RestoreProfile(hidden@[j]@.unique_id),
                ),
            decreases hidden.len() - i,
        {
            let profile = &hidden[i];
            menu.push(MenuEntry::Item {
                label: profile.get_full_name(),
                disabled: false,
                command: PickerCommand::RestoreProfile(profile.unique_id.clone()),
            });
            i = i + 1;
            assert(entry_views(menu@).subrange(0, start as int) =~= prefix);
        }
        let ghost expected = head + seq![MenuEntryView::Separator, MenuEntryView::Heading("Restore hidden profiles"@)]
            + crate::gui::model::browser_views(hidden@).map_values(|p: crate::gui::model::UIBrowserView| item(full_name(p), PickerCommandView::RestoreProfile(p.unique_id)));
        assert forall|k: int| 0 <= k < menu@.len() implies #[trigger] entry_views(menu@)[k] == expected[k] by {
            if k < start {
                assert(entry_views(menu@)[k] == entry_views(menu@).subrange(0, start as int)[k]);
            } else {
                assert(menu@[start + (k - start)]@ == item(
                    full_name(hidden@[k - start]@),
                    PickerCommandView::RestoreProfile(hidden@[k - start]@.unique_id),
                ));
            }
        }
        assert(entry_views(menu@) =~= expected);
    }
    let ghost middle = entry_views(menu@);
    menu.push(MenuEntry::Separator);
    menu.push(label_item("Settings…", false, PickerCommand::ShowSettings));
    menu.push(label_item("About Browsers", false, PickerCommand::ShowAbout));
    menu.push(label_item("Quit", false, PickerCommand::Quit));
    assert(entry_views(menu@) =~= middle + seq![
        MenuEntryView::Separator,
        item("Settings…"@, PickerCommandView::ShowSettings),
        item("About Browsers"@, PickerCommandView::ShowAbout),
        item("Quit"@, PickerCommandView::Quit),
    ]);
    assert(entry_views(menu@) =~= options_menu_entries(show_default, crate::gui::model::browser_views(hidden@)));
    menu
}

// ---------------------------------------------------------------------
// Visibility and placement
// ---------------------------------------------------------------------

/// Where a layer-shell picker is: waiting for the pointer, or placed.
#[derive(Clone, Copy, Debug, PartialEq, Eq, Structural)]
pub enum PickerPlacement {
    Waiting,
    Placed(Point),
}

/// The picker window's visibility state.
#[derive(Clone, Copy, Debug, PartialEq, Eq, Structural)]
pub struct PickerModel {
    pub picker_visible: bool,
    pub context_menu_expanded: bool,
    pub placement: PickerPlacement,
    /// The window is a full-screen overlay surface and the picker is
    /// drawn inside it at the pointer.
    pub is_layer_shell: bool,
    /// The window outlives the picker (a background daemon's window).
    pub persistent: bool,
    /// The window was opened by another window of the application.
    pub is_auxiliary: bool,
}

/// What showing the picker asks of the window.
#[derive(Clone, Copy, Debug, PartialEq, Eq, Structural)]
pub enum ShowEffect {
    /// Take all input and keyboard focus and wait for the pointer to
    /// place the picker.
    StartPlacement,
    /// Resize the window to the picker and activate it.
    ResizeAndActivate(Size),
}

/// What dismissing the picker asks of the window.
#[derive(Clone, Copy, Debug, PartialEq, Eq, Structural)]
pub enum DismissEffect {
    RemoveWindow,
    Quit,
    /// Take no more input (and give up the keyboard on an overlay).
    Hide,
}

/// How the window follows a change of the picker's size.
#[derive(Clone, Copy, Debug, PartialEq, Eq, Structural)]
pub enum ResizeEffect {
    Nothing,
    /// Accept input only inside these bounds.
    InputRegion(Bounds),
    Resize(Size),
}

/// The next step while waiting to place the picker at the pointer.
#[derive(Clone, Copy, Debug, PartialEq, Eq, Structural)]
pub enum PlacementStep {
    Stop,
    Retry,
    PlaceAtPointer,
}

impl PickerModel {
    /// The state of a picker window: shown at once unless persistent.
    pub fn new_picker(is_layer_shell: bool, persistent: bool) -> (r: Self)
        ensures
            r == (PickerModel {
                picker_visible: !persistent,
                context_menu_expanded: false,
                placement: PickerPlacement::Waiting,
                is_layer_shell,
                persistent,
                is_auxiliary: false,
            }),
    {
        PickerModel {
            picker_visible: !persistent,
            context_menu_expanded: false,
            placement: PickerPlacement::Waiting,
            is_layer_shell,
            persistent,
            is_auxiliary: false,
        }
    }

    /// The state of a background daemon without a picker surface.
    pub fn new_daemon() -> (r: Self)
        ensures
            r == (PickerModel {
                picker_visible: false,
                context_menu_expanded: false,
                placement: PickerPlacement::Waiting,
                is_layer_shell: false,
                persistent: true,
                is_auxiliary: false,
            }),
    {
        PickerModel {
            picker_visible: false,
            context_menu_expanded: false,
            placement: PickerPlacement::Waiting,
            is_layer_shell: false,
            persistent: true,
            is_auxiliary: false,
        }
    }

    /// The state of a window opened by another window: shown at once.
    pub fn new_auxiliary(is_layer_shell: bool) -> (r: Self)
        ensures
            r == (PickerModel {
                picker_visible: true,
                context_menu_expanded: false,
                placement: PickerPlacement::Waiting,
                is_layer_shell,
                persistent: false,
                is_auxiliary: true,
            }),
    {
        PickerModel {
            picker_visible: true,
            context_menu_expanded: false,
            placement: PickerPlacement::Waiting,
            is_layer_shell,
            persistent: false,
            is_auxiliary: true,
        }
    }

    /// Shows the picker, waiting for a new placement.
    pub fn show(&mut self, picker: Size) -> (r: ShowEffect)
        ensures
            *final(self) == (PickerModel {
                picker_visible: true,
                context_menu_expanded: false,
                placement: PickerPlacement::Waiting,
                ..*old(self)
            }),
            r == (if old(self).is_layer_shell {
                ShowEffect::StartPlacement
            } else {
                ShowEffect::ResizeAndActivate(picker)
            }),
    {
        self.picker_visible = true;
        self.context_menu_expanded = false;
        self.placement = PickerPlacement::Waiting;
        if self.is_layer_shell {
            ShowEffect::StartPlacement
        } else {
            ShowEffect::ResizeAndActivate(picker)
        }
    }

    /// Dismisses the picker: a window that does not outlive the picker
    /// goes away (the whole application, unless another window opened it);
    /// a persistent one hides the picker and waits for the next request.
    pub fn dismiss(&mut self) -> (r: DismissEffect)
        ensures
            !old(self).persistent ==> *final(self) == *old(self) && r == (if old(self).is_auxiliary {
                DismissEffect::RemoveWindow
            } else {
                DismissEffect::Quit
            }),
            old(self).persistent ==> r == DismissEffect::Hide && *final(self) == (PickerModel {
                picker_visible: false,
                context_menu_expanded: false,
                placement: PickerPlacement::Waiting,
                ..*old(self)
            }),
    {
        if !self.persistent {
            if self.is_auxiliary {
                return DismissEffect::RemoveWindow;
            }
            return DismissEffect::Quit;
        }
        self.picker_visible = false;
        self.context_menu_expanded = false;
        self.placement = PickerPlacement::Waiting;
        DismissEffect::Hide
    }

    /// The region that takes input on an overlay: the placed picker while
    /// it is shown.
    pub fn input_region(&self, picker: Size) -> (r: Option<Bounds>)
        ensures
            r == input_region_of(*self, picker),
    {
        if self.picker_visible {
            match self.placement {
                PickerPlacement::Placed(origin) => Some(Bounds { origin, size: picker }),
                PickerPlacement::Waiting => None,
            }
        } else {
            None
        }
    }

    /// How the window follows a new picker size: not at all while a
    /// persistent window hides the picker; on an overlay by moving the
    /// input region; otherwise by resizing the window.
    pub fn resize_effect(&self, picker: Size) -> (r: ResizeEffect)
        ensures
            r == (if self.persistent && !self.picker_visible {
                ResizeEffect::Nothing
            } else if self.is_layer_shell {
                match input_region_of(*self, picker) {
                    Some(b) => ResizeEffect::InputRegion(b),
                    None => ResizeEffect::Nothing,
                }
            } else {
                ResizeEffect::Resize(picker)
            }),
    {
        if self.persistent && !self.picker_visible {
            return ResizeEffect::Nothing;
        }
        if self.is_layer_shell {
            match self.input_region(picker) {
                Some(b) => ResizeEffect::InputRegion(b),
                None => ResizeEffect::Nothing,
            }
        } else {
            ResizeEffect::Resize(picker)
        }
    }

    /// Marks the context menu open and returns the size that leaves room
    /// for it beside the picker.
    pub fn expand_for_context_menu(&mut self, picker: Size) -> (r: Size)
        requires
            size_in_range(picker),
        ensures
            *final(self) == (PickerModel { context_menu_expanded: true, ..*old(self) }),
            r == context_menu_size_spec(picker),
    {
        self.context_menu_expanded = true;
        context_menu_size(picker)
    }

    /// Closes the context menu if it is open and returns how the window
    /// shrinks back to the picker (`None` when no menu was open).
    pub fn collapse_context_menu(&mut self, picker: Size) -> (r: Option<ResizeEffect>)
        ensures
            !old(self).context_menu_expanded ==> *final(self) == *old(self) && r is None,
            old(self).context_menu_expanded ==> {
                &&& *final(self) == (PickerModel { context_menu_expanded: false, ..*old(self) })
                &&& r == Some(if old(self).is_layer_shell {
                    match input_region_of(*final(self), picker) {
                        Some(b) => ResizeEffect::InputRegion(b),
                        None => ResizeEffect::Nothing,
                    }
                } else {
                    ResizeEffect::Resize(picker)
                })
            },
    {
        if !self.context_menu_expanded {
            return None;
        }
        self.context_menu_expanded = false;
        if self.is_layer_shell {
            Some(match self.input_region(picker) {
                Some(b) => ResizeEffect::InputRegion(b),
                None => ResizeEffect::Nothing,
            })
        } else {
            Some(ResizeEffect::Resize(picker))
        }
    }

    /// The next step of waiting for the pointer: stop once the picker is
    /// hidden or placed, wait while the pointer is outside the window,
    /// else place the picker at the pointer.
    pub fn placement_step(&self, hovered: bool) -> (r: PlacementStep)
        ensures
            r == (if !self.picker_visible || self.placement != PickerPlacement::Waiting {
                PlacementStep::Stop
            } else if !hovered {
                PlacementStep::Retry
            } else {
                PlacementStep::PlaceAtPointer
            }),
    {
        if !self.picker_visible || self.placement != PickerPlacement::Waiting {
            PlacementStep::Stop
        } else if !hovered {
            PlacementStep::Retry
        } else {
            PlacementStep::PlaceAtPointer
        }
    }

    /// Whether a pointer move over the overlay should place the picker.
    pub fn accepts_pointer_move(&self) -> (r: bool)
        ensures
            r == (self.picker_visible && self.is_layer_shell && self.placement
                == PickerPlacement::Waiting),
    {
        self.picker_visible && self.is_layer_shell && self.placement == PickerPlacement::Waiting
    }

    /// Places the picker next to the pointer in a viewport starting at
    /// (0, 0); does nothing and returns false when the viewport is empty.
    pub fn place_at(&mut self, pointer: Point, viewport: Size, picker: Size) -> (placed: bool)
        requires
            point_in_range(pointer),
            size_in_range(viewport),
            size_in_range(picker),
        ensures
            placed == (viewport.width > 0 && viewport.height > 0),
            !placed ==> *final(self) == *old(self),
            placed ==> *final(self) == (PickerModel {
                placement: PickerPlacement::Placed(Point {
                    x: origin_on_axis(pointer.x as int, 0, viewport.width as int, picker.width as int) as i64,
                    y: origin_on_axis(pointer.y as int, 0, viewport.height as int, picker.height as int) as i64,
                }),
                ..*old(self)
            }),
    {
        if viewport.width <= 0 || viewport.height <= 0 {
            return false;
        }
        let origin = picker_origin(pointer, Bounds { origin: Point { x: 0, y: 0 }, size: viewport }, picker);
        self.placement = PickerPlacement::Placed(origin);
        true
    }
}

/// The region that takes input on an overlay: the placed picker while it
/// is shown.
pub open spec fn input_region_of(m: PickerModel, picker: Size) -> Option<Bounds> {
    if m.picker_visible {
        match m.placement {
            PickerPlacement::Placed(origin) => Some(Bounds { origin, size: picker }),
            PickerPlacement::Waiting => None,
        }
    } else {
        None
    }
}

/// The size that leaves room for a context menu beside the picker.
pub open spec fn context_menu_size_spec(picker: Size) -> Size {
    Size {
        width: (picker.width + crate::gui::window_placement::PICKER_MENU_EXTRA_WIDTH) as i64,
        height: (picker.height + crate::gui::window_placement::PICKER_MENU_EXTRA_HEIGHT) as i64,
    }
}

/// The name shown on a browser's row: marked private when private mode is
/// on and the browser supports it.
pub open spec fn row_name(b: crate::gui::model::UIBrowserView, incognito_mode: bool) -> Seq<char> {
    if incognito_mode && b.supports_incognito {
        b.browser_name + " · Private"@
    } else {
        b.browser_name
    }
}

/// The name shown on a browser's row.
pub fn picker_row_name(browser: &UIBrowser, incognito_mode: bool) -> (r: String)
    ensures
        r@ == row_name(browser@, incognito_mode),
{
    let mut name = browser.browser_name.clone();
    if incognito_mode && browser.supports_incognito {
        name.append(" · Private");
    }
    name
}

/// The profile name shown under a browser's name, for browsers with real
/// profiles.
pub fn picker_row_profile(browser: &UIBrowser) -> (r: Option<String>)
    ensures
        match r {
            Some(p) => browser.supports_profiles && p@ == browser.profile_name@,
            None => !browser.supports_profiles,
        },
{
    if browser.supports_profiles {
        Some(browser.profile_name.clone())
    } else {
        None
    }
}

} // verus!
