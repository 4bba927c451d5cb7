//! A dropdown for selectable action menus.
//!
//! This module holds the dropdown's items, the status of its trigger, and
//! what the keyboard and pointer do to the open menu; laying the menu out
//! and drawing it is left to the widget that shows it.
use vstd::prelude::*;

pub mod menu;

use menu::Hit;
use crate::widget::keyboard::KeyName;
use crate::widget::navigation::{
    Navigable, first_navigable_index, is_first_navigable, is_last_navigable, is_next_navigable,
    last_navigable_index, law_backward_undoes_forward, lemma_found_is_not_none,
    lemma_navigable_row_is_found, lemma_next_navigable_unique, next_navigable_index,
    none_navigable_from, some_navigable,
};

verus! {

/// A dropdown menu item, with a leading glyph of type `L` on action rows.
#[derive(Debug, Clone)]
pub enum Item<Message, L> {
    /// A clickable action item.
    Action { title: String, on_press: Option<Message>, leading: Option<L> },
    /// A non-interactive section header.
    Section { title: String },
    /// A visual separator between item groups.
    Separator,
}

/// Whether the keyboard and pointer may land on an item: an action with a
/// message.
pub open spec fn item_enabled<Message, L>(item: Item<Message, L>) -> bool {
    item matches Item::Action { on_press: Some(_), .. }
}

/// The message of an enabled action; nothing for any other item.
pub open spec fn item_message<Message, L>(item: Item<Message, L>) -> Option<Message> {
    match item {
        Item::Action { on_press, .. } => on_press,
        _ => None,
    }
}

impl<Message, L> Navigable for Item<Message, L> {
    open spec fn navigable(&self) -> bool {
        item_enabled(*self)
    }

    fn is_navigable(&self) -> (navigable: bool) {
        self.is_enabled()
    }
}

/// An item disabled when `disabled` holds: an action loses its message;
/// other items stay as they are.
pub open spec fn disabled_item<Message, L>(item: Item<Message, L>, disabled: bool) -> Item<Message, L> {
    match item {
        Item::Action { title, on_press, leading } => Item::Action {
            title,
            on_press: if disabled {
                None
            } else {
                on_press
            },
            leading,
        },
        other => other,
    }
}

impl<Message, L> Item<Message, L> {
    /// Sets the leading glyph of an action item; other items are unchanged.
    #[must_use]
    pub fn leading(self, leading: L) -> (item: Self)
        ensures
            item == match self {
                Item::Action { title, on_press, .. } => Item::Action {
                    title,
                    on_press,
                    leading: Some(leading),
                },
                other => other,
            },
    {
        match self {
            Item::Action { title, on_press, .. } => Item::Action {
                title,
                on_press,
                leading: Some(leading),
            },
            other => other,
        }
    }

    /// Disables an action item (dropping its message) when `disabled`
    /// holds; other items are unchanged.
    #[must_use]
    pub fn disabled(self, disabled: bool) -> (item: Self)
        ensures
            item == disabled_item(self, disabled),
    {
        match self {
            Item::Action { title, on_press, leading } => Item::Action {
                title,
                on_press: if disabled {
                    None
                } else {
                    on_press
                },
                leading,
            },
            other => other,
        }
    }

    /// Whether the keyboard and pointer may land on this item.
    pub fn is_enabled(&self) -> (enabled: bool)
        ensures
            enabled == item_enabled(*self),
    {
        match self {
            Item::Action { on_press, .. } => on_press.is_some(),
            _ => false,
        }
    }

    /// Returns the message of an enabled action.
    pub fn message(&self) -> (message: Option<&Message>)
        ensures
            match message {
                Some(m) => item_message(*self) == Some(*m),
                None => item_message(*self) is None,
            },
    {
        match self {
            Item::Action { on_press, .. } => match on_press {
                Some(m) => Some(m),
                None => None,
            },
            _ => None,
        }
    }

    /// Whether this is an action item with a leading glyph.
    pub fn has_leading(&self) -> (has: bool)
        ensures
            has == (*self matches Item::Action { leading: Some(_), .. }),
    {
        match self {
            Item::Action { leading, .. } => leading.is_some(),
            _ => false,
        }
    }
}

/// Creates an enabled action item.
pub fn item<Message, L>(title: &str, message: Message) -> (item: Item<Message, L>)
    ensures
        item matches Item::Action { title: t, on_press: Some(m), leading: None } && t@ == title@
            && m == message,
{
    Item::Action { title: String::from_str(title), on_press: Some(message), leading: None }
}

/// Creates an action item that is enabled only when a message is present.
pub fn item_maybe<Message, L>(title: &str, message: Option<Message>) -> (item: Item<Message, L>)
    ensures
        item matches Item::Action { title: t, on_press, leading: None } && t@ == title@ && on_press
            == message,
{
    Item::Action { title: String::from_str(title), on_press: message, leading: None }
}

/// Creates a non-action section heading.
pub fn section<Message, L>(title: &str) -> (item: Item<Message, L>)
    ensures
        item matches Item::Section { title: t } && t@ == title@,
{
    Item::Section { title: String::from_str(title) }
}

/// Creates a separator item.
pub fn separator<Message, L>() -> (item: Item<Message, L>)
    ensures
        item is Separator,
{
    Item::Separator
}

/// The status of a dropdown trigger.
#[derive(Debug, Clone, Copy, Default, PartialEq, Eq, Structural)]
pub enum Status {
    #[default]
    Active,
    Hovered,
    Opened,
    Disabled,
}

/// A type of dropdown trigger style.
#[derive(Debug, Default, Clone, Copy, PartialEq, Eq, Structural)]
#[non_exhaustive]
pub enum Variant {
    #[default]
    Standard,
    Subtle,
}

/// The status of a trigger: disabled wins over open, and open over hovered.
pub open spec fn trigger_status(disabled: bool, is_open: bool, hovered: bool) -> Status {
    if disabled {
        Status::Disabled
    } else if is_open {
        Status::Opened
    } else if hovered {
        Status::Hovered
    } else {
        Status::Active
    }
}

/// Returns the status of a trigger that is `disabled` or not, whose menu
/// `is_open` or not, and which the cursor is over (`hovered`) or not.
pub fn status(disabled: bool, is_open: bool, hovered: bool) -> (status: Status)
    ensures
        status == trigger_status(disabled, is_open, hovered),
{
    if disabled {
        Status::Disabled
    } else if is_open {
        Status::Opened
    } else if hovered {
        Status::Hovered
    } else {
        Status::Active
    }
}

/// What a click on an open menu asks of the widget that shows it.
#[derive(Debug)]
pub enum PressOutcome<'a, Message> {
    /// Publish the message; the menu has closed.
    Activate(&'a Message),
    /// The menu stays open.
    Stay,
    /// The click fell outside the menu, which has closed.
    Close,
}

/// What a key press asks of the widget that shows an open menu.
#[derive(Debug)]
pub enum KeyOutcome<'a, Message> {
    /// Publish the message; the menu has closed.
    Activate(&'a Message),
    /// The menu has closed.
    Close,
    /// The active row may have moved; scroll it into view.
    Navigate,
    /// The key is taken by the menu and nothing else happens.
    Consume,
    /// The key is not for the menu.
    Ignored,
}

/// Whether the dropdown's menu is open, and its active row.
#[derive(Debug, Clone, Copy, PartialEq, Eq, Structural)]
pub struct Navigation {
    pub is_open: bool,
    pub active_index: Option<usize>,
}

/// The menu is closed and no row is active.
pub open spec fn is_closed(navigation: Navigation) -> bool {
    !navigation.is_open && navigation.active_index is None
}

/// `index` is the first navigable row, or nothing when there is none.
pub open spec fn first_or_none<Message, L>(items: Seq<Item<Message, L>>, index: Option<usize>) -> bool {
    match index {
        Some(k) => is_first_navigable(items, k as int),
        None => !some_navigable(items),
    }
}

/// `index` is the last navigable row, or nothing when there is none.
pub open spec fn last_or_none<Message, L>(items: Seq<Item<Message, L>>, index: Option<usize>) -> bool {
    match index {
        Some(k) => is_last_navigable(items, k as int),
        None => !some_navigable(items),
    }
}

/// What an arrow key does to the active row: it moves to the next navigable
/// row in its direction, wrapping around; with no active row, or when no
/// row is found, the first row (moving down) or the last row (moving up)
/// that is navigable becomes active.
pub open spec fn stepped<Message, L>(
    items: Seq<Item<Message, L>>,
    before: Option<usize>,
    after: Option<usize>,
    forward: bool,
) -> bool {
    let from_end = if forward {
        first_or_none(items, after)
    } else {
        last_or_none(items, after)
    };
    match before {
        Some(i) => if none_navigable_from(items, i as int, forward) {
            from_end
        } else {
            after matches Some(k) && is_next_navigable(items, i as int, forward, k as int)
        },
        None => from_end,
    }
}

/// An arrow key can step from the active row without overflow.
pub open spec fn step_in_range(len: nat, active_index: Option<usize>, forward: bool) -> bool {
    match active_index {
        Some(i) => len > 0 ==> if forward {
            i < usize::MAX
        } else {
            i <= len
        },
        None => true,
    }
}

/// A row under the cursor lies within the menu.
pub open spec fn hit_in_range(len: nat, hit: Hit) -> bool {
    hit matches Hit::Row(i) ==> i < len
}

/// The active row that a cursor at `hit` leaves: an enabled row becomes
/// active; any other row, or the menu's padding, leaves none; outside the
/// menu the active row stays.
pub open spec fn hovered_index<Message, L>(items: Seq<Item<Message, L>>, hit: Hit, active_index: Option<
    usize,
>) -> Option<usize> {
    match hit {
        Hit::Row(i) => if item_enabled(items[i as int]) {
            Some(i)
        } else {
            None
        },
        Hit::Chrome => None,
        Hit::Outside => active_index,
    }
}

/// The message of the active row, if it is an enabled action.
pub open spec fn active_message<Message, L>(items: Seq<Item<Message, L>>, active_index: Option<usize>) -> Option<
    Message,
> {
    match active_index {
        Some(i) => item_message(items[i as int]),
        None => None,
    }
}

impl Navigation {
    /// A closed menu.
    pub fn new() -> (navigation: Self)
        ensures
            is_closed(navigation),
    {
        Navigation { is_open: false, active_index: None }
    }

    /// Opens the menu with its first navigable row active.
    pub fn open<Message, L>(&mut self, items: &[Item<Message, L>])
        ensures
            final(self).is_open,
            first_or_none(items@, final(self).active_index),
    {
        self.is_open = true;
        self.active_index = first_navigable_index(items);
    }

    /// Closes the menu.
    pub fn close(&mut self)
        ensures
            is_closed(*final(self)),
    {
        self.is_open = false;
        self.active_index = None;
    }

    /// Follows an open state that the application controls: opens or closes
    /// the menu when it differs from `is_open`; `None` leaves it alone.
    pub fn sync<Message, L>(&mut self, items: &[Item<Message, L>], is_open: Option<bool>)
        ensures
            match is_open {
                Some(true) => if old(self).is_open {
                    *final(self) == *old(self)
                } else {
                    final(self).is_open && first_or_none(items@, final(self).active_index)
                },
                Some(false) => if old(self).is_open {
                    is_closed(*final(self))
                } else {
                    *final(self) == *old(self)
                },
                None => *final(self) == *old(self),
            },
    {
        if let Some(open) = is_open {
            if open && !self.is_open {
                self.open(items);
            } else if !open && self.is_open {
                self.close();
            }
        }
    }

    /// A click or touch on the trigger of a closed menu: unless the
    /// dropdown is disabled, the menu opens. Returns whether it opened.
    pub fn press_trigger<Message, L>(&mut self, items: &[Item<Message, L>], disabled: bool) -> (opened:
        bool)
        ensures
            opened == !disabled,
            opened ==> final(self).is_open && first_or_none(items@, final(self).active_index),
            !opened ==> *final(self) == *old(self),
    {
        if disabled {
            return false;
        }
        self.open(items);
        true
    }

    /// Moves the active row down to the next navigable row.
    pub fn move_next<Message, L>(&mut self, items: &[Item<Message, L>])
        requires
            step_in_range(items@.len(), old(self).active_index, true),
        ensures
            final(self).is_open == old(self).is_open,
            stepped(items@, old(self).active_index, final(self).active_index, true),
    {
        let next = match self.active_index {
            Some(index) => next_navigable_index(items, index, 1),
            None => None,
        };
        self.active_index = match next {
            Some(index) => Some(index),
            None => first_navigable_index(items),
        };
    }

    /// Moves the active row up to the previous navigable row.
    pub fn move_previous<Message, L>(&mut self, items: &[Item<Message, L>])
        requires
            step_in_range(items@.len(), old(self).active_index, false),
        ensures
            final(self).is_open == old(self).is_open,
            stepped(items@, old(self).active_index, final(self).active_index, false),
    {
        let previous = match self.active_index {
            Some(index) => next_navigable_index(items, index, -1),
            None => None,
        };
        self.active_index = match previous {
            Some(index) => Some(index),
            None => last_navigable_index(items),
        };
    }

    /// Follows the cursor over the open menu at `hit`. Returns whether the
    /// active row changed.
    pub fn hover<Message, L>(&mut self, items: &[Item<Message, L>], hit: Hit) -> (changed: bool)
        requires
            hit_in_range(items@.len(), hit),
        ensures
            final(self).is_open == old(self).is_open,
            final(self).active_index == hovered_index(items@, hit, old(self).active_index),
            changed == (final(self).active_index != old(self).active_index),
    {
        let next = match hit {
            Hit::Row(index) => if items[index].is_enabled() {
                Some(index)
            } else {
                None
            },
            Hit::Chrome => None,
            Hit::Outside => self.active_index,
        };
        let changed = match (next, self.active_index) {
            (Some(a), Some(b)) => a != b,
            (None, None) => false,
            _ => true,
        };
        self.active_index = next;
        changed
    }

    /// A click or touch on the open menu at `hit`: an enabled action sends
    /// its message and closes the menu, and another row only changes which
    /// row is active; the padding clears the active row; outside the menu,
    /// the menu closes.
    pub fn press<'a, Message, L>(&mut self, items: &'a [Item<Message, L>], hit: Hit) -> (outcome:
        PressOutcome<'a, Message>)
        requires
            hit_in_range(items@.len(), hit),
        ensures
            match hit {
                Hit::Row(i) => match item_message(items@[i as int]) {
                    Some(message) => outcome matches PressOutcome::Activate(m) && *m == message
                        && is_closed(*final(self)),
                    None => outcome is Stay && final(self).is_open == old(self).is_open
                        && final(self).active_index == hovered_index(items@, hit, None),
                },
                Hit::Chrome => outcome is Stay && final(self).is_open == old(self).is_open
                    && final(self).active_index is None,
                Hit::Outside => outcome is Close && is_closed(*final(self)),
            },
    {
        match hit {
            Hit::Row(index) => {
                self.active_index = if items[index].is_enabled() {
                    Some(index)
                } else {
                    None
                };
                match items[index].message() {
                    Some(message) => {
                        self.close();
                        PressOutcome::Activate(message)
                    },
                    None => PressOutcome::Stay,
                }
            },
            Hit::Chrome => {
                self.active_index = None;
                PressOutcome::Stay
            },
            Hit::Outside => {
                self.close();
                PressOutcome::Close
            },
        }
    }

    /// A named key pressed while the menu is open: Escape closes it; the
    /// down and up arrows move the active row; Home and End make the first
    /// and last navigable rows active; Enter and Space send the active
    /// action's message and close the menu. Other keys are not for the menu.
    pub fn key<'a, Message, L>(&mut self, items: &'a [Item<Message, L>], name: KeyName) -> (outcome:
        KeyOutcome<'a, Message>)
        requires
            name == KeyName::ArrowDown ==> step_in_range(items@.len(), old(self).active_index, true),
            name == KeyName::ArrowUp ==> step_in_range(items@.len(), old(self).active_index, false),
            name == KeyName::Enter || name == KeyName::Space ==> (old(self).active_index matches Some(
                i,
            ) ==> i < items@.len()),
        ensures
            match name {
                KeyName::Escape => outcome is Close && is_closed(*final(self)),
                KeyName::ArrowDown => outcome is Navigate && final(self).is_open == old(self).is_open
                    && stepped(items@, old(self).active_index, final(self).active_index, true),
                KeyName::ArrowUp => outcome is Navigate && final(self).is_open == old(self).is_open
                    && stepped(items@, old(self).active_index, final(self).active_index, false),
                KeyName::Home => outcome is Navigate && final(self).is_open == old(self).is_open
                    && first_or_none(items@, final(self).active_index),
                KeyName::End => outcome is Navigate && final(self).is_open == old(self).is_open
                    && last_or_none(items@, final(self).active_index),
                KeyName::Enter | KeyName::Space => match active_message(items@, old(self).active_index) {
                    Some(message) => outcome matches KeyOutcome::Activate(m) && *m == message
                        && is_closed(*final(self)),
                    None => outcome is Consume && *final(self) == *old(self),
                },
                _ => outcome is Ignored && *final(self) == *old(self),
            },
    {
        match name {
            KeyName::Escape => {
                self.close();
                KeyOutcome::Close
            },
            KeyName::ArrowDown => {
                self.move_next(items);
                KeyOutcome::Navigate
            },
            KeyName::ArrowUp => {
                self.move_previous(items);
                KeyOutcome::Navigate
            },
            KeyName::Home => {
                self.active_index = first_navigable_index(items);
                KeyOutcome::Navigate
            },
            KeyName::End => {
                self.active_index = last_navigable_index(items);
                KeyOutcome::Navigate
            },
            KeyName::Enter | KeyName::Space => {
                let message = match self.active_index {
                    Some(index) => items[index].message(),
                    None => None,
                };
                match message {
                    Some(message) => {
                        self.close();
                        KeyOutcome::Activate(message)
                    },
                    None => KeyOutcome::Consume,
                }
            },
            _ => KeyOutcome::Ignored,
        }
    }
}

/// Whenever the arrow keys leave a row active, the keyboard may land on it:
/// section headers, separators and disabled actions are skipped.
pub proof fn law_step_lands_on_enabled<Message, L>(
    items: Seq<Item<Message, L>>,
    before: Option<usize>,
    after: Option<usize>,
    forward: bool,
)
    requires
        stepped(items, before, after, forward),
    ensures
        after matches Some(k) ==> k < items.len() && item_enabled(items[k as int]),
{
    if let Some(k) = after {
        if let Some(i) = before {
            if !none_navigable_from(items, i as int, forward) {
                crate::widget::navigation::lemma_next_navigable_in_range(items, i as int, forward, k as int);
            }
        }
    }
}

/// Moving up after moving down from an enabled row comes back to it.
pub proof fn law_previous_undoes_next<Message, L>(
    items: Seq<Item<Message, L>>,
    start: usize,
    next: Option<usize>,
    back: Option<usize>,
)
    requires
        start < items.len(),
        item_enabled(items[start as int]),
        stepped(items, Some(start), next, true),
        stepped(items, next, back, false),
    ensures
        back == Some(start),
{
    lemma_navigable_row_is_found(items, start as int);
    let found = next->Some_0;
    law_backward_undoes_forward(items, start as int, found as int);
    lemma_found_is_not_none(items, found as int, false, start as int);
    lemma_next_navigable_unique(items, found as int, false, start as int, back->Some_0 as int);
}


/// A disabled item has no message: it can be neither activated nor landed on.
pub proof fn law_disabled_item_has_no_message<Message, L>(item: Item<Message, L>)
    ensures
        item_message(disabled_item(item, true)) is None,
        !item_enabled(disabled_item(item, true)),
{
}

/// Moving down from a row lands on the row after it when that row may be
/// landed on, and moving up on the row before it.
pub proof fn law_steps_reach_neighbours<Message, L>(
    items: Seq<Item<Message, L>>,
    row: usize,
    after: Option<usize>,
    forward: bool,
)
    requires
        row < items.len(),
        forward ==> row + 1 < items.len() && item_enabled(items[row + 1]),
        !forward ==> row >= 1 && item_enabled(items[row - 1]),
        stepped(items, Some(row), after, forward),
    ensures
        after == Some((if forward { row + 1 } else { row - 1 }) as usize),
{
    let n = items.len() as int;
    let target = if forward { row + 1 } else { row - 1 };
    vstd::arithmetic::div_mod::lemma_small_mod(target as nat, n as nat);
    assert(crate::widget::navigation::cyclic_index(n, row as int, forward, 1) == target);
    assert(is_next_navigable(items, row as int, forward, target));
    lemma_found_is_not_none(items, row as int, forward, target);
    lemma_next_navigable_unique(items, row as int, forward, target, after->Some_0 as int);
}

/// A disabled trigger shows as disabled whatever else holds; an enabled one
/// shows as opened while its menu is open, as hovered under the cursor, and
/// as active otherwise.
pub proof fn law_trigger_status(is_open: bool, hovered: bool)
    ensures
        trigger_status(true, is_open, hovered) == Status::Disabled,
        trigger_status(false, true, hovered) == Status::Opened,
        trigger_status(false, false, true) == Status::Hovered,
        trigger_status(false, false, false) == Status::Active,
{
}
} // verus!
