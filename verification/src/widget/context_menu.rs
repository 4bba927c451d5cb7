//! A context menu for showing action menus on right click.
//!
//! This module holds the menu's items and what the keyboard and pointer do
//! to the active path through its levels; laying the levels out and drawing
//! them is left to the widget that shows them.
use vstd::prelude::*;

pub mod item;
pub mod shortcut;

pub use item::Item;
pub use shortcut::{Key, Shortcut};
use item::{
    active_message, disabled_item, first_navigable_path, item_at, item_at_path, item_enabled, item_message,
    lemma_item_at_level, lemma_level_items_at, level_items, moved, move_active, shortcut_in_item, shortcut_in_items,
    shortcut_message, steppable, submenu_children,
};
use crate::widget::keyboard::{KeyName, Modifiers, Pressed};
use crate::widget::navigation::{
    first_navigable_index, is_first_navigable, is_next_navigable, law_backward_undoes_forward,
    lemma_found_is_not_none, lemma_navigable_row_is_found, lemma_next_navigable_in_range,
    lemma_next_navigable_unique, some_navigable,
};

verus! {

/// How long a hover target is held back while the cursor travels toward an
/// open submenu, in nanoseconds.
pub const SAFETY_HOVER_DELAY: u64 = 250_000_000;

/// How many recent cursor positions back the safety triangle apex is taken from.
pub const POINTER_TRAIL_LEN: usize = 3;

/// Creates an enabled action item.
pub fn item<Message>(title: &str, message: Message) -> (item: Item<Message>)
    ensures
        item matches Item::Action { title: t, on_press: Some(m), shortcut: None } && t@ == title@
            && m == message,
{
    Item::Action { title: String::from_str(title), on_press: Some(message), shortcut: None }
}

/// Creates an action item that is enabled only when a message is present.
pub fn item_maybe<Message>(title: &str, message: Option<Message>) -> (item: Item<Message>)
    ensures
        item matches Item::Action { title: t, on_press, shortcut: None } && t@ == title@ && on_press
            == message,
{
    Item::Action { title: String::from_str(title), on_press: message, shortcut: None }
}

/// Creates an enabled submenu item.
pub fn submenu<Message>(title: &str, items: Vec<Item<Message>>) -> (item: Item<Message>)
    ensures
        item matches Item::Submenu { title: t, items: children, enabled: true } && t@ == title@
            && children@ == items@,
{
    Item::Submenu { title: String::from_str(title), items, enabled: true }
}

/// Creates a separator item.
pub fn separator<Message>() -> (item: Item<Message>)
    ensures
        item is Separator,
{
    Item::Separator
}

/// A type of context menu style.
#[derive(Debug, Default, Clone, Copy, PartialEq, Eq, Structural)]
#[non_exhaustive]
pub enum Variant {
    #[default]
    Standard,
    Subtle,
}

/// A hover target held back while the cursor travels toward an open submenu.
#[derive(Debug, Clone)]
pub struct PendingSafetyHover {
    /// The path that becomes active once the delay has passed.
    pub path: Vec<usize>,
    /// When the delay started, in nanoseconds; unset until the first redraw.
    pub started_at: Option<u64>,
}

/// What a redraw does to a held-back hover target.
#[derive(Debug, Clone, Copy, PartialEq, Eq, Structural)]
pub enum SafetyHoverAdvance {
    /// Nothing is held back.
    Idle,
    /// The target is still held back; redraw again at `until`.
    Waiting { until: u64 },
    /// The delay has passed and the target became the active path.
    Activated,
}

/// What a key press asks of the widget that shows the menu.
#[derive(Debug)]
pub enum KeyOutcome<'a, Message> {
    /// Publish the message; the menu has closed.
    Activate(&'a Message),
    /// The menu has closed.
    Close,
    /// The active path may have moved; with `reveal`, scroll the active row
    /// into view.
    Navigate { reveal: bool },
    /// The key is not for the menu.
    Ignored,
}

/// What a left click on the open menu asks of the widget that shows it.
#[derive(Debug)]
pub enum PressOutcome<'a, Message> {
    /// Publish the message; the menu has closed.
    Activate(&'a Message),
    /// The clicked row became the active path.
    Hover,
    /// The click fell outside the menu, which has closed.
    Close,
}

/// The keyboard and hover state of an open context menu: the index of the
/// active row in each open level, from the top level down, and a hover
/// target held back while the cursor travels toward an open submenu.
#[derive(Debug, Clone)]
pub struct Navigation {
    pub active_path: Vec<usize>,
    pub pending_safety_hover: Option<PendingSafetyHover>,
}

/// No row is active and nothing is held back.
pub open spec fn is_reset(navigation: Navigation) -> bool {
    navigation.active_path@.len() == 0 && navigation.pending_safety_hover is None
}

/// The message of the enabled action reached by following `path`.
pub open spec fn path_message<Message>(items: Seq<Item<Message>>, path: Seq<usize>) -> Option<Message> {
    match item_at(items, path) {
        Some(item) => item_message(item),
        None => None,
    }
}

/// The rows of the enabled submenu reached by following `path`.
pub open spec fn path_children<Message>(items: Seq<Item<Message>>, path: Seq<usize>) -> Option<
    Seq<Item<Message>>,
> {
    match item_at(items, path) {
        Some(item) => submenu_children(item),
        None => None,
    }
}

/// Entering the submenu of the active row: when it is an enabled submenu
/// with a navigable row, its first such row becomes active below it;
/// otherwise nothing changes.
pub open spec fn entered<Message>(items: Seq<Item<Message>>, before: Navigation, after: Navigation) -> bool {
    match path_children(items, before.active_path@) {
        Some(children) => if some_navigable(children) {
            &&& after.active_path@.len() == before.active_path@.len() + 1
            &&& after.active_path@.drop_last() == before.active_path@
            &&& is_first_navigable(children, after.active_path@.last() as int)
            &&& after.pending_safety_hover is None
        } else {
            after == before
        },
        None => after == before,
    }
}

/// Leaving a submenu: below the top level, the deepest active row is
/// dropped; at the top level nothing changes.
pub open spec fn left(before: Navigation, after: Navigation) -> bool {
    if before.active_path@.len() > 1 {
        after.active_path@ == before.active_path@.drop_last() && after.pending_safety_hover is None
    } else {
        after == before
    }
}

/// The held-back hover target aims at `path`.
pub open spec fn pending_path_is(pending: Option<PendingSafetyHover>, path: Seq<usize>) -> bool {
    match pending {
        Some(p) => p.path@ == path,
        None => false,
    }
}

/// Holding back a hover target: the same target keeps its delay; a new one
/// replaces it with its delay not yet started. The active path stays.
pub open spec fn held_back(before: Navigation, after: Navigation, path: Seq<usize>) -> bool {
    if pending_path_is(before.pending_safety_hover, path) {
        after == before
    } else {
        &&& after.active_path == before.active_path
        &&& after.pending_safety_hover matches Some(p) && p.path@ == path && p.started_at is None
    }
}

/// The time at which a held-back target's delay started, or `now` when it
/// has not started yet.
pub open spec fn hover_started(pending: PendingSafetyHover, now: u64) -> u64 {
    match pending.started_at {
        Some(started) => started,
        None => now,
    }
}

/// A redraw at `now` can add the delay to the start of the held-back target
/// without overflow.
pub open spec fn advance_in_range(navigation: Navigation, now: u64) -> bool {
    navigation.pending_safety_hover matches Some(p) ==> hover_started(p, now) + SAFETY_HOVER_DELAY
        <= u64::MAX
}

/// The name that the menus act on of a pressed key.
pub open spec fn pressed_name(key: Pressed) -> KeyName {
    match key {
        Pressed::Named { name, .. } => name,
        _ => KeyName::Other,
    }
}

/// The arrow keys that move the active row can do so without overflow.
pub open spec fn navigate_in_range<Message>(
    items: Seq<Item<Message>>,
    path: Seq<usize>,
    name: KeyName,
) -> bool {
    &&& name == KeyName::ArrowDown ==> steppable(items, path, 1)
    &&& name == KeyName::ArrowUp ==> steppable(items, path, -1)
}

/// What a named key does to an open menu: Escape closes it; the down and
/// up arrows move the active row; the right arrow enters a submenu and the
/// left arrow leaves one; Enter and Space send the active action's message
/// and close the menu, or enter the active submenu. Other keys are not for
/// the menu and change nothing.
pub open spec fn key_step<'a, Message>(
    items: Seq<Item<Message>>,
    before: Navigation,
    after: Navigation,
    name: KeyName,
    outcome: KeyOutcome<'a, Message>,
) -> bool {
    match name {
        KeyName::Escape => outcome is Close && is_reset(after),
        KeyName::ArrowDown => outcome matches KeyOutcome::Navigate { reveal: true }
            && moved(items, before.active_path@, after.active_path@, 1)
            && after.pending_safety_hover is None,
        KeyName::ArrowUp => outcome matches KeyOutcome::Navigate { reveal: true }
            && moved(items, before.active_path@, after.active_path@, -1)
            && after.pending_safety_hover is None,
        KeyName::ArrowRight => outcome matches KeyOutcome::Navigate { reveal: true }
            && entered(items, before, after),
        KeyName::ArrowLeft => outcome matches KeyOutcome::Navigate { reveal: false }
            && left(before, after),
        KeyName::Enter | KeyName::Space => match path_message(items, before.active_path@) {
            Some(message) => outcome matches KeyOutcome::Activate(m) && *m == message
                && is_reset(after),
            None => outcome matches KeyOutcome::Navigate { reveal: true } && entered(
                items,
                before,
                after,
            ),
        },
        _ => outcome is Ignored && after == before,
    }
}

fn same_path(a: &[usize], b: &[usize]) -> (same: bool)
    ensures
        same == (a@ == b@),
{
    if a.len() != b.len() {
        return false;
    }
    let mut k: usize = 0;
    while k < a.len()
        invariant
            a@.len() == b@.len(),
            k <= a@.len(),
            forall|j: int| 0 <= j < k ==> a@[j] == b@[j],
        decreases a.len() - k,
    {
        if a[k] != b[k] {
            return false;
        }
        k += 1;
    }
    assert(a@ =~= b@);
    true
}

impl Default for Navigation {
    fn default() -> (navigation: Self)
        ensures
            is_reset(navigation),
    {
        Navigation { active_path: Vec::new(), pending_safety_hover: None }
    }
}

impl Navigation {
    /// No row is active and nothing is held back.
    pub fn new() -> (navigation: Self)
        ensures
            is_reset(navigation),
    {
        Navigation { active_path: Vec::new(), pending_safety_hover: None }
    }

    /// Opens the menu: the first navigable row of the top level becomes
    /// active, if there is one, and nothing is held back.
    pub fn open<Message>(&mut self, items: &[Item<Message>])
        ensures
            final(self).pending_safety_hover is None,
            some_navigable(items@) ==> final(self).active_path@.len() == 1 && is_first_navigable(
                items@,
                final(self).active_path@[0] as int,
            ),
            !some_navigable(items@) ==> final(self).active_path@.len() == 0,
    {
        self.active_path = match first_navigable_path(items) {
            Some(path) => path,
            None => Vec::new(),
        };
        self.pending_safety_hover = None;
    }

    /// Closes the menu: no row is active and nothing is held back.
    pub fn close(&mut self)
        ensures
            is_reset(*final(self)),
    {
        self.active_path = Vec::new();
        self.pending_safety_hover = None;
    }

    /// Moves the deepest active row to the next navigable row of its level.
    pub fn move_next<Message>(&mut self, items: &[Item<Message>])
        requires
            steppable(items@, old(self).active_path@, 1),
        ensures
            moved(items@, old(self).active_path@, final(self).active_path@, 1),
            final(self).pending_safety_hover is None,
    {
        move_active(items, &mut self.active_path, 1);
        self.pending_safety_hover = None;
    }

    /// Moves the deepest active row to the previous navigable row of its level.
    pub fn move_previous<Message>(&mut self, items: &[Item<Message>])
        requires
            steppable(items@, old(self).active_path@, -1),
        ensures
            moved(items@, old(self).active_path@, final(self).active_path@, -1),
            final(self).pending_safety_hover is None,
    {
        move_active(items, &mut self.active_path, -1);
        self.pending_safety_hover = None;
    }

    /// Enters the submenu of the active row at its first navigable row.
    pub fn enter_submenu<Message>(&mut self, items: &[Item<Message>])
        ensures
            entered(items@, *old(self), *final(self)),
    {
        let children = match item_at_path(items, self.active_path.as_slice()) {
            Some(item) => item.submenu_items(),
            None => None,
        };
        if let Some(children) = children {
            if let Some(index) = first_navigable_index(children) {
                let ghost before = self.active_path@;
                self.active_path.push(index);
                assert(self.active_path@.drop_last() =~= before);
                self.pending_safety_hover = None;
            }
        }
    }

    /// Leaves the deepest open submenu, if one is open.
    pub fn leave_submenu(&mut self)
        ensures
            left(*old(self), *final(self)),
    {
        if self.active_path.len() > 1 {
            let _ = self.active_path.pop();
            self.pending_safety_hover = None;
        }
    }

    /// Makes `path` the active path at once.
    pub fn set_hover_path(&mut self, path: Vec<usize>)
        ensures
            final(self).active_path == path,
            final(self).pending_safety_hover is None,
    {
        self.active_path = path;
        self.pending_safety_hover = None;
    }

    /// Holds `path` back as the hover target while the cursor travels
    /// toward an open submenu.
    pub fn track_pending_safety_hover(&mut self, path: Vec<usize>)
        ensures
            held_back(*old(self), *final(self), path@),
    {
        let same = match &self.pending_safety_hover {
            Some(pending) => same_path(pending.path.as_slice(), path.as_slice()),
            None => false,
        };
        if same {
            return;
        }
        self.pending_safety_hover = Some(PendingSafetyHover { path, started_at: None });
    }

    /// Advances the held-back hover target on a redraw at `now`: its delay
    /// starts at the first redraw; once the delay has passed, it becomes
    /// the active path.
    pub fn advance_pending_safety_hover(&mut self, now: u64) -> (advance: SafetyHoverAdvance)
        requires
            advance_in_range(*old(self), now),
        ensures
            match old(self).pending_safety_hover {
                None => advance == SafetyHoverAdvance::Idle && *final(self) == *old(self),
                Some(pending) => {
                    let until = hover_started(pending, now) + SAFETY_HOVER_DELAY;
                    if now < until {
                        &&& advance == SafetyHoverAdvance::Waiting { until: until as u64 }
                        &&& final(self).active_path == old(self).active_path
                        &&& final(self).pending_safety_hover matches Some(p) && p.path == pending.path
                            && p.started_at == Some(hover_started(pending, now))
                    } else {
                        &&& advance == SafetyHoverAdvance::Activated
                        &&& final(self).active_path == pending.path
                        &&& final(self).pending_safety_hover is None
                    }
                },
            },
    {
        let pending = self.pending_safety_hover.take();
        match pending {
            None => SafetyHoverAdvance::Idle,
            Some(pending) => {
                let started = match pending.started_at {
                    Some(started) => started,
                    None => now,
                };
                let until = started + SAFETY_HOVER_DELAY;
                if now < until {
                    self.pending_safety_hover = Some(
                        PendingSafetyHover { path: pending.path, started_at: Some(started) },
                    );
                    SafetyHoverAdvance::Waiting { until }
                } else {
                    self.active_path = pending.path;
                    SafetyHoverAdvance::Activated
                }
            },
        }
    }

    /// Follows the cursor over the open menu: `path` is the row under the
    /// cursor, if any, and `aiming` tells whether the cursor travels toward
    /// an open submenu. A new row is held back while aiming and becomes
    /// active at once otherwise; anywhere else, nothing is held back.
    /// Returns whether the menu needs a redraw.
    pub fn hover(&mut self, path: Option<Vec<usize>>, aiming: bool) -> (redraw: bool)
        ensures
            path matches Some(p) ==> (p@ != old(self).active_path@ ==> {
                &&& redraw
                &&& aiming ==> held_back(*old(self), *final(self), p@)
                &&& !aiming ==> final(self).active_path == p && final(self).pending_safety_hover is None
            }),
            path matches Some(p) ==> (p@ == old(self).active_path@ ==> !redraw
                && final(self).active_path == old(self).active_path
                && final(self).pending_safety_hover is None),
            path is None ==> !redraw && final(self).active_path == old(self).active_path
                && final(self).pending_safety_hover is None,
    {
        match path {
            Some(path) => {
                if same_path(path.as_slice(), self.active_path.as_slice()) {
                    self.pending_safety_hover = None;
                    false
                } else {
                    if aiming {
                        self.track_pending_safety_hover(path);
                    } else {
                        self.set_hover_path(path);
                    }
                    true
                }
            },
            None => {
                self.pending_safety_hover = None;
                false
            },
        }
    }

    /// A left click on the open menu at the row `path`, if any: an enabled
    /// action sends its message and closes the menu; another row becomes
    /// active; a click outside the menu closes it.
    pub fn press<'a, Message>(&mut self, items: &'a [Item<Message>], path: Option<Vec<usize>>) -> (outcome:
        PressOutcome<'a, Message>)
        ensures
            match path {
                Some(p) => match path_message(items@, p@) {
                    Some(message) => outcome matches PressOutcome::Activate(m) && *m == message
                        && is_reset(*final(self)),
                    None => outcome is Hover && final(self).active_path == p
                        && final(self).pending_safety_hover is None,
                },
                None => outcome is Close && is_reset(*final(self)),
            },
    {
        match path {
            Some(path) => match active_message(items, path.as_slice()) {
                Some(message) => {
                    self.close();
                    PressOutcome::Activate(message)
                },
                None => {
                    self.set_hover_path(path);
                    PressOutcome::Hover
                },
            },
            None => {
                self.close();
                PressOutcome::Close
            },
        }
    }

    /// A named key pressed while the menu is open: Escape closes it; the
    /// down and up arrows move the active row; the right arrow enters a
    /// submenu and the left arrow leaves one; Enter and Space send the
    /// active action's message and close the menu, or enter the active
    /// submenu. Other keys are not for the menu.
    pub fn navigate<'a, Message>(&mut self, items: &'a [Item<Message>], name: KeyName) -> (outcome:
        KeyOutcome<'a, Message>)
        requires
            navigate_in_range(items@, old(self).active_path@, name),
        ensures
            key_step(items@, *old(self), *final(self), name, outcome),
    {
        match name {
            KeyName::Escape => {
                self.close();
                KeyOutcome::Close
            },
            KeyName::ArrowDown => {
                self.move_next(items);
                KeyOutcome::Navigate { reveal: true }
            },
            KeyName::ArrowUp => {
                self.move_previous(items);
                KeyOutcome::Navigate { reveal: true }
            },
            KeyName::ArrowRight => {
                self.enter_submenu(items);
                KeyOutcome::Navigate { reveal: true }
            },
            KeyName::ArrowLeft => {
                self.leave_submenu();
                KeyOutcome::Navigate { reveal: false }
            },
            KeyName::Enter | KeyName::Space => match active_message(
                items,
                self.active_path.as_slice(),
            ) {
                Some(message) => {
                    self.close();
                    KeyOutcome::Activate(message)
                },
                None => {
                    self.enter_submenu(items);
                    KeyOutcome::Navigate { reveal: true }
                },
            },
            _ => KeyOutcome::Ignored,
        }
    }

    /// A key pressed while the menu is open: an enabled action whose
    /// shortcut the key and modifiers trigger sends its message and closes
    /// the menu; otherwise the key navigates the menu as [`Self::navigate`]
    /// says.
    pub fn key<'a, Message>(&mut self, items: &'a [Item<Message>], key: &Pressed, modifiers: Modifiers) -> (outcome:
        KeyOutcome<'a, Message>)
        requires
            shortcut_in_items(items@, *key, modifiers) is None ==> navigate_in_range(
                items@,
                old(self).active_path@,
                pressed_name(*key),
            ),
        ensures
            match shortcut_in_items(items@, *key, modifiers) {
                Some(message) => outcome matches KeyOutcome::Activate(m) && *m == message && is_reset(
                    *final(self),
                ),
                None => key_step(items@, *old(self), *final(self), pressed_name(*key), outcome),
            },
    {
        match shortcut_message(items, key, modifiers) {
            Some(message) => {
                self.close();
                KeyOutcome::Activate(message)
            },
            None => self.navigate(items, key.name()),
        }
    }
}

/// Recent cursor positions over an open menu, oldest first.
#[derive(Debug, Clone)]
pub struct PointerTrail<P> {
    positions: Vec<P>,
}

impl<P> View for PointerTrail<P> {
    type V = Seq<P>;

    closed spec fn view(&self) -> Seq<P> {
        self.positions@
    }
}

impl<P: Copy> PointerTrail<P> {
    /// An empty trail.
    pub fn new() -> (trail: Self)
        ensures
            trail@.len() == 0,
    {
        PointerTrail { positions: Vec::new() }
    }

    /// Forgets every recorded position.
    pub fn clear(&mut self)
        ensures
            final(self)@.len() == 0,
    {
        self.positions.clear();
    }

    /// Records a cursor position, dropping the oldest once the trail holds
    /// [`POINTER_TRAIL_LEN`] of them, and returns the oldest position that
    /// the trail held before, if any.
    pub fn record(&mut self, position: P) -> (oldest: Option<P>)
        ensures
            oldest == if old(self)@.len() == 0 {
                None
            } else {
                Some(old(self)@[0])
            },
            final(self)@ == if old(self)@.len() >= POINTER_TRAIL_LEN {
                old(self)@.skip(1).push(position)
            } else {
                old(self)@.push(position)
            },
            old(self)@.len() <= POINTER_TRAIL_LEN ==> final(self)@.len() <= POINTER_TRAIL_LEN,
    {
        let oldest = if self.positions.len() == 0 {
            None
        } else {
            Some(self.positions[0])
        };
        if self.positions.len() >= POINTER_TRAIL_LEN {
            let _ = self.positions.remove(0);
        }
        self.positions.push(position);
        oldest
    }
}


/// Whenever the arrow keys move the active row, it lands on a row that the
/// keyboard may land on: separators and disabled items are skipped.
pub proof fn law_move_lands_on_enabled<Message>(
    items: Seq<Item<Message>>,
    before: Seq<usize>,
    after: Seq<usize>,
    delta: int,
)
    requires
        moved(items, before, after, delta),
        after != before,
    ensures
        item_at(items, after) matches Some(item) && item_enabled(item),
{
    lemma_item_at_level(items, after);
    if before.len() == 0 {
        assert(after.drop_last() =~= Seq::<usize>::empty());
    } else {
        let rows = level_items(items, before.drop_last())->Some_0;
        lemma_next_navigable_in_range(rows, before.last() as int, delta > 0, after.last() as int);
    }
}

/// Moving up after moving down from an enabled row comes back to it.
pub proof fn law_previous_undoes_next<Message>(
    items: Seq<Item<Message>>,
    path: Seq<usize>,
    next: Seq<usize>,
    back: Seq<usize>,
)
    requires
        item_at(items, path) matches Some(item) && item_enabled(item),
        moved(items, path, next, 1),
        moved(items, next, back, -1),
    ensures
        back == path,
{
    lemma_item_at_level(items, path);
    let rows = level_items(items, path.drop_last())->Some_0;
    let current = path.last() as int;
    lemma_navigable_row_is_found(rows, current);
    let found = next.last() as int;
    assert(next.drop_last() == path.drop_last());
    law_backward_undoes_forward(rows, current, found);
    lemma_found_is_not_none(rows, found, false, current);
    lemma_next_navigable_unique(rows, found, false, current, back.last() as int);
    assert(back =~= path) by {
        assert forall|i: int| 0 <= i < back.len() implies back[i] == path[i] by {
            if i < back.len() - 1 {
                assert(back[i] == back.drop_last()[i]);
                assert(path[i] == path.drop_last()[i]);
            }
        }
    }
}

/// Entering a submenu lands on a row that the keyboard may land on.
pub proof fn law_enter_lands_on_enabled<Message>(
    items: Seq<Item<Message>>,
    before: Navigation,
    after: Navigation,
)
    requires
        entered(items, before, after),
        after != before,
    ensures
        item_at(items, after.active_path@) matches Some(item) && item_enabled(item),
{
    let children = path_children(items, before.active_path@)->Some_0;
    assert(before.active_path@.len() > 0);
    lemma_level_items_at(items, before.active_path@);
    lemma_item_at_level(items, after.active_path@);
}

/// Leaving a submenu just entered restores the active path from before.
pub proof fn law_leave_undoes_enter<Message>(
    items: Seq<Item<Message>>,
    start: Navigation,
    inside: Navigation,
    back: Navigation,
)
    requires
        entered(items, start, inside),
        inside != start,
        left(inside, back),
    ensures
        back.active_path@ == start.active_path@,
{
    assert(start.active_path@.len() > 0);
}


/// A disabled submenu cannot be entered: the active path stays as it was.
pub proof fn law_disabled_submenu_is_not_entered<Message>(
    items: Seq<Item<Message>>,
    before: Navigation,
    after: Navigation,
)
    requires
        item_at(items, before.active_path@) matches Some(Item::Submenu { enabled: false, .. }),
        entered(items, before, after),
    ensures
        after == before,
{
}

/// Disabling an action takes its message away, so it can neither be
/// activated nor triggered by its shortcut.
pub proof fn law_disabled_action_has_no_message<Message>(
    item: Item<Message>,
    key: Pressed,
    modifiers: Modifiers,
)
    requires
        item is Action,
    ensures
        item_message(disabled_item(item, true)) is None,
        !item_enabled(disabled_item(item, true)),
        shortcut_in_item(disabled_item(item, true), key, modifiers) is None,
{
}

/// What each named key does to an open menu: Down and Up move the active
/// row forward and back, Right enters a submenu and Left leaves one, Escape
/// closes the menu, and Tab, Home, End, Backspace, Delete and other keys
/// change nothing.
pub proof fn law_keys_do_what_they_name<'a, Message>(
    items: Seq<Item<Message>>,
    before: Navigation,
    after: Navigation,
    outcome: KeyOutcome<'a, Message>,
    name: KeyName,
)
    ensures
        key_step(items, before, after, KeyName::ArrowDown, outcome) ==> moved(
            items,
            before.active_path@,
            after.active_path@,
            1,
        ),
        key_step(items, before, after, KeyName::ArrowUp, outcome) ==> moved(
            items,
            before.active_path@,
            after.active_path@,
            -1,
        ),
        key_step(items, before, after, KeyName::ArrowRight, outcome) ==> entered(items, before, after),
        key_step(items, before, after, KeyName::ArrowLeft, outcome) ==> left(before, after),
        key_step(items, before, after, KeyName::Escape, outcome) ==> is_reset(after) && outcome is Close,
        (name == KeyName::Tab || name == KeyName::Home || name == KeyName::End || name
            == KeyName::Backspace || name == KeyName::Delete || name == KeyName::Other) ==> (key_step(
            items,
            before,
            after,
            name,
            outcome,
        ) ==> after == before && outcome is Ignored),
{
}

/// Moving forward from a top-level row lands on the row after it when that
/// row may be landed on, and moving back on the row before it.
pub proof fn law_moves_reach_neighbours<Message>(
    items: Seq<Item<Message>>,
    row: usize,
    after: Seq<usize>,
    forward: bool,
)
    requires
        row < items.len(),
        forward ==> row + 1 < items.len() && item_enabled(items[row + 1]),
        !forward ==> row >= 1 && item_enabled(items[row - 1]),
        moved(items, seq![row], after, if forward { 1 } else { -1 }),
    ensures
        after == seq![(if forward { row + 1 } else { row - 1 }) as usize],
{
    let path = seq![row];
    assert(path.drop_last() =~= Seq::<usize>::empty());
    assert(level_items(items, path.drop_last()) == Some(items));
    let n = items.len() as int;
    let target = if forward { row + 1 } else { row - 1 };
    vstd::arithmetic::div_mod::lemma_small_mod(target as nat, n as nat);
    assert(crate::widget::navigation::cyclic_index(n, row as int, forward, 1) == target);
    assert(is_next_navigable(items, row as int, forward, target));
    lemma_found_is_not_none(items, row as int, forward, target);
    lemma_next_navigable_unique(items, row as int, forward, target, after.last() as int);
    assert(after =~= seq![target as usize]);
}
} // verus!
