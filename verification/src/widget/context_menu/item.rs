//! Context menu items: actions, nested submenus and separators.
use vstd::prelude::*;
use super::shortcut::{Shortcut, shortcut_matches};
use crate::widget::keyboard::{Modifiers, Pressed};
use crate::widget::navigation::{
    Navigable, first_navigable_index, is_first_navigable, is_next_navigable, last_navigable_index,
    is_last_navigable, next_navigable_index, none_navigable_from, some_navigable,
};

verus! {

/// A context menu item.
#[derive(Debug)]
pub enum Item<Message> {
    /// A clickable action item.
    Action { title: String, on_press: Option<Message>, shortcut: Option<Shortcut> },
    /// A nested submenu item.
    Submenu { title: String, items: Vec<Item<Message>>, enabled: bool },
    /// A visual separator between item groups.
    Separator,
}

/// Whether the keyboard and pointer may land on an item: an action with a
/// message, or an enabled submenu holding such an item.
pub open spec fn item_enabled<Message>(item: Item<Message>) -> bool
    decreases item,
{
    match item {
        Item::Action { on_press, .. } => on_press is Some,
        Item::Submenu { items, enabled, .. } => enabled && any_enabled(items@),
        Item::Separator => false,
    }
}

/// Whether some item of a list is enabled.
pub open spec fn any_enabled<Message>(items: Seq<Item<Message>>) -> bool
    decreases items,
{
    if items.len() == 0 {
        false
    } else {
        item_enabled(items[0]) || any_enabled(items.subrange(1, items.len() as int))
    }
}

/// The items of an enabled submenu; nothing for any other item.
pub open spec fn submenu_children<Message>(item: Item<Message>) -> Option<Seq<Item<Message>>> {
    match item {
        Item::Submenu { items, enabled, .. } => if enabled {
            Some(items@)
        } else {
            None
        },
        _ => None,
    }
}

/// The message an action sends; nothing for a disabled action or any other item.
pub open spec fn item_message<Message>(item: Item<Message>) -> Option<Message> {
    match item {
        Item::Action { on_press, .. } => on_press,
        _ => None,
    }
}

/// The item reached by following `path` through enabled submenus.
pub open spec fn item_at<Message>(items: Seq<Item<Message>>, path: Seq<usize>) -> Option<Item<Message>>
    decreases path.len(),
{
    if path.len() == 0 || path[0] >= items.len() {
        None
    } else if path.len() == 1 {
        Some(items[path[0] as int])
    } else {
        match submenu_children(items[path[0] as int]) {
            Some(children) => item_at(children, path.subrange(1, path.len() as int)),
            None => None,
        }
    }
}

/// The items of the menu level reached by following `parents` through
/// enabled submenus.
pub open spec fn level_items<Message>(items: Seq<Item<Message>>, parents: Seq<usize>) -> Option<Seq<Item<Message>>>
    decreases parents.len(),
{
    if parents.len() == 0 {
        Some(items)
    } else if parents[0] >= items.len() {
        None
    } else {
        match submenu_children(items[parents[0] as int]) {
            Some(children) => level_items(children, parents.subrange(1, parents.len() as int)),
            None => None,
        }
    }
}

/// A list holds an enabled item exactly when some item in it is enabled.
pub proof fn lemma_any_enabled<Message>(items: Seq<Item<Message>>)
    ensures
        any_enabled(items) <==> exists|j: int| 0 <= j < items.len() && item_enabled(#[trigger] items[j]),
    decreases items.len(),
{
    if items.len() > 0 {
        let rest = items.subrange(1, items.len() as int);
        lemma_any_enabled(rest);
        if any_enabled(rest) {
            let j = choose|j: int| 0 <= j < rest.len() && item_enabled(#[trigger] rest[j]);
            assert(items[j + 1] == rest[j]);
        }
        if exists|j: int| 0 <= j < items.len() && item_enabled(#[trigger] items[j]) {
            let j = choose|j: int| 0 <= j < items.len() && item_enabled(#[trigger] items[j]);
            if j > 0 {
                assert(rest[j - 1] == items[j]);
            }
        }
    }
}

impl<Message> Navigable for Item<Message> {
    open spec fn navigable(&self) -> bool {
        item_enabled(*self)
    }

    fn is_navigable(&self) -> (navigable: bool) {
        self.is_enabled()
    }
}

/// Whether some item of a list may be landed on.
pub fn has_navigable_item<Message>(items: &[Item<Message>]) -> (found: bool)
    ensures
        found == any_enabled(items@),
    decreases items@,
{
    proof {
        lemma_any_enabled(items@);
    }
    let mut k: usize = 0;
    while k < items.len()
        invariant
            k <= items@.len(),
            forall|j: int| 0 <= j < k ==> !item_enabled(#[trigger] items@[j]),
        decreases items.len() - k,
    {
        if items[k].is_enabled() {
            proof {
                lemma_any_enabled(items@);
                assert(item_enabled(items@[k as int]));
            }
            return true;
        }
        k += 1;
    }
    false
}

/// An item disabled (when `disabled` holds) or enabled: an action loses its
/// message when disabled; a submenu is enabled exactly when not disabled;
/// a separator stays as it is.
pub open spec fn disabled_item<Message>(item: Item<Message>, disabled: bool) -> Item<Message> {
    match item {
        Item::Action { title, on_press, shortcut } => Item::Action {
            title,
            on_press: if disabled {
                None
            } else {
                on_press
            },
            shortcut,
        },
        Item::Submenu { title, items, .. } => Item::Submenu { title, items, enabled: !disabled },
        Item::Separator => Item::Separator,
    }
}

impl<Message> Item<Message> {
    /// Adds a keyboard shortcut to an action item; other items are unchanged.
    #[must_use]
    pub fn shortcut(self, shortcut: Shortcut) -> (item: Self)
        ensures
            item == match self {
                Item::Action { title, on_press, .. } => Item::Action {
                    title,
                    on_press,
                    shortcut: Some(shortcut),
                },
                other => other,
            },
    {
        match self {
            Item::Action { title, on_press, .. } => Item::Action {
                title,
                on_press,
                shortcut: Some(shortcut),
            },
            other => other,
        }
    }

    /// Disables an action (dropping its message) when `disabled` holds, and
    /// sets whether a submenu is enabled; separators are unchanged.
    #[must_use]
    pub fn disabled(self, disabled: bool) -> (item: Self)
        ensures
            item == disabled_item(self, disabled),
    {
        match self {
            Item::Action { title, on_press, shortcut } => Item::Action {
                title,
                on_press: if disabled {
                    None
                } else {
                    on_press
                },
                shortcut,
            },
            Item::Submenu { title, items, .. } => Item::Submenu { title, items, enabled: !disabled },
            Item::Separator => Item::Separator,
        }
    }

    /// Returns the title of an action or a submenu.
    pub fn title(&self) -> (title: Option<&str>)
        ensures
            match *self {
                Item::Action { title: t, .. } => title matches Some(s) && s@ == t@,
                Item::Submenu { title: t, .. } => title matches Some(s) && s@ == t@,
                Item::Separator => title is None,
            },
    {
        match self {
            Item::Action { title, .. } => Some(title.as_str()),
            Item::Submenu { title, .. } => Some(title.as_str()),
            Item::Separator => None,
        }
    }

    /// Whether the keyboard and pointer may land on this item.
    pub fn is_enabled(&self) -> (enabled: bool)
        ensures
            enabled == item_enabled(*self),
        decreases *self,
    {
        match self {
            Item::Action { on_press, .. } => on_press.is_some(),
            Item::Submenu { enabled, items, .. } => *enabled && has_navigable_item(items.as_slice()),
            Item::Separator => false,
        }
    }

    /// Returns the items of an enabled submenu.
    pub fn submenu_items(&self) -> (children: Option<&[Item<Message>]>)
        ensures
            match children {
                Some(children) => submenu_children(*self) == Some(children@),
                None => submenu_children(*self) is None,
            },
    {
        match self {
            Item::Submenu { items, enabled, .. } => if *enabled {
                Some(items.as_slice())
            } else {
                None
            },
            _ => None,
        }
    }

    /// Returns the message of an enabled action.
    pub fn message(&self) -> (message: Option<&Message>)
        ensures
            match message {
                Some(m) => item_message(*self) == Some(*m),
                None => item_message(*self) is None,
            },
    {
        match self {
            Item::Action { on_press, .. } => match on_press {
                Some(m) => Some(m),
                None => None,
            },
            _ => None,
        }
    }

    /// Returns the shortcut of an action.
    pub fn shortcut_value(&self) -> (shortcut: Option<Shortcut>)
        ensures
            shortcut == match *self {
                Item::Action { shortcut, .. } => shortcut,
                _ => None,
            },
    {
        match self {
            Item::Action { shortcut, .. } => *shortcut,
            _ => None,
        }
    }
}


/// Returns the path to the first item of the top level on which the
/// keyboard may land.
pub fn first_navigable_path<Message>(items: &[Item<Message>]) -> (path: Option<Vec<usize>>)
    ensures
        match path {
            Some(p) => p@.len() == 1 && is_first_navigable(items@, p@[0] as int),
            None => !some_navigable(items@),
        },
{
    match first_navigable_index(items) {
        Some(index) => {
            let mut path = Vec::new();
            path.push(index);
            Some(path)
        },
        None => None,
    }
}

fn item_at_from<'a, Message>(items: &'a [Item<Message>], path: &[usize], depth: usize) -> (found:
    Option<&'a Item<Message>>)
    requires
        depth <= path@.len(),
    ensures
        match found {
            Some(item) => item_at(items@, path@.skip(depth as int)) == Some(*item),
            None => item_at(items@, path@.skip(depth as int)) is None,
        },
    decreases path@.len() - depth,
{
    let ghost rest = path@.skip(depth as int);
    if depth == path.len() || path[depth] >= items.len() {
        return None;
    }
    let item = &items[path[depth]];
    if depth + 1 == path.len() {
        return Some(item);
    }
    assert(rest.subrange(1, rest.len() as int) =~= path@.skip(depth + 1));
    match item.submenu_items() {
        Some(children) => item_at_from(children, path, depth + 1),
        None => None,
    }
}

/// Returns the item reached by following `path` through enabled submenus.
pub fn item_at_path<'a, Message>(items: &'a [Item<Message>], path: &[usize]) -> (found: Option<
    &'a Item<Message>,
>)
    ensures
        match found {
            Some(item) => item_at(items@, path@) == Some(*item),
            None => item_at(items@, path@) is None,
        },
{
    assert(path@.skip(0) =~= path@);
    item_at_from(items, path, 0)
}

/// Returns the message of the enabled action reached by following `path`.
pub fn active_message<'a, Message>(items: &'a [Item<Message>], path: &[usize]) -> (message: Option<
    &'a Message,
>)
    ensures
        match message {
            Some(m) => item_at(items@, path@) matches Some(item) && item_message(item) == Some(*m),
            None => !(item_at(items@, path@) matches Some(item) && item_message(item) is Some),
        },
{
    match item_at_path(items, path) {
        Some(item) => item.message(),
        None => None,
    }
}

fn level_from<'a, Message>(items: &'a [Item<Message>], path: &[usize], depth: usize, end: usize) -> (level:
    Option<&'a [Item<Message>]>)
    requires
        depth <= end <= path@.len(),
    ensures
        match level {
            Some(level) => level_items(items@, path@.subrange(depth as int, end as int)) == Some(level@),
            None => level_items(items@, path@.subrange(depth as int, end as int)) is None,
        },
    decreases end - depth,
{
    let ghost parents = path@.subrange(depth as int, end as int);
    if depth == end {
        return Some(items);
    }
    if path[depth] >= items.len() {
        return None;
    }
    assert(parents.subrange(1, parents.len() as int) =~= path@.subrange(depth + 1, end as int));
    match items[path[depth]].submenu_items() {
        Some(children) => level_from(children, path, depth + 1, end),
        None => None,
    }
}

/// Returns the items and the active index of the deepest level of
/// `active_path`.
pub fn active_level<'a, Message>(items: &'a [Item<Message>], active_path: &[usize]) -> (level: Option<
    (&'a [Item<Message>], usize),
>)
    ensures
        match level {
            Some((rows, index)) => active_path@.len() > 0 && index == active_path@.last()
                && level_items(items@, active_path@.drop_last()) == Some(rows@),
            None => active_path@.len() == 0 || level_items(items@, active_path@.drop_last()) is None,
        },
{
    let len = active_path.len();
    if len == 0 {
        return None;
    }
    assert(active_path@.subrange(0, len - 1) =~= active_path@.drop_last());
    match level_from(items, active_path, 0, len - 1) {
        Some(rows) => Some((rows, active_path[len - 1])),
        None => None,
    }
}

/// Whether moving the deepest active index by `delta` stays clear of the
/// arithmetic limits: forward from the largest index, or backward from past
/// the end of its level, the walk would leave the level.
pub open spec fn steppable<Message>(items: Seq<Item<Message>>, path: Seq<usize>, delta: int) -> bool {
    path.len() > 0 ==> match level_items(items, path.drop_last()) {
        Some(rows) => rows.len() > 0 ==> if delta > 0 {
            path.last() < usize::MAX
        } else {
            path.last() <= rows.len()
        },
        None => true,
    }
}

/// What moving the deepest active index by `delta` does to `before`: with
/// no active item, the first (for `delta >= 0`) or last navigable item of the
/// top level becomes active; otherwise the last index moves to the next
/// navigable row of its level in the direction of `delta` (forward when it is
/// positive), wrapping around. Nothing changes when no such row exists.
pub open spec fn moved<Message>(
    items: Seq<Item<Message>>,
    before: Seq<usize>,
    after: Seq<usize>,
    delta: int,
) -> bool {
    if before.len() == 0 {
        if delta >= 0 {
            if some_navigable(items) {
                after.len() == 1 && is_first_navigable(items, after[0] as int)
            } else {
                after == before
            }
        } else {
            if some_navigable(items) {
                after.len() == 1 && is_last_navigable(items, after[0] as int)
            } else {
                after == before
            }
        }
    } else {
        match level_items(items, before.drop_last()) {
            Some(rows) => if none_navigable_from(rows, before.last() as int, delta > 0) {
                after == before
            } else {
                &&& after.len() == before.len()
                &&& after.drop_last() == before.drop_last()
                &&& is_next_navigable(rows, before.last() as int, delta > 0, after.last() as int)
            },
            None => after == before,
        }
    }
}

/// Returns whether [`move_active`] may be called with these arguments.
pub fn can_move<Message>(items: &[Item<Message>], active_path: &[usize], delta: isize) -> (can: bool)
    ensures
        can == steppable(items@, active_path@, delta as int),
{
    match active_level(items, active_path) {
        Some((rows, index)) => rows.len() == 0 || if delta > 0 {
            index < usize::MAX
        } else {
            index <= rows.len()
        },
        None => true,
    }
}

/// Moves the deepest active index by `delta`, skipping disabled items.
pub fn move_active<Message>(items: &[Item<Message>], active_path: &mut Vec<usize>, delta: isize)
    requires
        steppable(items@, old(active_path)@, delta as int),
    ensures
        moved(items@, old(active_path)@, final(active_path)@, delta as int),
{
    if active_path.len() == 0 {
        let next_index = if delta >= 0 {
            first_navigable_index(items)
        } else {
            last_navigable_index(items)
        };
        if let Some(next_index) = next_index {
            active_path.push(next_index);
        }
        return;
    }
    let (rows, current_index) = match active_level(items, active_path.as_slice()) {
        Some(level) => level,
        None => return,
    };
    let next_index = match next_navigable_index(rows, current_index, delta) {
        Some(next_index) => next_index,
        None => return,
    };
    let last = active_path.len() - 1;
    let ghost before = active_path@;
    active_path.set(last, next_index);
    assert(active_path@.drop_last() =~= before.drop_last());
}

/// The message of the first enabled action, depth first through enabled
/// submenus, whose shortcut the pressed key and modifiers trigger.
pub open spec fn shortcut_in_items<Message>(
    items: Seq<Item<Message>>,
    key: Pressed,
    modifiers: Modifiers,
) -> Option<Message>
    decreases items,
{
    if items.len() == 0 {
        None
    } else {
        match shortcut_in_item(items[0], key, modifiers) {
            Some(message) => Some(message),
            None => shortcut_in_items(items.subrange(1, items.len() as int), key, modifiers),
        }
    }
}

/// The message of the enabled action, the item itself or one inside it when
/// it is an enabled submenu, whose shortcut the pressed key and modifiers
/// trigger.
pub open spec fn shortcut_in_item<Message>(item: Item<Message>, key: Pressed, modifiers: Modifiers) -> Option<
    Message,
>
    decreases item,
{
    match item {
        Item::Action { on_press, shortcut, .. } => match (on_press, shortcut) {
            (Some(message), Some(shortcut)) => if shortcut_matches(shortcut, key, modifiers) {
                Some(message)
            } else {
                None
            },
            _ => None,
        },
        Item::Submenu { items, enabled, .. } => if enabled {
            shortcut_in_items(items@, key, modifiers)
        } else {
            None
        },
        Item::Separator => None,
    }
}

fn item_shortcut_message<'a, Message>(item: &'a Item<Message>, key: &Pressed, modifiers: Modifiers) -> (message:
    Option<&'a Message>)
    ensures
        match message {
            Some(m) => shortcut_in_item(*item, *key, modifiers) == Some(*m),
            None => shortcut_in_item(*item, *key, modifiers) is None,
        },
    decreases *item,
{
    match item {
        Item::Action { on_press, shortcut, .. } => match (on_press, shortcut) {
            (Some(message), Some(shortcut)) => if shortcut.matches(key, modifiers) {
                Some(message)
            } else {
                None
            },
            _ => None,
        },
        Item::Submenu { items, enabled, .. } => if *enabled {
            shortcut_message(items.as_slice(), key, modifiers)
        } else {
            None
        },
        Item::Separator => None,
    }
}

/// Searches the items, depth first through enabled submenus, for an enabled
/// action whose shortcut the pressed key and modifiers trigger.
pub fn shortcut_message<'a, Message>(items: &'a [Item<Message>], key: &Pressed, modifiers: Modifiers) -> (message:
    Option<&'a Message>)
    ensures
        match message {
            Some(m) => shortcut_in_items(items@, *key, modifiers) == Some(*m),
            None => shortcut_in_items(items@, *key, modifiers) is None,
        },
    decreases items@,
{
    let mut k: usize = 0;
    assert(items@.subrange(0, items@.len() as int) =~= items@);
    while k < items.len()
        invariant
            k <= items@.len(),
            shortcut_in_items(items@, *key, modifiers) == shortcut_in_items(
                items@.subrange(k as int, items@.len() as int),
                *key,
                modifiers,
            ),
        decreases items.len() - k,
    {
        let ghost rest = items@.subrange(k as int, items@.len() as int);
        assert(rest[0] == items@[k as int]);
        assert(rest.subrange(1, rest.len() as int) =~= items@.subrange(k + 1, items@.len() as int));
        if let Some(message) = item_shortcut_message(&items[k], key, modifiers) {
            return Some(message);
        }
        k += 1;
    }
    assert(items@.subrange(k as int, items@.len() as int).len() == 0);
    None
}


/// The item at a path is the row of the level that its parents lead to.
pub proof fn lemma_item_at_level<Message>(items: Seq<Item<Message>>, path: Seq<usize>)
    requires
        path.len() > 0,
    ensures
        item_at(items, path) == match level_items(items, path.drop_last()) {
            Some(rows) => if path.last() < rows.len() {
                Some(rows[path.last() as int])
            } else {
                None
            },
            None => None,
        },
    decreases path.len(),
{
    if path.len() == 1 {
        assert(path.drop_last() =~= Seq::<usize>::empty());
    } else if path[0] < items.len() {
        let rest = path.subrange(1, path.len() as int);
        assert(path.drop_last().subrange(1, path.drop_last().len() as int) =~= rest.drop_last());
        match submenu_children(items[path[0] as int]) {
            Some(children) => {
                lemma_item_at_level(children, rest);
            },
            None => {},
        }
    }
}

/// The level that a path leads to holds the rows of the enabled submenu at
/// that path.
pub proof fn lemma_level_items_at<Message>(items: Seq<Item<Message>>, path: Seq<usize>)
    requires
        path.len() > 0,
    ensures
        level_items(items, path) == match item_at(items, path) {
            Some(item) => submenu_children(item),
            None => None,
        },
    decreases path.len(),
{
    if path[0] < items.len() {
        let rest = path.subrange(1, path.len() as int);
        if path.len() == 1 {
            assert(rest =~= Seq::<usize>::empty());
            match submenu_children(items[path[0] as int]) {
                Some(children) => {
                    assert(level_items(children, rest) == Some(children));
                },
                None => {},
            }
        } else {
            match submenu_children(items[path[0] as int]) {
                Some(children) => {
                    lemma_level_items_at(children, rest);
                },
                None => {},
            }
        }
    }
}


/// The item is an action with a message whose shortcut the pressed key and
/// modifiers trigger, and the message is `message`.
pub open spec fn fires<Message>(
    item: Item<Message>,
    key: Pressed,
    modifiers: Modifiers,
    message: Message,
) -> bool {
    item matches Item::Action { on_press: Some(m), shortcut: Some(s), .. } && m == message
        && shortcut_matches(s, key, modifiers)
}

/// A shortcut only ever sends the message of an enabled action that the
/// menu reaches through enabled submenus, and whose shortcut the pressed
/// key and modifiers trigger.
pub proof fn law_shortcut_fires_a_reachable_action<Message>(
    items: Seq<Item<Message>>,
    key: Pressed,
    modifiers: Modifiers,
)
    requires
        items.len() <= usize::MAX,
        shortcut_in_items(items, key, modifiers) is Some,
    ensures
        exists|path: Seq<usize>|
            #[trigger] item_at(items, path) matches Some(item) && fires(
                item,
                key,
                modifiers,
                shortcut_in_items(items, key, modifiers)->Some_0,
            ),
    decreases items,
{
    let message = shortcut_in_items(items, key, modifiers)->Some_0;
    let first = items[0];
    let rest = items.subrange(1, items.len() as int);
    match shortcut_in_item(first, key, modifiers) {
        Some(found) => {
            assert(found == message);
            match first {
                Item::Action { .. } => {
                    let path = seq![0usize];
                    assert(item_at(items, path) == Some(first));
                },
                Item::Submenu { items: children, .. } => {
                    assert(children@.len() == children.len());
                    assert(decreases_to!(items => first));
                    law_shortcut_fires_a_reachable_action(children@, key, modifiers);
                    let inner = choose|inner: Seq<usize>|
                        #[trigger] item_at(children@, inner) matches Some(item) && fires(
                            item,
                            key,
                            modifiers,
                            message,
                        );
                    let path = seq![0usize] + inner;
                    assert(path.subrange(1, path.len() as int) =~= inner);
                    assert(item_at(items, path) == item_at(children@, inner));
                },
                Item::Separator => {},
            }
        },
        None => {
            law_shortcut_fires_a_reachable_action(rest, key, modifiers);
            let inner = choose|inner: Seq<usize>|
                #[trigger] item_at(rest, inner) matches Some(item) && fires(
                    item,
                    key,
                    modifiers,
                    message,
                );
            let path = inner.update(0, (inner[0] + 1) as usize);
            assert(items[path[0] as int] == rest[inner[0] as int]);
            assert(path.subrange(1, path.len() as int) =~= inner.subrange(1, inner.len() as int));
            assert(item_at(items, path) == item_at(rest, inner));
        },
    }
}

} // verus!
