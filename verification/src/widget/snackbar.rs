//! Transient in-app notices, held in app state and shown in one corner.
//!
//! Snackbars are owned by external app state and rendered relative to the
//! wrapped content bounds in one of the four corners.
use vstd::prelude::*;
use iced_core::time::Instant;
use crate::time::now;
use crate::token::Intent;

verus! {

/// A stable identifier for a snackbar entry.
#[derive(Debug, Clone, Copy, PartialEq, Eq, Hash, Structural)]
pub struct Id(u64);

impl View for Id {
    type V = u64;

    closed spec fn view(&self) -> u64 {
        self.0
    }
}

/// Two identifiers are equal exactly when their numbers are.
pub broadcast proof fn lemma_id_view_injective(a: Id, b: Id)
    ensures
        #[trigger] a@ == #[trigger] b@ <==> a == b,
{
}

/// Messages emitted by the snackbar widget itself.
#[derive(Debug, Clone, Copy, PartialEq, Eq, Structural)]
pub enum Message {
    /// Requests dismissal of the snackbar with the given ID.
    Dismiss(Id),
    /// Requests activation of the snackbar action and dismissal of the snackbar.
    Action(Id),
}

/// The visual variant of a snackbar.
#[derive(Debug, Clone, Copy, Default, PartialEq, Eq, Structural)]
#[non_exhaustive]
pub enum Variant {
    /// An accent indicator for prominent application feedback.
    #[default]
    Primary,
    /// A neutral indicator for low-emphasis feedback.
    Secondary,
    /// An indicator carrying explicit semantic intent.
    Semantic(Intent),
}

/// The corner in which snackbars should appear.
#[derive(Debug, Clone, Copy, Default, PartialEq, Eq, Structural)]
pub enum Position {
    TopLeft,
    TopRight,
    BottomLeft,
    #[default]
    BottomRight,
}

/// Whether a corner lies along the top edge.
pub open spec fn position_is_top(position: Position) -> bool {
    position == Position::TopLeft || position == Position::TopRight
}

/// Whether a corner lies along the left edge.
pub open spec fn position_is_left(position: Position) -> bool {
    position == Position::TopLeft || position == Position::BottomLeft
}

/// The name under which a corner is displayed.
pub open spec fn position_name(position: Position) -> Seq<char> {
    match position {
        Position::TopLeft => "Top Left"@,
        Position::TopRight => "Top Right"@,
        Position::BottomLeft => "Bottom Left"@,
        Position::BottomRight => "Bottom Right"@,
    }
}

impl Position {
    /// Every corner, in reading order.
    pub const ALL: [Position; 4] = [
        Position::TopLeft,
        Position::TopRight,
        Position::BottomLeft,
        Position::BottomRight,
    ];

    /// Whether this corner lies along the top edge.
    pub fn is_top(self) -> (top: bool)
        ensures
            top == position_is_top(self),
    {
        matches!(self, Position::TopLeft | Position::TopRight)
    }

    /// Whether this corner lies along the left edge.
    pub fn is_left(self) -> (left: bool)
        ensures
            left == position_is_left(self),
    {
        matches!(self, Position::TopLeft | Position::BottomLeft)
    }

    /// Returns the name under which this corner is displayed.
    pub fn name(&self) -> (name: &'static str)
        ensures
            name@ == position_name(*self),
    {
        match self {
            Position::TopLeft => "Top Left",
            Position::TopRight => "Top Right",
            Position::BottomLeft => "Bottom Left",
            Position::BottomRight => "Bottom Right",
        }
    }
}

/// An optional action shown in a snackbar.
#[derive(Debug)]
pub struct Action<Message> {
    label: String,
    message: Message,
}

/// What an [`Action`] holds: its label and the message it sends.
pub struct ActionModel<Message> {
    pub label: Seq<char>,
    pub message: Message,
}

impl<Message> View for Action<Message> {
    type V = ActionModel<Message>;

    closed spec fn view(&self) -> ActionModel<Message> {
        ActionModel { label: self.label@, message: self.message }
    }
}

impl<Message> Action<Message> {
    /// Creates an action with the given label and message.
    pub fn new(label: &str, message: Message) -> (action: Self)
        ensures
            action@.label == label@,
            action@.message == message,
    {
        Action { label: String::from_str(label), message }
    }

    /// Returns the label of the action.
    pub fn label(&self) -> (label: &str)
        ensures
            label@ == self@.label,
    {
        self.label.as_str()
    }

    /// Returns the message the action sends.
    pub fn message(&self) -> (message: &Message)
        ensures
            *message == self@.message,
    {
        &self.message
    }
}

/// A single snackbar entry stored in [`State`].
#[derive(Debug)]
pub struct Entry<Message> {
    id: Id,
    title: String,
    description: Option<String>,
    variant: Variant,
    action: Option<Action<Message>>,
    created_at: Instant,
}

/// What an [`Entry`] holds, apart from the time at which it was created.
pub struct EntryModel<Message> {
    pub id: Id,
    pub title: Seq<char>,
    pub description: Option<Seq<char>>,
    pub variant: Variant,
    pub action: Option<ActionModel<Message>>,
}

/// The view of an optional string.
pub open spec fn text_view(text: Option<String>) -> Option<Seq<char>> {
    match text {
        Some(text) => Some(text@),
        None => None,
    }
}

/// The view of an optional action.
pub open spec fn action_view<Message>(action: Option<Action<Message>>) -> Option<ActionModel<Message>> {
    match action {
        Some(action) => Some(action@),
        None => None,
    }
}

impl<Message> View for Entry<Message> {
    type V = EntryModel<Message>;

    closed spec fn view(&self) -> EntryModel<Message> {
        EntryModel {
            id: self.id,
            title: self.title@,
            description: text_view(self.description),
            variant: self.variant,
            action: action_view(self.action),
        }
    }
}

impl<Message> Entry<Message> {
    /// Creates an entry with a title, the success variant, no description
    /// and no action.
    pub fn new(title: &str) -> (entry: Self)
        ensures
            entry@ == (EntryModel::<Message> {
                id: entry@.id,
                title: title@,
                description: None,
                variant: Variant::Semantic(Intent::Success),
                action: None,
            }),
            entry@.id@ == 0,
    {
        Entry {
            id: Id(0),
            title: String::from_str(title),
            description: None,
            variant: Variant::Semantic(Intent::Success),
            action: None,
            created_at: now(),
        }
    }

    /// Sets the description shown below the title.
    #[must_use]
    pub fn description(self, description: &str) -> (entry: Self)
        ensures
            entry@ == (EntryModel { description: Some(description@), ..self@ }),
    {
        Entry { description: Some(String::from_str(description)), ..self }
    }

    /// Sets the visual variant.
    #[must_use]
    pub fn variant(self, variant: Variant) -> (entry: Self)
        ensures
            entry@ == (EntryModel { variant, ..self@ }),
    {
        Entry { variant, ..self }
    }

    /// Adds an action with the given label and message.
    #[must_use]
    pub fn action(self, label: &str, message: Message) -> (entry: Self)
        ensures
            entry@ == (EntryModel {
                action: Some(ActionModel { label: label@, message }),
                ..self@
            }),
    {
        let action = Action::new(label, message);
        Entry { action: Some(action), ..self }
    }

    /// Returns the identifier of the entry.
    pub fn id(&self) -> (id: Id)
        ensures
            id == self@.id,
    {
        self.id
    }

    /// Returns the title of the entry.
    pub fn title(&self) -> (title: &str)
        ensures
            title@ == self@.title,
    {
        self.title.as_str()
    }

    /// Returns the description of the entry, if any.
    pub fn description_text(&self) -> (description: Option<&String>)
        ensures
            match description {
                Some(text) => self@.description == Some(text@),
                None => self@.description is None,
            },
    {
        match &self.description {
            Some(text) => Some(text),
            None => None,
        }
    }

    /// Returns the visual variant of the entry.
    pub fn variant_of(&self) -> (variant: Variant)
        ensures
            variant == self@.variant,
    {
        self.variant
    }

    /// Returns the action of the entry, if any.
    pub fn action_of(&self) -> (action: Option<&Action<Message>>)
        ensures
            match action {
                Some(action) => self@.action == Some(action@),
                None => self@.action is None,
            },
    {
        match &self.action {
            Some(action) => Some(action),
            None => None,
        }
    }

    /// Returns the messages that the entry's card sends: dismissing it, and
    /// activating its action when it has one.
    pub fn card_messages(&self) -> (messages: (self::Message, Option<self::Message>))
        ensures
            messages.0 == self::Message::Dismiss(self@.id),
            messages.1 == if self@.action is Some {
                Some(self::Message::Action(self@.id))
            } else {
                None
            },
    {
        let action = match &self.action {
            Some(_) => Some(self::Message::Action(self.id)),
            None => None,
        };
        (self::Message::Dismiss(self.id), action)
    }

    /// The time at which the entry was created or pushed.
    pub closed spec fn created(&self) -> Instant {
        self.created_at
    }

    /// Returns the time at which the entry was created or pushed.
    pub fn created_at(&self) -> (instant: Instant)
        ensures
            instant == self.created(),
    {
        self.created_at
    }
}

/// External snackbar state owned by the app.
pub struct State<Message> {
    entries: Vec<Entry<Message>>,
    position: Position,
    next_id: u64,
    animating_id: Option<Id>,
    issued: Ghost<Set<u64>>,
}

/// What a [`State`] holds: its entries in the order they were pushed, the
/// corner it is shown in, the number the next entry will get, and the entry
/// whose arrival is animated, and the numbers of every identifier that
/// [`State::push`] has returned.
pub struct StateModel<Message> {
    pub entries: Seq<EntryModel<Message>>,
    pub position: Position,
    pub next_id: u64,
    pub animating_id: Option<Id>,
    pub issued: Set<u64>,
}

/// The views of a sequence of entries.
pub open spec fn entry_views<Message>(entries: Seq<Entry<Message>>) -> Seq<EntryModel<Message>> {
    entries.map_values(|entry: Entry<Message>| entry@)
}

impl<Message> View for State<Message> {
    type V = StateModel<Message>;

    closed spec fn view(&self) -> StateModel<Message> {
        StateModel {
            entries: entry_views(self.entries@),
            position: self.position,
            next_id: self.next_id,
            animating_id: self.animating_id,
            issued: self.issued@,
        }
    }
}

/// Every identifier returned so far lies below the number the next entry
/// will get.
pub open spec fn issued_below<Message>(model: StateModel<Message>) -> bool {
    forall|n: u64| #[trigger] model.issued.contains(n) ==> n < model.next_id
}

/// Entry numbers rise strictly in the order the entries were pushed, and all
/// lie below the number the next entry will get.
pub open spec fn ids_ordered<Message>(entries: Seq<EntryModel<Message>>, next_id: u64) -> bool {
    &&& forall|i: int, j: int|
        0 <= i < j < entries.len() ==> (#[trigger] entries[i]).id@ < (#[trigger] entries[j]).id@
    &&& forall|i: int| 0 <= i < entries.len() ==> (#[trigger] entries[i]).id@ < next_id
}

/// The position of the entry with the given identifier: the first such
/// position, or `-1` when there is none.
pub open spec fn index_of<Message>(entries: Seq<EntryModel<Message>>, id: Id) -> int {
    if exists|i: int| 0 <= i < entries.len() && (#[trigger] entries[i]).id == id {
        choose|i: int|
            0 <= i < entries.len() && (#[trigger] entries[i]).id == id && forall|j: int|
                0 <= j < i ==> (#[trigger] entries[j]).id != id
    } else {
        -1
    }
}

/// The message that the action of an entry sends, if it has one.
pub open spec fn action_message<Message>(entry: EntryModel<Message>) -> Option<Message> {
    match entry.action {
        Some(action) => Some(action.message),
        None => None,
    }
}

impl<Message> State<Message> {
    #[verifier::type_invariant]
    closed spec fn well_formed(self) -> bool {
        &&& ids_ordered(entry_views(self.entries@), self.next_id)
        &&& issued_below(self@)
    }
}

proof fn lemma_index_of<Message>(entries: Seq<EntryModel<Message>>, id: Id, k: int)
    requires
        0 <= k < entries.len(),
        entries[k].id == id,
        forall|j: int| 0 <= j < k ==> (#[trigger] entries[j]).id != id,
    ensures
        index_of(entries, id) == k,
{
    let i = index_of(entries, id);
    if i != k {
        assert(entries[i].id == id);
        if i < k {
            assert(entries[i].id != id);
        } else {
            assert(entries[k].id != id);
        }
    }
}


impl<Message: Clone> Clone for Action<Message> {
    fn clone(&self) -> (copy: Self)
        ensures
            copy@.label == self@.label,
            cloned(self@.message, copy@.message),
    {
        Action { label: self.label.clone(), message: self.message.clone() }
    }
}

impl<Message: Clone> Clone for Entry<Message> {
    fn clone(&self) -> (copy: Self)
        ensures
            copy@.id == self@.id,
            copy@.title == self@.title,
            copy@.description == self@.description,
            copy@.variant == self@.variant,
            match (copy@.action, self@.action) {
                (Some(copied), Some(action)) => copied.label == action.label && cloned(
                    action.message,
                    copied.message,
                ),
                (None, None) => true,
                _ => false,
            },
    {
        let description = match &self.description {
            Some(text) => Some(text.clone()),
            None => None,
        };
        let action = match &self.action {
            Some(action) => Some(action.clone()),
            None => None,
        };
        Entry {
            id: self.id,
            title: self.title.clone(),
            description,
            variant: self.variant,
            action,
            created_at: self.created_at,
        }
    }
}

impl<Message: Clone> Clone for State<Message> {
    fn clone(&self) -> (copy: Self)
        ensures
            copy@.position == self@.position,
            copy@.next_id == self@.next_id,
            copy@.animating_id == self@.animating_id,
            copy@.issued == self@.issued,
            copy@.entries.len() == self@.entries.len(),
            forall|i: int|
                0 <= i < self@.entries.len() ==> (#[trigger] copy@.entries[i]).id
                    == self@.entries[i].id && copy@.entries[i].title == self@.entries[i].title,
    {
        proof {
            use_type_invariant(self);
        }
        let entries = self.entries.clone();
        proof {
            assert forall|i: int| 0 <= i < entries@.len() implies (#[trigger] entries@[i])@.id
                == self.entries@[i]@.id && entries@[i]@.title == self.entries@[i]@.title by {
                assert(cloned::<Entry<Message>>(self.entries[i], entries[i]));
            }
            let copies = entry_views(entries@);
            let originals = entry_views(self.entries@);
            assert(copies.len() == originals.len());
            assert forall|i: int| 0 <= i < copies.len() implies (#[trigger] copies[i]).id
                == originals[i].id by {
                assert(copies[i] == entries@[i]@);
                assert(originals[i] == self.entries@[i]@);
            }
            assert(ids_ordered(originals, self.next_id));
            assert forall|i: int, j: int| 0 <= i < j < copies.len() implies (#[trigger] copies[i]).id@
                < (#[trigger] copies[j]).id@ by {
                assert(originals[i].id@ < originals[j].id@);
            }
            assert forall|i: int| 0 <= i < copies.len() implies (#[trigger] copies[i]).id@
                < self.next_id by {
                assert(originals[i].id@ < self.next_id);
            }
        }
        proof {
            assert(issued_below(self@));
            assert forall|n: u64| self.issued@.contains(n) implies n < self.next_id by {
                assert(self@.issued.contains(n));
            }
        }
        State {
            entries,
            position: self.position,
            next_id: self.next_id,
            animating_id: self.animating_id,
            issued: Ghost(self.issued@),
        }
    }
}

impl<Message> Default for State<Message> {
    fn default() -> (state: Self)
        ensures
            state@.entries.len() == 0,
            state@.position == Position::BottomRight,
            state@.next_id == 1,
            state@.animating_id is None,
            state@.issued.is_empty(),
    {
        State {
            entries: Vec::new(),
            position: Position::BottomRight,
            next_id: 1,
            animating_id: None,
            issued: Ghost(Set::empty()),
        }
    }
}

impl<AppMessage> State<AppMessage> {
    /// Sets the corner in which snackbars appear.
    #[must_use]
    pub fn with_position(self, position: Position) -> (state: Self)
        ensures
            state@ == (StateModel { position, ..self@ }),
    {
        proof {
            use_type_invariant(&self);
        }
        State { position, ..self }
    }

    /// Sets the corner in which snackbars appear.
    pub fn set_position(&mut self, position: Position)
        ensures
            final(self)@ == (StateModel { position, ..old(self)@ }),
    {
        proof {
            use_type_invariant(&*self);
        }
        self.position = position;
    }

    /// Returns the corner in which snackbars appear.
    pub fn position(&self) -> (position: Position)
        ensures
            position == self@.position,
    {
        self.position
    }

    /// Returns the entry whose arrival is animated, if any.
    pub fn animating_id(&self) -> (id: Option<Id>)
        ensures
            id == self@.animating_id,
    {
        self.animating_id
    }

    /// Finds the position of the entry with the given identifier.
    fn find(&self, id: Id) -> (index: Option<usize>)
        ensures
            match index {
                Some(k) => k as int == index_of(self@.entries, id),
                None => index_of(self@.entries, id) == -1,
            },
    {
        let ghost entries = self@.entries;
        let mut k: usize = 0;
        while k < self.entries.len()
            invariant
                k <= self.entries.len(),
                entries == entry_views(self.entries@),
                forall|j: int| 0 <= j < k ==> (#[trigger] entries[j]).id != id,
            decreases self.entries.len() - k,
        {
            if self.entries[k].id == id {
                proof {
                    lemma_index_of(entries, id, k as int);
                }
                return Some(k);
            }
            k += 1;
        }
        assert(!exists|i: int| 0 <= i < entries.len() && (#[trigger] entries[i]).id == id);
        None
    }

    /// Applies a snackbar message: a dismissal removes the entry; an action
    /// removes the entry and returns the message of its action.
    pub fn update(&mut self, message: Message) -> (app_message: Option<AppMessage>)
        ensures
            match message {
                Message::Dismiss(id) => {
                    &&& app_message is None
                    &&& if index_of(old(self)@.entries, id) >= 0 {
                        final(self)@ == (StateModel {
                            entries: old(self)@.entries.remove(index_of(old(self)@.entries, id)),
                            animating_id: if old(self)@.animating_id == Some(id) {
                                None
                            } else {
                                old(self)@.animating_id
                            },
                            ..old(self)@
                        })
                    } else {
                        final(self)@ == old(self)@
                    }
                },
                Message::Action(id) => if index_of(old(self)@.entries, id) >= 0 {
                    &&& app_message == action_message(
                        old(self)@.entries[index_of(old(self)@.entries, id)],
                    )
                    &&& final(self)@ == (StateModel {
                        entries: old(self)@.entries.remove(index_of(old(self)@.entries, id)),
                        ..old(self)@
                    })
                } else {
                    &&& app_message is None
                    &&& final(self)@ == old(self)@
                },
            },
    {
        match message {
            Message::Dismiss(id) => {
                let _ = self.remove(id);
                None
            },
            Message::Action(id) => {
                proof {
                    use_type_invariant(&*self);
                }
                let index = match self.find(id) {
                    Some(index) => index,
                    None => return None,
                };
                let mut entries = Vec::new();
                std::mem::swap(&mut entries, &mut self.entries);
                let ghost before = entries@;
                let entry = entries.remove(index);
                proof {
                    assert(entry_views(entries@) =~= entry_views(before).remove(index as int));
                }
                self.entries = entries;
                match entry.action {
                    Some(action) => Some(action.message),
                    None => None,
                }
            },
        }
    }

    /// Adds an entry at the end, gives it the next identifier, stamps it with
    /// the current time and animates its arrival.
    ///
    /// The identifier is new: no identifier returned before, by this push
    /// or any earlier one, even of an entry since removed or cleared, has
    /// its number.
    pub fn push(&mut self, entry: Entry<AppMessage>) -> (id: Id)
        requires
            old(self)@.next_id < u64::MAX,
        ensures
            id@ == old(self)@.next_id,
            !old(self)@.issued.contains(id@),
            forall|i: int|
                0 <= i < old(self)@.entries.len() ==> (#[trigger] old(self)@.entries[i]).id != id,
            final(self)@ == (StateModel {
                entries: old(self)@.entries.push(EntryModel { id, ..entry@ }),
                next_id: (old(self)@.next_id + 1) as u64,
                animating_id: Some(id),
                issued: old(self)@.issued.insert(id@),
                ..old(self)@
            }),
    {
        proof {
            use_type_invariant(&*self);
        }
        let id = Id(self.next_id);
        self.next_id = self.next_id + 1;
        self.issued = Ghost(self.issued@.insert(id.0));
        let mut entry = entry;
        entry.id = id;
        entry.created_at = now();
        let mut entries = Vec::new();
        std::mem::swap(&mut entries, &mut self.entries);
        let ghost before = entries@;
        entries.push(entry);
        proof {
            assert(entry_views(entries@) =~= entry_views(before).push(EntryModel { id, ..entry@ }));
        }
        self.entries = entries;
        self.animating_id = Some(id);
        id
    }

    /// Removes and returns the entry with the given identifier, if any; the
    /// other entries keep their order.
    pub fn remove(&mut self, id: Id) -> (removed: Option<Entry<AppMessage>>)
        ensures
            if index_of(old(self)@.entries, id) >= 0 {
                &&& removed matches Some(entry) && entry@ == old(self)@.entries[index_of(
                    old(self)@.entries,
                    id,
                )]
                &&& final(self)@ == (StateModel {
                    entries: old(self)@.entries.remove(index_of(old(self)@.entries, id)),
                    animating_id: if old(self)@.animating_id == Some(id) {
                        None
                    } else {
                        old(self)@.animating_id
                    },
                    ..old(self)@
                })
            } else {
                &&& removed is None
                &&& final(self)@ == old(self)@
            },
    {
        proof {
            use_type_invariant(&*self);
        }
        let index = match self.find(id) {
            Some(index) => index,
            None => return None,
        };
        let mut entries = Vec::new();
        std::mem::swap(&mut entries, &mut self.entries);
        let ghost before = entries@;
        let removed = entries.remove(index);
        proof {
            assert(entry_views(entries@) =~= entry_views(before).remove(index as int));
        }
        self.entries = entries;
        if self.animating_id == Some(id) {
            self.animating_id = None;
        }
        Some(removed)
    }

    /// Removes every entry.
    pub fn clear(&mut self)
        ensures
            final(self)@ == (StateModel {
                entries: Seq::empty(),
                animating_id: None,
                ..old(self)@
            }),
    {
        proof {
            use_type_invariant(&*self);
        }
        self.entries = Vec::new();
        proof {
            assert(entry_views(self.entries@) =~= Seq::<EntryModel<AppMessage>>::empty());
        }
        self.animating_id = None;
    }

    /// Whether no entry is held.
    pub fn is_empty(&self) -> (empty: bool)
        ensures
            empty == (self@.entries.len() == 0),
    {
        self.entries.is_empty()
    }

    /// Returns the entries in the order they were pushed; their identifiers
    /// rise strictly in that order.
    pub fn entries(&self) -> (entries: &[Entry<AppMessage>])
        ensures
            entry_views(entries@) == self@.entries,
            ids_ordered(self@.entries, self@.next_id),
            issued_below(self@),
    {
        proof {
            use_type_invariant(self);
        }
        self.entries.as_slice()
    }
    /// Returns the positions of the entries in the order the stack shows
    /// them: oldest first in a top corner, newest first in a bottom corner.
    pub fn display_order(&self) -> (order: Vec<usize>)
        ensures
            order@.len() == self@.entries.len(),
            forall|k: int|
                0 <= k < order@.len() ==> (#[trigger] order@[k]) as int == if position_is_top(
                    self@.position,
                ) {
                    k
                } else {
                    self@.entries.len() - 1 - k
                },
    {
        let len = self.entries.len();
        let top = self.position.is_top();
        let mut order: Vec<usize> = Vec::new();
        let mut k: usize = 0;
        while k < len
            invariant
                k <= len,
                len == self@.entries.len(),
                top == position_is_top(self@.position),
                order@.len() == k,
                forall|j: int|
                    0 <= j < k ==> (#[trigger] order@[j]) as int == if top {
                        j
                    } else {
                        len - 1 - j
                    },
            decreases len - k,
        {
            if top {
                order.push(k);
            } else {
                order.push(len - 1 - k);
            }
            k += 1;
        }
        order
    }
}

/// Entries held by a state carry pairwise different identifiers.
pub proof fn law_ids_unique<Message>(entries: Seq<EntryModel<Message>>, next_id: u64)
    requires
        ids_ordered(entries, next_id),
    ensures
        forall|i: int, j: int|
            0 <= i < entries.len() && 0 <= j < entries.len() && i != j ==> (#[trigger] entries[i]).id
                != (#[trigger] entries[j]).id,
{
    assert forall|i: int, j: int|
        0 <= i < entries.len() && 0 <= j < entries.len() && i != j implies (#[trigger] entries[i]).id
        != (#[trigger] entries[j]).id by {
        if i < j {
            assert(entries[i].id@ < entries[j].id@);
        } else {
            assert(entries[j].id@ < entries[i].id@);
        }
    }
}

/// Removing the entry that was just pushed finds it at the end and gives
/// back the entries held before the push.
pub proof fn law_remove_after_push<Message>(
    entries: Seq<EntryModel<Message>>,
    next_id: u64,
    entry: EntryModel<Message>,
)
    requires
        ids_ordered(entries, next_id),
        entry.id@ == next_id,
    ensures
        index_of(entries.push(entry), entry.id) == entries.len(),
        entries.push(entry).remove(entries.len() as int) == entries,
{
    let pushed = entries.push(entry);
    assert forall|j: int| 0 <= j < entries.len() implies (#[trigger] pushed[j]).id != entry.id by {
        assert(pushed[j] == entries[j]);
        assert(entries[j].id@ < next_id);
    }
    lemma_index_of(pushed, entry.id, entries.len() as int);
    assert(pushed.remove(entries.len() as int) =~= entries);
}

/// A push keeps entry numbers ordered: the new entry gets the number that was
/// next and the next number moves past it.
pub proof fn law_push_keeps_order<Message>(
    entries: Seq<EntryModel<Message>>,
    next_id: u64,
    entry: EntryModel<Message>,
)
    requires
        ids_ordered(entries, next_id),
        entry.id@ == next_id,
        next_id < u64::MAX,
    ensures
        ids_ordered(entries.push(entry), (next_id + 1) as u64),
{
    let pushed = entries.push(entry);
    assert forall|i: int, j: int| 0 <= i < j < pushed.len() implies (#[trigger] pushed[i]).id@
        < (#[trigger] pushed[j]).id@ by {
        if j < entries.len() {
            assert(entries[i].id@ < entries[j].id@);
        } else {
            assert(entries[i].id@ < next_id);
        }
    }
    assert forall|i: int| 0 <= i < pushed.len() implies (#[trigger] pushed[i]).id@ < next_id + 1 by {
        if i < entries.len() {
            assert(entries[i].id@ < next_id);
        }
    }
}


/// Clearing the stack keeps its corner, the number the next entry will get
/// and the record of returned identifiers, so an entry pushed after a clear
/// gets an identifier that was never returned before.
pub proof fn law_clear_then_push_is_fresh<Message>(
    before: StateModel<Message>,
    cleared: StateModel<Message>,
    entry: EntryModel<Message>,
    id: Id,
    after: StateModel<Message>,
)
    requires
        issued_below(before),
        cleared == (StateModel { entries: Seq::empty(), animating_id: None, ..before }),
        id@ == cleared.next_id,
        after == (StateModel {
            entries: cleared.entries.push(EntryModel { id, ..entry }),
            next_id: (cleared.next_id + 1) as u64,
            animating_id: Some(id),
            issued: cleared.issued.insert(id@),
            ..cleared
        }),
    ensures
        !before.issued.contains(id@),
        after.issued == before.issued.insert(id@),
        after.position == before.position,
        after.entries.len() == 1,
{
}

/// Each corner lies along the edges that its name says, and is displayed by
/// that name.
pub proof fn law_corners()
    ensures
        position_is_top(Position::TopLeft) && position_is_left(Position::TopLeft),
        position_is_top(Position::TopRight) && !position_is_left(Position::TopRight),
        !position_is_top(Position::BottomLeft) && position_is_left(Position::BottomLeft),
        !position_is_top(Position::BottomRight) && !position_is_left(Position::BottomRight),
        position_name(Position::TopLeft) == "Top Left"@,
        position_name(Position::TopRight) == "Top Right"@,
        position_name(Position::BottomLeft) == "Bottom Left"@,
        position_name(Position::BottomRight) == "Bottom Right"@,
{
}
} // verus!
