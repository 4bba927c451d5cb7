//! The lifecycle of a dialog shown over a base element.
//!
//! The lifecycle is controlled by the parent app through [`State`]; the
//! widget reports progress as [`Message`]s so the parent can keep content
//! mounted until a closing animation has finished.
use vstd::prelude::*;
use crate::widget::keyboard::KeyName;

verus! {

/// Dialog lifecycle message emitted by the dialog widget.
#[derive(Debug, Clone, Copy, PartialEq, Structural)]
pub enum Message {
    /// The dialog has finished opening.
    Opened,
    /// The user requested the dialog to close.
    Close,
    /// The dialog has finished closing.
    /// Primarily used for animated dialogs to signal the end of the closing animation.
    Closed,
}

/// Actions that the dialog informs the main app about.
#[derive(Debug, Clone, Copy, PartialEq, Structural)]
pub enum Action {
    /// The dialog has been closed and the parent app should clean up any necessary state.
    Closed,
}

/// The visual status of the dialog.
#[derive(Debug, Clone, Copy, Default, PartialEq, Structural)]
pub enum Status {
    /// The dialog is fully closed.
    #[default]
    Closed,
    /// The dialog is in the process of opening and animating in.
    Opening,
    /// The dialog is open and visible.
    Open,
    /// The dialog is in the process of closing and animating out.
    Closing,
}

/// A built-in Moonveil dialog style.
#[derive(Debug, Default, Clone, Copy, PartialEq, Eq, Structural)]
#[non_exhaustive]
pub enum Variant {
    /// The standard modal dialog treatment.
    #[default]
    Standard,
}

/// External dialog state managed by the parent app.
#[derive(Debug, Clone, Copy)]
pub struct State {
    /// The current visual status of the dialog.
    /// Animated dialogs will use [`Status::Opening`] and [`Status::Closing`] states.
    status: Status,
    /// Whether the dialog should animate when opening or closing.
    is_animated: bool,
}

/// What a [`State`] holds: its status and whether it animates.
#[derive(Debug, Clone, Copy, PartialEq, Structural)]
pub struct StateModel {
    pub status: Status,
    pub is_animated: bool,
}

impl View for State {
    type V = StateModel;

    closed spec fn view(&self) -> StateModel {
        StateModel { status: self.status, is_animated: self.is_animated }
    }
}

/// The status that opening leads to: `Opening` when animated, `Open` otherwise.
pub open spec fn opening_status(is_animated: bool) -> Status {
    if is_animated { Status::Opening } else { Status::Open }
}

/// The status that a close request leads to: `Closing` when animated, `Closed` otherwise.
pub open spec fn closing_status(is_animated: bool) -> Status {
    if is_animated { Status::Closing } else { Status::Closed }
}

/// The state and the action that a lifecycle message leads to.
pub open spec fn step(model: StateModel, message: Message) -> (StateModel, Option<Action>) {
    match message {
        Message::Opened => (StateModel { status: Status::Open, ..model }, None),
        Message::Close => if model.is_animated {
            (StateModel { status: Status::Closing, ..model }, None)
        } else {
            (StateModel { status: Status::Closed, ..model }, Some(Action::Closed))
        },
        Message::Closed => (StateModel { status: Status::Closed, ..model }, Some(Action::Closed)),
    }
}

/// Whether the dialog target is open in this status.
pub open spec fn status_is_open(status: Status) -> bool {
    status == Status::Opening || status == Status::Open
}

impl Default for State {
    fn default() -> (state: Self)
        ensures
            state@ == (StateModel { status: Status::Closed, is_animated: true }),
    {
        State { status: Status::Closed, is_animated: true }
    }
}

impl State {
    /// Sets whether the dialog should animate when opening or closing.
    pub fn animated(self, animated: bool) -> (state: Self)
        ensures
            state@ == (StateModel { is_animated: animated, ..self@ }),
    {
        State { is_animated: animated, ..self }
    }

    /// Sets the dialog state to open.
    pub fn open(&mut self)
        ensures
            final(self)@ == (StateModel { status: opening_status(old(self)@.is_animated), ..old(self)@ }),
    {
        self.status = if self.is_animated {
            Status::Opening
        } else {
            Status::Open
        };
    }

    /// Closes the dialog, either immediately closing if not animated or starting the closing animation.
    pub fn close(&mut self)
        ensures
            final(self)@ == (StateModel { status: closing_status(old(self)@.is_animated), ..old(self)@ }),
    {
        if self.is_animated {
            self.status = Status::Closing;
        } else {
            self.status = Status::Closed;
        }
    }

    /// Applies a dialog lifecycle message to this state.
    #[must_use]
    pub fn update(&mut self, message: Message) -> (action: Option<Action>)
        ensures
            (final(self)@, action) == step(old(self)@, message),
    {
        match message {
            Message::Opened => {
                self.status = Status::Open;
                None
            },
            Message::Close => {
                if self.is_animated {
                    if !matches!(self.status, Status::Closing) {
                        self.status = Status::Closing;
                    }
                    None
                } else {
                    self.status = Status::Closed;
                    Some(Action::Closed)
                }
            },
            Message::Closed => {
                self.status = Status::Closed;
                Some(Action::Closed)
            },
        }
    }

    /// Returns the current status.
    pub fn status(&self) -> (status: Status)
        ensures
            status == self@.status,
    {
        self.status
    }

    /// Returns whether this dialog state is configured to animate.
    pub fn is_animated(&self) -> (animated: bool)
        ensures
            animated == self@.is_animated,
    {
        self.is_animated
    }

    /// Returns true when the dialog target state is open.
    pub fn is_open(&self) -> (open: bool)
        ensures
            open == status_is_open(self@.status),
    {
        matches!(self.status, Status::Opening | Status::Open)
    }

    /// Returns true while dialog content should be rendered.
    pub fn is_visible(&self) -> (visible: bool)
        ensures
            visible == (self@.status != Status::Closed),
    {
        !matches!(self.status, Status::Closed)
    }
}

/// Bookkeeping that the dialog widget keeps between updates, so that each
/// opening and each closing is announced once.
#[derive(Debug, Clone, Copy, PartialEq, Eq, Structural)]
pub struct Lifecycle {
    /// The dialog has been open since it last finished closing.
    pub was_open: bool,
    /// [`Message::Opened`] has been announced for the current opening.
    pub opened_emitted: bool,
    /// [`Message::Closed`] has been announced for the current closing.
    pub closed_emitted: bool,
}

/// What one update of the dialog widget announces.
#[derive(Debug, Clone, Copy, PartialEq, Eq, Structural)]
pub struct Notices {
    /// The dialog has finished opening.
    pub opened: bool,
    /// The dialog has finished closing.
    pub closed: bool,
}

/// The bookkeeping and announcements of one widget update.
///
/// `open` is whether the dialog target is open, `animate` whether it
/// animates; `settled_open` and `settled_closed` say that the visibility
/// animation is at rest at its open or its closed end.
pub open spec fn lifecycle_step(
    flags: Lifecycle,
    open: bool,
    animate: bool,
    settled_open: bool,
    settled_closed: bool,
) -> (Lifecycle, Notices) {
    let marked = if open {
        Lifecycle { was_open: true, closed_emitted: false, ..flags }
    } else {
        Lifecycle { opened_emitted: false, ..flags }
    };
    let did_open = open && (!animate || settled_open);
    let announce_open = did_open && !marked.opened_emitted;
    let after_open = if announce_open {
        Lifecycle { opened_emitted: true, ..marked }
    } else {
        marked
    };
    let did_close = animate && !open && after_open.was_open && settled_closed;
    let announce_close = did_close && !after_open.closed_emitted;
    let after_close = if announce_close {
        Lifecycle { closed_emitted: true, was_open: false, opened_emitted: false, ..after_open }
    } else {
        after_open
    };
    (after_close, Notices { opened: announce_open, closed: announce_close })
}

impl Lifecycle {
    /// The bookkeeping of a dialog widget that has not been shown yet.
    pub fn new() -> (flags: Self)
        ensures
            flags == (Lifecycle { was_open: false, opened_emitted: false, closed_emitted: false }),
    {
        Lifecycle { was_open: false, opened_emitted: false, closed_emitted: false }
    }

    /// Records one widget update and returns what it announces.
    pub fn advance(
        &mut self,
        open: bool,
        animate: bool,
        settled_open: bool,
        settled_closed: bool,
    ) -> (notices: Notices)
        ensures
            (*final(self), notices) == lifecycle_step(
                *old(self),
                open,
                animate,
                settled_open,
                settled_closed,
            ),
    {
        if open {
            self.was_open = true;
            self.closed_emitted = false;
        } else {
            self.opened_emitted = false;
        }
        let did_open = open && (!animate || settled_open);
        let mut notices = Notices { opened: false, closed: false };
        if did_open && !self.opened_emitted {
            notices.opened = true;
            self.opened_emitted = true;
        }
        let did_close = animate && !open && self.was_open && settled_closed;
        if did_close && !self.closed_emitted {
            notices.closed = true;
            self.closed_emitted = true;
            self.was_open = false;
            self.opened_emitted = false;
        }
        notices
    }
}

/// Whether the dialog is on screen: it has partly appeared, it is open, or
/// its animation still runs.
pub open spec fn showing(appeared: bool, open: bool, animate: bool, animating: bool) -> bool {
    appeared || open || (animate && animating)
}

/// Returns whether the dialog is on screen, for a dialog that has partly
/// `appeared` or not, is `open` or not, animates or not, and whose animation
/// is `animating` or not.
pub fn is_showing(appeared: bool, open: bool, animate: bool, animating: bool) -> (shown: bool)
    ensures
        shown == showing(appeared, open, animate, animating),
{
    appeared || open || (animate && animating)
}

/// Which parts of a dialog widget an event reaches.
#[derive(Debug, Clone, Copy, PartialEq, Eq, Structural)]
pub struct Routing {
    /// The backdrop behind the panel.
    pub backdrop: bool,
    /// The panel holding the dialog's content.
    pub panel: bool,
    /// The base element that the dialog is shown over.
    pub base: bool,
    /// Whether Escape may request the dialog to close.
    pub escape: bool,
}

/// Where an event goes: while the dialog is shown, never to the base; while
/// it also animates, to nothing; otherwise to the panel, and to the
/// backdrop unless it presses on the panel, and Escape may close it. A
/// dialog that is not shown leaves the event to the base.
pub open spec fn routing(shown: bool, transitioning: bool, panel_press: bool) -> Routing {
    if shown {
        Routing {
            backdrop: !transitioning && !panel_press,
            panel: !transitioning,
            base: false,
            escape: !transitioning,
        }
    } else {
        Routing { backdrop: false, panel: false, base: true, escape: false }
    }
}

/// Returns where an event goes, for a dialog that is `shown` or not, whose
/// animation runs (`transitioning`) or not, and for an event that presses
/// on the panel (`panel_press`) or not.
pub fn route(shown: bool, transitioning: bool, panel_press: bool) -> (route: Routing)
    ensures
        route == routing(shown, transitioning, panel_press),
{
    if shown {
        Routing {
            backdrop: !transitioning && !panel_press,
            panel: !transitioning,
            base: false,
            escape: !transitioning,
        }
    } else {
        Routing { backdrop: false, panel: false, base: true, escape: false }
    }
}

/// Whether a shown dialog takes a press on its backdrop that nothing inside
/// it took first, so that it does not reach what lies behind.
pub fn captures_backdrop_press(shown: bool, backdrop_press: bool, captured: bool) -> (capture: bool)
    ensures
        capture == (shown && backdrop_press && !captured),
{
    shown && backdrop_press && !captured
}

/// While a dialog is shown, no event reaches the base element behind it.
pub proof fn law_shown_dialog_is_modal(transitioning: bool, panel_press: bool)
    ensures
        !routing(true, transitioning, panel_press).base,
{
}

/// Whether a key press asks to close the open dialog: Escape does, when the
/// dialog closes on Escape, has a message for close requests, and nothing
/// inside the dialog took the key first.
pub fn escape_requests_close(
    esc_close: bool,
    has_close_intent: bool,
    key: KeyName,
    captured: bool,
) -> (close: bool)
    ensures
        close == (esc_close && has_close_intent && key == KeyName::Escape && !captured),
{
    esc_close && has_close_intent && key == KeyName::Escape && !captured
}

/// Opening a dialog and then receiving [`Message::Opened`] leaves it open,
/// whether or not it animates.
pub proof fn law_open_then_opened(model: StateModel)
    ensures
        step(StateModel { status: opening_status(model.is_animated), ..model }, Message::Opened)
            == (StateModel { status: Status::Open, ..model }, Option::<Action>::None),
{
}

/// A close request closes a dialog that does not animate at once and asks the
/// app to clean up; an animated dialog first passes through `Closing` and asks
/// for clean-up only when [`Message::Closed`] arrives.
pub proof fn law_close_request(model: StateModel)
    ensures
        !model.is_animated ==> step(model, Message::Close) == (
            StateModel { status: Status::Closed, ..model },
            Some(Action::Closed),
        ),
        model.is_animated ==> step(model, Message::Close) == (
            StateModel { status: Status::Closing, ..model },
            Option::<Action>::None,
        ),
        model.is_animated ==> step(step(model, Message::Close).0, Message::Closed) == (
            StateModel { status: Status::Closed, ..model },
            Some(Action::Closed),
        ),
{
}

/// An update asks the app to clean up exactly when it leaves the dialog
/// closed, and no update changes whether the dialog animates.
pub proof fn law_cleanup_iff_closed(model: StateModel, message: Message)
    ensures
        step(model, message).1 is Some <==> step(model, message).0.status == Status::Closed,
        step(model, message).0.is_animated == model.is_animated,
{
}

/// Each opening is announced once: after an update announces it, further
/// updates while the dialog stays open announce nothing more.
pub proof fn law_opened_announced_once(
    flags: Lifecycle,
    animate: bool,
    settled_open: bool,
    settled_closed: bool,
    again_settled_open: bool,
    again_settled_closed: bool,
)
    requires
        lifecycle_step(flags, true, animate, settled_open, settled_closed).1.opened,
    ensures
        !lifecycle_step(
            lifecycle_step(flags, true, animate, settled_open, settled_closed).0,
            true,
            animate,
            again_settled_open,
            again_settled_closed,
        ).1.opened,
{
}

/// A closing is announced only for an animated dialog that was open and is
/// now closed, and an announced closing is not announced again.
pub proof fn law_closed_announced_once(
    flags: Lifecycle,
    open: bool,
    animate: bool,
    settled_open: bool,
    settled_closed: bool,
    again_settled_open: bool,
    again_settled_closed: bool,
)
    requires
        lifecycle_step(flags, open, animate, settled_open, settled_closed).1.closed,
    ensures
        animate && !open && flags.was_open && settled_closed,
        !lifecycle_step(
            lifecycle_step(flags, open, animate, settled_open, settled_closed).0,
            false,
            animate,
            again_settled_open,
            again_settled_closed,
        ).1.closed,
{
}

/// A dialog that does not animate announces its opening on the first update
/// that sees it open.
pub proof fn law_unanimated_opens_at_once(
    flags: Lifecycle,
    settled_open: bool,
    settled_closed: bool,
)
    requires
        !flags.opened_emitted,
    ensures
        lifecycle_step(flags, true, false, settled_open, settled_closed).1.opened,
{
}


/// Every opening is announced: once an update has seen the dialog closed,
/// the next update that sees it open, and not still animating in, announces
/// the opening, whatever came before.
pub proof fn law_every_opening_is_announced(
    flags: Lifecycle,
    animate: bool,
    settled_open: bool,
    settled_closed: bool,
    reopen_animate: bool,
    reopen_settled_open: bool,
    reopen_settled_closed: bool,
)
    requires
        !reopen_animate || reopen_settled_open,
    ensures
        lifecycle_step(
            lifecycle_step(flags, false, animate, settled_open, settled_closed).0,
            true,
            reopen_animate,
            reopen_settled_open,
            reopen_settled_closed,
        ).1.opened,
{
}

/// Every closing of an animated dialog is announced: once an update has
/// seen the dialog open, the next update that sees it closed and settled
/// announces the closing, whatever came before.
pub proof fn law_every_closing_is_announced(
    flags: Lifecycle,
    animate: bool,
    settled_open: bool,
    settled_closed: bool,
    closing_settled_open: bool,
)
    ensures
        lifecycle_step(
            lifecycle_step(flags, true, animate, settled_open, settled_closed).0,
            false,
            true,
            closing_settled_open,
            true,
        ).1.closed,
{
}

/// A dialog is open while it opens and once it is open, and not while it
/// closes or once it is closed; so opening it, animated or not, leaves it
/// open, and so does the message that it finished opening.
pub proof fn law_open_means_opening_or_open(model: StateModel, animated: bool)
    ensures
        status_is_open(Status::Opening),
        status_is_open(Status::Open),
        !status_is_open(Status::Closing),
        !status_is_open(Status::Closed),
        status_is_open(opening_status(animated)),
        status_is_open(step(model, Message::Opened).0.status),
        !status_is_open(step(model, Message::Closed).0.status),
        !status_is_open(closing_status(animated)),
{
}

/// An animated dialog passes through `Opening` and `Closing`; one that does
/// not animate goes straight to `Open` and `Closed`. A dialog that is open
/// is also on screen.
pub proof fn law_animation_adds_transitions(status: Status)
    ensures
        opening_status(true) == Status::Opening,
        opening_status(false) == Status::Open,
        closing_status(true) == Status::Closing,
        closing_status(false) == Status::Closed,
        status_is_open(status) ==> status != Status::Closed,
{
}

/// A dialog that is not shown leaves every event to its base; a shown one
/// that does not animate gives the event to its panel, and to its backdrop
/// unless the event presses on the panel, and lets Escape close it; while
/// it animates, nothing gets the event.
pub proof fn law_event_routing(transitioning: bool, panel_press: bool)
    ensures
        routing(false, transitioning, panel_press) == (Routing {
            backdrop: false,
            panel: false,
            base: true,
            escape: false,
        }),
        routing(true, false, panel_press) == (Routing {
            backdrop: !panel_press,
            panel: true,
            base: false,
            escape: true,
        }),
        routing(true, true, panel_press) == (Routing {
            backdrop: false,
            panel: false,
            base: false,
            escape: false,
        }),
{
}

/// A dialog is on screen while it is open, while any of it has appeared,
/// and while its animation runs; otherwise it is not.
pub proof fn law_showing(appeared: bool, open: bool, animate: bool, animating: bool)
    ensures
        open ==> showing(appeared, open, animate, animating),
        appeared ==> showing(appeared, open, animate, animating),
        animate && animating ==> showing(appeared, open, animate, animating),
        !appeared && !open && !(animate && animating) ==> !showing(appeared, open, animate, animating),
{
}
} // verus!
