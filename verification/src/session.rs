//! The paging session of one command invocation.
//!
//! A session is a state machine. It starts open, showing the first card;
//! each press of one of its two buttons moves it round the ring of cards;
//! it closes when the idle window passes without a press. The caller owns
//! the clock and the chat platform: it hands in events and carries out the
//! actions that come back.

use vstd::prelude::*;
use vstd::string::*;
use crate::card::{render_all, rendered_all, Card, CardModel};
use crate::error::FetchError;
use crate::launch::{LaunchModel, LaunchRecord};
use crate::scrape::{extract_launches, page_launches};
use crate::text::{decimal, starts_with, u64_to_decimal};

verus! {

/// The idle window: a session closes when this many seconds pass without a
/// press.
pub const IDLE_TIMEOUT_SECS: u64 = 3600;

/// What follows the invocation id in the identifier of the Previous button.
pub const PREVIOUS_SUFFIX: &'static str = "previous";

/// What follows the invocation id in the identifier of the Next button.
pub const NEXT_SUFFIX: &'static str = "next";

/// The label of the Previous button.
pub const PREVIOUS_LABEL: &'static str = "Previous";

/// The label of the Next button.
pub const NEXT_LABEL: &'static str = "Next";

/// The two ways round the ring of cards.
#[derive(Debug, Clone, Copy, PartialEq, Eq, Structural)]
pub enum Direction {
    Previous,
    Next,
}

/// A button below the card.
#[derive(Debug, Clone, PartialEq, Eq)]
pub struct Button {
    pub custom_id: String,
    pub label: String,
}

/// What a `Button` stands for.
pub struct ButtonModel {
    pub custom_id: Seq<char>,
    pub label: Seq<char>,
}

impl View for Button {
    type V = ButtonModel;

    open spec fn view(&self) -> ButtonModel {
        ButtonModel { custom_id: self.custom_id@, label: self.label@ }
    }
}

impl DeepView for Button {
    type V = ButtonModel;

    open spec fn deep_view(&self) -> ButtonModel {
        self@
    }
}

/// The first message of a session: a card and one row of buttons.
#[derive(Debug, Clone, PartialEq, Eq)]
pub struct InitialReply {
    pub card: Card,
    pub buttons: Vec<Button>,
}

/// What an `InitialReply` stands for.
pub struct InitialReplyModel {
    pub card: CardModel,
    pub buttons: Seq<ButtonModel>,
}

impl View for InitialReply {
    type V = InitialReplyModel;

    open spec fn view(&self) -> InitialReplyModel {
        InitialReplyModel { card: self.card@, buttons: self.buttons.deep_view() }
    }
}

/// What reaches a session from outside.
#[derive(Debug, Clone, PartialEq, Eq)]
pub enum Event {
    /// A button with the identifier `custom_id` was pressed at the time `at`.
    Press { custom_id: String, at: u64 },
    /// The wait for a press ended at the time `at` without one.
    Idle { at: u64 },
}

/// What an `Event` stands for.
pub enum EventModel {
    Press { custom_id: Seq<char>, at: int },
    Idle { at: int },
}

impl View for Event {
    type V = EventModel;

    open spec fn view(&self) -> EventModel {
        match *self {
            Event::Press { custom_id, at } => EventModel::Press {
                custom_id: custom_id@,
                at: at as int,
            },
            Event::Idle { at } => EventModel::Idle { at: at as int },
        }
    }
}

/// What the caller is to do after an event.
#[derive(Debug, Clone, PartialEq, Eq)]
pub enum Action {
    /// Replace the body of the first reply by this card, in place.
    Edit(Card),
    /// The session has ended: stop listening, send nothing.
    Close,
    /// Nothing to do.
    Ignore,
}

/// What an `Action` stands for.
pub enum ActionModel {
    Edit(CardModel),
    Close,
    Ignore,
}

impl View for Action {
    type V = ActionModel;

    open spec fn view(&self) -> ActionModel {
        match *self {
            Action::Edit(card) => ActionModel::Edit(card@),
            Action::Close => ActionModel::Close,
            Action::Ignore => ActionModel::Ignore,
        }
    }
}

/// The state of a session, as the contracts see it.
pub struct SessionModel {
    /// The token of the invocation; it prefixes the button identifiers.
    pub invocation_id: u64,
    /// The cards, never empty.
    pub cards: Seq<CardModel>,
    /// The position of the card on show.
    pub index: int,
    /// The time from which on the session counts as idle for too long.
    pub deadline: int,
    /// Whether the session has ended.
    pub closed: bool,
}

/// The prefix that marks the button identifiers of an invocation.
pub open spec fn id_prefix(invocation_id: u64) -> Seq<char> {
    decimal(invocation_id as nat)
}

/// What follows the prefix in the identifier of a button.
pub open spec fn suffix_of(direction: Direction) -> Seq<char> {
    match direction {
        Direction::Previous => PREVIOUS_SUFFIX@,
        Direction::Next => NEXT_SUFFIX@,
    }
}

/// The label of a button.
pub open spec fn label_of(direction: Direction) -> Seq<char> {
    match direction {
        Direction::Previous => PREVIOUS_LABEL@,
        Direction::Next => NEXT_LABEL@,
    }
}

/// The identifier of a button of an invocation.
pub open spec fn button_id_of(invocation_id: u64, direction: Direction) -> Seq<char> {
    id_prefix(invocation_id) + suffix_of(direction)
}

/// A button of an invocation.
pub open spec fn button_of(invocation_id: u64, direction: Direction) -> ButtonModel {
    ButtonModel {
        custom_id: button_id_of(invocation_id, direction),
        label: label_of(direction),
    }
}

/// Whether a press with this identifier is one that the invocation listens
/// to: the identifier begins with the invocation id.
pub open spec fn listens_to(invocation_id: u64, custom_id: Seq<char>) -> bool {
    id_prefix(invocation_id).is_prefix_of(custom_id)
}

/// The button of the invocation that an identifier names, if it names one.
pub open spec fn direction_of(invocation_id: u64, custom_id: Seq<char>) -> Option<Direction> {
    if custom_id == button_id_of(invocation_id, Direction::Next) {
        Some(Direction::Next)
    } else if custom_id == button_id_of(invocation_id, Direction::Previous) {
        Some(Direction::Previous)
    } else {
        None
    }
}

/// The position after a press, in a ring of `count` cards: Next goes one up
/// and wraps from the last card to the first, Previous goes one down and
/// wraps from the first to the last, anything else stays.
pub open spec fn index_after(index: int, count: int, direction: Option<Direction>) -> int {
    match direction {
        Some(Direction::Next) => (index + 1) % count,
        Some(Direction::Previous) => if index == 0 {
            count - 1
        } else {
            index - 1
        },
        None => index,
    }
}

/// The session right after the first reply, made at the time `now`.
pub open spec fn opened(invocation_id: u64, launches: Seq<LaunchModel>, now: int) -> SessionModel {
    SessionModel {
        invocation_id,
        cards: rendered_all(launches),
        index: 0,
        deadline: now + IDLE_TIMEOUT_SECS,
        closed: false,
    }
}

/// The first reply: the first card, then Previous and Next in this order.
pub open spec fn first_reply(invocation_id: u64, launches: Seq<LaunchModel>) -> InitialReplyModel {
    InitialReplyModel {
        card: rendered_all(launches)[0],
        buttons: seq![
            button_of(invocation_id, Direction::Previous),
            button_of(invocation_id, Direction::Next),
        ],
    }
}

/// One step of the session: the state after `event` and what the caller is
/// to do.
///
/// A closed session ignores everything. An open one ignores a press that it
/// does not listen to, and a wait that ended before the deadline. At or
/// after the deadline any other event closes it. A press in time moves the
/// index as the button says, or not at all where the identifier names
/// neither button; either way the card then on show is sent as an edit, and
/// the idle window starts anew.
pub open spec fn step(session: SessionModel, event: EventModel) -> (SessionModel, ActionModel) {
    if session.closed {
        (session, ActionModel::Ignore)
    } else {
        match event {
            EventModel::Press { custom_id, at } => {
                if !listens_to(session.invocation_id, custom_id) {
                    (session, ActionModel::Ignore)
                } else if at >= session.deadline {
                    (SessionModel { closed: true, ..session }, ActionModel::Close)
                } else {
                    let index = index_after(
                        session.index,
                        session.cards.len() as int,
                        direction_of(session.invocation_id, custom_id),
                    );
                    (
                        SessionModel { index, deadline: at + IDLE_TIMEOUT_SECS, ..session },
                        ActionModel::Edit(session.cards[index]),
                    )
                }
            },
            EventModel::Idle { at } => {
                if at >= session.deadline {
                    (SessionModel { closed: true, ..session }, ActionModel::Close)
                } else {
                    (session, ActionModel::Ignore)
                }
            },
        }
    }
}

/// The session once the caller begins, at the time `now`, to wait for the
/// next press: an open session counts its idle window from there, a closed
/// one stays as it is.
pub open spec fn waiting(session: SessionModel, now: int) -> SessionModel {
    if session.closed {
        session
    } else {
        SessionModel { deadline: now + IDLE_TIMEOUT_SECS, ..session }
    }
}

/// The identifier of a button of an invocation.
pub fn button_id(invocation_id: u64, direction: Direction) -> (custom_id: String)
    ensures
        custom_id@ == button_id_of(invocation_id, direction),
{
    let mut custom_id = u64_to_decimal(invocation_id);
    match direction {
        Direction::Previous => custom_id.append(PREVIOUS_SUFFIX),
        Direction::Next => custom_id.append(NEXT_SUFFIX),
    }
    custom_id
}

/// A button of an invocation, with its label.
pub fn button(invocation_id: u64, direction: Direction) -> (made: Button)
    ensures
        made@ == button_of(invocation_id, direction),
{
    let label = match direction {
        Direction::Previous => String::from_str(PREVIOUS_LABEL),
        Direction::Next => String::from_str(NEXT_LABEL),
    };
    Button { custom_id: button_id(invocation_id, direction), label }
}

/// Whether the invocation listens to a press with this identifier. This is
/// the filter to install on the stream of presses.
pub fn accepts(invocation_id: u64, custom_id: &str) -> (listening: bool)
    ensures
        listening == listens_to(invocation_id, custom_id@),
{
    let prefix = u64_to_decimal(invocation_id);
    starts_with(custom_id, prefix.as_str())
}

/// The button of the invocation that `custom_id` names, if it names one.
pub fn pressed_direction(invocation_id: u64, custom_id: &String) -> (direction: Option<Direction>)
    ensures
        direction == direction_of(invocation_id, custom_id@),
{
    let next = button_id(invocation_id, Direction::Next);
    if *custom_id == next {
        return Some(Direction::Next);
    }
    let previous = button_id(invocation_id, Direction::Previous);
    if *custom_id == previous {
        Some(Direction::Previous)
    } else {
        None
    }
}

/// The position after a press in a ring of `count` cards.
pub fn move_index(index: usize, count: usize, direction: Option<Direction>) -> (moved: usize)
    requires
        index < count,
    ensures
        moved == index_after(index as int, count as int, direction),
        moved < count,
{
    match direction {
        Some(Direction::Next) => (index + 1) % count,
        Some(Direction::Previous) => if index == 0 {
            count - 1
        } else {
            index - 1
        },
        None => index,
    }
}

/// The paging session of one invocation. The index always names one of the
/// cards, so there is always a card on show.
#[derive(Debug)]
pub struct Session {
    invocation_id: u64,
    cards: Vec<Card>,
    index: usize,
    armed_at: u64,
    closed: bool,
}

impl View for Session {
    type V = SessionModel;

    closed spec fn view(&self) -> SessionModel {
        SessionModel {
            invocation_id: self.invocation_id,
            cards: self.cards.deep_view(),
            index: self.index as int,
            deadline: self.armed_at + IDLE_TIMEOUT_SECS,
            closed: self.closed,
        }
    }
}

impl Session {
    #[verifier::type_invariant]
    spec fn in_range(self) -> bool {
        self.index < self.cards.len()
    }

    /// Opens the session for `launches` at the time `now`: renders every
    /// card, shows the first, and arms the idle window. Without launches
    /// there is nothing to page through, and no session.
    pub fn open(invocation_id: u64, launches: &Vec<LaunchRecord>, now: u64) -> (opening: Result<
        (Session, InitialReply),
        FetchError,
    >)
        ensures
            launches.len() == 0 ==> opening is Err && opening->Err_0 == FetchError::NoLaunches,
            launches.len() > 0 ==> opening is Ok && opening->Ok_0.0@ == opened(
                invocation_id,
                launches.deep_view(),
                now as int,
            ) && opening->Ok_0.1@ == first_reply(invocation_id, launches.deep_view()),
    {
        if launches.len() == 0 {
            return Err(FetchError::NoLaunches);
        }
        let cards = render_all(launches);
        assert(cards.len() == launches.len()) by {
            assert(cards.deep_view().len() == launches.deep_view().len());
        }
        let card = cards[0].duplicate();
        let mut buttons: Vec<Button> = Vec::new();
        buttons.push(button(invocation_id, Direction::Previous));
        buttons.push(button(invocation_id, Direction::Next));
        assert(buttons.deep_view() =~= first_reply(invocation_id, launches.deep_view()).buttons);
        let session = Session { invocation_id, cards, index: 0, armed_at: now, closed: false };
        Ok((session, InitialReply { card, buttons }))
    }

    /// Starts a session from the page `html`, read at the time `now`: reads
    /// the launches off the page and opens the session for them.
    pub fn start(invocation_id: u64, html: &str, now: u64) -> (opening: Result<
        (Session, InitialReply),
        FetchError,
    >)
        ensures
            match page_launches(html@) {
                None => opening is Err && opening->Err_0 == FetchError::Selectors,
                Some(launches) => if launches.len() == 0 {
                    opening is Err && opening->Err_0 == FetchError::NoLaunches
                } else {
                    opening is Ok && opening->Ok_0.0@ == opened(invocation_id, launches, now as int)
                        && opening->Ok_0.1@ == first_reply(invocation_id, launches)
                },
            },
    {
        match extract_launches(html) {
            Ok(launches) => {
                Session::open(invocation_id, &launches, now)
            },
            Err(error) => Err(error),
        }
    }

    /// The token of the invocation.
    pub fn invocation_id(&self) -> (id: u64)
        ensures
            id == self@.invocation_id,
    {
        self.invocation_id
    }

    /// The cards of the session, never empty.
    pub fn cards(&self) -> (cards: &Vec<Card>)
        ensures
            cards.deep_view() == self@.cards,
            cards.len() > 0,
    {
        proof {
            use_type_invariant(self);
        }
        &self.cards
    }

    /// The position of the card on show.
    pub fn index(&self) -> (index: usize)
        ensures
            index == self@.index,
            0 <= self@.index < self@.cards.len(),
    {
        proof {
            use_type_invariant(self);
        }
        self.index
    }

    /// The card on show.
    pub fn current_card(&self) -> (card: &Card)
        ensures
            0 <= self@.index < self@.cards.len(),
            card@ == self@.cards[self@.index],
    {
        proof {
            use_type_invariant(self);
        }
        &self.cards[self.index]
    }

    /// Whether the session has ended.
    pub fn is_closed(&self) -> (closed: bool)
        ensures
            closed == self@.closed,
    {
        self.closed
    }

    /// Whether the idle window has passed at the time `now`.
    pub fn expired(&self, now: u64) -> (late: bool)
        ensures
            late == (now >= self@.deadline),
    {
        now >= self.armed_at && now - self.armed_at >= IDLE_TIMEOUT_SECS
    }

    /// Begins the wait for the next press at the time `now`. The idle
    /// window counts from here; the result is its length in seconds, the
    /// longest that the caller may wait before it reports `Event::Idle`.
    /// A closed session waits for nothing.
    pub fn wait(&mut self, now: u64) -> (window: Option<u64>)
        ensures
            final(self)@ == waiting(old(self)@, now as int),
            window == if old(self)@.closed {
                None
            } else {
                Some(IDLE_TIMEOUT_SECS)
            },
    {
        proof {
            use_type_invariant(&*self);
        }
        if self.closed {
            None
        } else {
            self.armed_at = now;
            Some(IDLE_TIMEOUT_SECS)
        }
    }

    /// Whether the session listens to a press with this identifier.
    pub fn observes(&self, custom_id: &str) -> (listening: bool)
        ensures
            listening == listens_to(self@.invocation_id, custom_id@),
    {
        accepts(self.invocation_id, custom_id)
    }

    /// Takes one event and says what to do: see `step`.
    pub fn handle(&mut self, event: Event) -> (action: Action)
        ensures
            (final(self)@, action@) == step(old(self)@, event@),
    {
        proof {
            use_type_invariant(&*self);
        }
        if self.closed {
            return Action::Ignore;
        }
        match event {
            Event::Press { custom_id, at } => {
                if !accepts(self.invocation_id, custom_id.as_str()) {
                    Action::Ignore
                } else if self.expired(at) {
                    self.closed = true;
                    Action::Close
                } else {
                    let direction = pressed_direction(self.invocation_id, &custom_id);
                    let index = move_index(self.index, self.cards.len(), direction);
                    self.index = index;
                    self.armed_at = at;
                    Action::Edit(self.cards[index].duplicate())
                }
            },
            Event::Idle { at } => {
                if self.expired(at) {
                    self.closed = true;
                    Action::Close
                } else {
                    Action::Ignore
                }
            },
        }
    }
}

} // verus!
