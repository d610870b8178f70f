//! What holds of every session: the ring of cards, the separation of
//! invocations, and presses that name no button.

use vstd::prelude::*;
use vstd::arithmetic::div_mod::{
    lemma_fundamental_div_mod, lemma_fundamental_div_mod_converse, lemma_mod_bound,
};
use crate::session::{
    button_id_of, direction_of, id_prefix, index_after, listens_to, step, ActionModel, Direction,
    EventModel, SessionModel, IDLE_TIMEOUT_SECS,
};
use crate::text::lemma_decimal_injective;

verus! {

/// The position after the presses `moves`, one after another, from `start`
/// in a ring of `count` cards.
pub open spec fn index_after_all(start: int, count: int, moves: Seq<Direction>) -> int
    decreases moves.len(),
{
    if moves.len() == 0 {
        start
    } else {
        index_after(index_after_all(start, count, moves.drop_last()), count, Some(moves.last()))
    }
}

/// How often `direction` occurs among `moves`.
pub open spec fn occurrences(moves: Seq<Direction>, direction: Direction) -> int
    decreases moves.len(),
{
    if moves.len() == 0 {
        0
    } else {
        occurrences(moves.drop_last(), direction) + if moves.last() == direction {
            1int
        } else {
            0int
        }
    }
}

/// The same press, `times` times.
pub open spec fn repeated(direction: Direction, times: nat) -> Seq<Direction> {
    Seq::new(times, |i: int| direction)
}

/// The press of a button of the invocation `invocation_id` at the time `at`.
pub open spec fn press_of(invocation_id: u64, direction: Direction, at: int) -> EventModel {
    EventModel::Press { custom_id: button_id_of(invocation_id, direction), at }
}

/// Whether each of the times is before the deadline then in force: the
/// first before `deadline`, each later one less than the idle window after
/// the one before it.
pub open spec fn in_time(deadline: int, times: Seq<int>) -> bool
    decreases times.len(),
{
    if times.len() == 0 {
        true
    } else {
        &&& in_time(deadline, times.drop_last())
        &&& times.last() < deadline_after(deadline, times.drop_last())
    }
}

/// The deadline in force after presses at `times`, all of them in time.
pub open spec fn deadline_after(deadline: int, times: Seq<int>) -> int {
    if times.len() == 0 {
        deadline
    } else {
        times.last() + IDLE_TIMEOUT_SECS
    }
}

/// The session after its own buttons were pressed as `moves` says, the
/// press `i` at the time `times[i]`.
pub open spec fn after_presses(
    session: SessionModel,
    moves: Seq<Direction>,
    times: Seq<int>,
) -> SessionModel
    decreases moves.len(),
{
    if moves.len() == 0 {
        session
    } else {
        step(
            after_presses(session, moves.drop_last(), times.drop_last()),
            press_of(session.invocation_id, moves.last(), times.last()),
        ).0
    }
}

/// One step up or down commutes with taking the remainder.
proof fn lemma_ring_step(x: int, count: int)
    requires
        count >= 1,
    ensures
        index_after(x % count, count, Some(Direction::Next)) == (x + 1) % count,
        index_after(x % count, count, Some(Direction::Previous)) == (x - 1) % count,
{
    lemma_fundamental_div_mod(x, count);
    lemma_mod_bound(x, count);
    let q = x / count;
    let r = x % count;
    assert(count * q == q * count) by (nonlinear_arith);
    if r + 1 == count {
        assert(x + 1 == (q + 1) * count + 0) by (nonlinear_arith)
            requires
                x == q * count + r,
                r + 1 == count,
        ;
        lemma_fundamental_div_mod_converse(x + 1, count, q + 1, 0);
        lemma_fundamental_div_mod_converse(r + 1, count, 1, 0);
    } else {
        lemma_fundamental_div_mod_converse(x + 1, count, q, r + 1);
        lemma_fundamental_div_mod_converse(r + 1, count, 0, r + 1);
    }
    if r == 0 {
        assert(x - 1 == (q - 1) * count + (count - 1)) by (nonlinear_arith)
            requires
                x == q * count + r,
                r == 0,
        ;
        lemma_fundamental_div_mod_converse(x - 1, count, q - 1, count - 1);
    } else {
        lemma_fundamental_div_mod_converse(x - 1, count, q, r - 1);
    }
}

/// The ring law. From the first card of `count`, any sequence of presses
/// with Next pressed `a` times and Previous `b` times, in whatever order,
/// ends at the position `(a - b) mod count`.
pub proof fn lemma_ring_law(count: int, moves: Seq<Direction>)
    requires
        count >= 1,
    ensures
        index_after_all(0, count, moves) == (occurrences(moves, Direction::Next) - occurrences(
            moves,
            Direction::Previous,
        )) % count,
    decreases moves.len(),
{
    if moves.len() == 0 {
        lemma_fundamental_div_mod_converse(0, count, 0, 0);
    } else {
        let before = moves.drop_last();
        lemma_ring_law(count, before);
        let x = occurrences(before, Direction::Next) - occurrences(before, Direction::Previous);
        lemma_ring_step(x, count);
    }
}

/// How often a press occurs in its own repetition, and in another's.
proof fn lemma_occurrences_repeated(direction: Direction, other: Direction, times: nat)
    ensures
        occurrences(repeated(direction, times), other) == if direction == other {
            times as int
        } else {
            0
        },
    decreases times,
{
    if times > 0 {
        assert(repeated(direction, times).drop_last() =~= repeated(
            direction,
            (times - 1) as nat,
        ));
        lemma_occurrences_repeated(direction, other, (times - 1) as nat);
    }
}

/// From the first card of `count`, Next pressed `k` times ends at
/// `k mod count`.
pub proof fn lemma_next_presses(count: int, k: nat)
    requires
        count >= 1,
    ensures
        index_after_all(0, count, repeated(Direction::Next, k)) == k % (count as nat),
{
    lemma_ring_law(count, repeated(Direction::Next, k));
    lemma_occurrences_repeated(Direction::Next, Direction::Next, k);
    lemma_occurrences_repeated(Direction::Next, Direction::Previous, k);
}

/// From the first card of `count`, Previous pressed `k` times ends at
/// `(-k) mod count`.
pub proof fn lemma_previous_presses(count: int, k: nat)
    requires
        count >= 1,
    ensures
        index_after_all(0, count, repeated(Direction::Previous, k)) == (-(k as int)) % count,
{
    lemma_ring_law(count, repeated(Direction::Previous, k));
    lemma_occurrences_repeated(Direction::Previous, Direction::Next, k);
    lemma_occurrences_repeated(Direction::Previous, Direction::Previous, k);
}

/// The two buttons of an invocation have different identifiers, and each
/// identifier names its own button.
pub proof fn lemma_own_buttons(invocation_id: u64, direction: Direction)
    ensures
        listens_to(invocation_id, button_id_of(invocation_id, direction)),
        direction_of(invocation_id, button_id_of(invocation_id, direction)) == Some(direction),
{
    reveal_strlit("previous");
    reveal_strlit("next");
    let prefix = id_prefix(invocation_id);
    let own = button_id_of(invocation_id, direction);
    assert(own.subrange(0, prefix.len() as int) =~= prefix);
}

/// The ring law of a session. While every press comes in time, an open
/// session moves through its cards as the presses of its own buttons say:
/// it stays open, and its index is the one that the presses lead to in the
/// ring of its cards.
pub proof fn lemma_session_follows_presses(
    session: SessionModel,
    moves: Seq<Direction>,
    times: Seq<int>,
)
    requires
        !session.closed,
        0 <= session.index < session.cards.len(),
        moves.len() == times.len(),
        in_time(session.deadline, times),
    ensures
        after_presses(session, moves, times) == (SessionModel {
            index: index_after_all(session.index, session.cards.len() as int, moves),
            deadline: deadline_after(session.deadline, times),
            ..session
        }),
    decreases moves.len(),
{
    if moves.len() > 0 {
        lemma_session_follows_presses(session, moves.drop_last(), times.drop_last());
        lemma_own_buttons(session.invocation_id, moves.last());
    }
}

/// From the first card, a session whose presses all come in time ends at
/// the position `(a - b) mod N`, with `a` the number of Next presses, `b`
/// that of Previous presses and `N` the number of cards.
pub proof fn lemma_session_ring_law(session: SessionModel, moves: Seq<Direction>, times: Seq<int>)
    requires
        !session.closed,
        session.index == 0,
        session.cards.len() >= 1,
        moves.len() == times.len(),
        in_time(session.deadline, times),
    ensures
        !after_presses(session, moves, times).closed,
        after_presses(session, moves, times).index == (occurrences(moves, Direction::Next)
            - occurrences(moves, Direction::Previous)) % (session.cards.len() as int),
{
    lemma_session_follows_presses(session, moves, times);
    lemma_ring_law(session.cards.len() as int, moves);
}

/// Two invocations whose ids are such that neither numeral begins with the
/// other never listen to the same press.
pub proof fn lemma_listeners_disjoint(first: u64, second: u64, custom_id: Seq<char>)
    requires
        !id_prefix(first).is_prefix_of(id_prefix(second)),
        !id_prefix(second).is_prefix_of(id_prefix(first)),
    ensures
        !(listens_to(first, custom_id) && listens_to(second, custom_id)),
{
    // Two prefixes of one string: the shorter is a prefix of the longer.
    let a = id_prefix(first);
    let b = id_prefix(second);
    if listens_to(first, custom_id) && listens_to(second, custom_id) {
        if a.len() <= b.len() {
            assert(a.is_prefix_of(b));
        } else {
            assert(b.is_prefix_of(a));
        }
    }
}

/// The identifier of a button of one invocation names no button of any
/// other invocation.
pub proof fn lemma_foreign_buttons_unnamed(own: u64, other: u64, direction: Direction)
    requires
        own != other,
    ensures
        direction_of(own, button_id_of(other, direction)) is None,
{
    reveal_strlit("previous");
    reveal_strlit("next");
    let a = id_prefix(own);
    let b = id_prefix(other);
    let pressed = button_id_of(other, direction);
    let next = button_id_of(own, Direction::Next);
    let previous = button_id_of(own, Direction::Previous);
    if pressed == next {
        assert(pressed[pressed.len() - 1] == next[next.len() - 1]);
        assert(a =~= next.subrange(0, a.len() as int));
        assert(b =~= pressed.subrange(0, b.len() as int));
        lemma_decimal_injective(own as nat, other as nat);
    }
    if pressed == previous {
        assert(pressed[pressed.len() - 1] == previous[previous.len() - 1]);
        assert(a =~= previous.subrange(0, a.len() as int));
        assert(b =~= pressed.subrange(0, b.len() as int));
        lemma_decimal_injective(own as nat, other as nat);
    }
}

/// No press of a button of another invocation moves a session: whatever the
/// session does with it, its index stays, and a card it sends is the one on
/// show.
pub proof fn lemma_foreign_press_does_not_steer(
    session: SessionModel,
    other: u64,
    direction: Direction,
    at: int,
)
    requires
        session.invocation_id != other,
    ensures
        step(session, press_of(other, direction, at)).0.index == session.index,
        step(session, press_of(other, direction, at)).1 is Edit ==> step(
            session,
            press_of(other, direction, at),
        ).1 == ActionModel::Edit(session.cards[session.index]),
{
    lemma_foreign_buttons_unnamed(session.invocation_id, other, direction);
}

/// A press in time that the session listens to but that names neither of
/// its buttons leaves the index where it is and sends the card on show
/// once more.
pub proof fn lemma_unrecognized_press(session: SessionModel, custom_id: Seq<char>, at: int)
    requires
        !session.closed,
        listens_to(session.invocation_id, custom_id),
        direction_of(session.invocation_id, custom_id) is None,
        at < session.deadline,
    ensures
        step(session, EventModel::Press { custom_id, at }).0.index == session.index,
        step(session, EventModel::Press { custom_id, at }).1 == ActionModel::Edit(
            session.cards[session.index],
        ),
{
}

/// A closed session stays closed and sends nothing, whatever reaches it.
pub proof fn lemma_closed_is_final(session: SessionModel, event: EventModel)
    requires
        session.closed,
    ensures
        step(session, event) == (session, ActionModel::Ignore),
{
}

/// With no press in between, the wait that ends at or after the deadline
/// closes the session without a message.
pub proof fn lemma_idle_closes(session: SessionModel, at: int)
    requires
        !session.closed,
        at >= session.deadline,
    ensures
        step(session, EventModel::Idle { at }).0.closed,
        step(session, EventModel::Idle { at }).1 == ActionModel::Close,
{
}

} // verus!
