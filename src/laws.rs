//! Properties of the game that hold across several operations.
use crate::game::{initial_view, is_winning_stack, Command, GameView, NUMBER_OF_DISCKS};
use vstd::prelude::*;

verus! {

broadcast use vstd::seq_lib::group_to_multiset_ensures;

proof fn lemma_push_front_multiset(x: u16, s: Seq<u16>)
    ensures
        (seq![x] + s).to_multiset() =~= s.to_multiset().insert(x),
{
    let t = seq![x] + s;
    assert(t.remove(0) =~= s);
    assert(t[0] == x);
    assert(t.contains(x));
    assert(s.to_multiset() == t.to_multiset().remove(x));
}

proof fn lemma_drop_first_multiset(s: Seq<u16>)
    requires
        s.len() > 0,
    ensures
        s.to_multiset() =~= s.drop_first().to_multiset().insert(s[0]),
{
    assert(s =~= seq![s[0]] + s.drop_first());
    lemma_push_front_multiset(s[0], s.drop_first());
}

/// Moving the pointer either way and selecting never create nor destroy a
/// disc, and never leave an empty peg armed.
pub proof fn lemma_moves_keep_discs(v: GameView)
    requires
        v.armed_ok(),
    ensures
        v.advanced().discs() == v.discs(),
        v.advanced().armed_ok(),
        v.retreated().discs() == v.discs(),
        v.retreated().armed_ok(),
        v.activated().discs() == v.discs(),
        v.activated().armed_ok(),
        v.evaluated().discs() == v.discs(),
        v.evaluated().armed_ok(),
{
    if let Some(src) = v.armed {
        let s = v.stack(src);
        let moved = s[0];
        let lifted = v.with_stack(src, s.drop_first());
        let d = lifted.stack(v.pointer);
        lemma_drop_first_multiset(s);
        lemma_push_front_multiset(moved, d);
        assert(lifted.discs() =~= v.discs().remove(moved));
        assert(v.activated().discs() =~= lifted.discs().insert(moved));
    }
}

/// The discs in play are, by width, those of the starting position.
pub open spec fn holds_all_discs(v: GameView) -> bool {
    v.discs() == initial_view().discs()
}

/// However the game is driven, the same discs stay in play, all four of
/// them, and an armed peg always holds a disc.
pub proof fn lemma_disc_count_invariant(v: GameView, cmds: Seq<Command>)
    requires
        v.armed_ok(),
        holds_all_discs(v),
    ensures
        v.after_all(cmds).armed_ok(),
        holds_all_discs(v.after_all(cmds)),
        v.after_all(cmds).disc_count() == NUMBER_OF_DISCKS,
    decreases cmds.len(),
{
    if cmds.len() == 0 {
        let i = initial_view();
        assert(i.discs().len() == 4) by {
            assert(i.left.to_multiset().len() == 0);
            assert(i.right.to_multiset().len() == 0);
            assert(i.middle.to_multiset().len() == 4);
        }
        assert(v.discs().len() == v.disc_count());
    } else {
        lemma_moves_keep_discs(v);
        lemma_moves_keep_discs(v.activated());
        lemma_disc_count_invariant(v.after(cmds[0]), cmds.drop_first());
    }
}

/// Selecting an empty peg with nothing armed changes nothing.
pub proof fn lemma_select_on_empty_is_noop(v: GameView)
    requires
        v.armed is None,
        v.stack(v.pointer).len() == 0,
    ensures
        v.activated() == v,
{
}

/// Pointer commands change the pointer and nothing else.
pub proof fn lemma_pointer_moves_only_move_pointer(v: GameView, moves: Seq<Command>)
    requires
        forall|i: int|
            0 <= i < moves.len() ==> #[trigger] moves[i] == Command::PointNext || moves[i]
                == Command::PointPrevious,
    ensures
        v.after_all(moves) == (GameView { pointer: v.after_all(moves).pointer, ..v }),
    decreases moves.len(),
{
    if moves.len() > 0 {
        assert(moves[0] == Command::PointNext || moves[0] == Command::PointPrevious);
        assert forall|i: int| 0 <= i < moves.drop_first().len() implies #[trigger] moves.drop_first()[i]
            == Command::PointNext || moves.drop_first()[i] == Command::PointPrevious by {
            assert(moves.drop_first()[i] == moves[i + 1]);
        }
        lemma_pointer_moves_only_move_pointer(v.after(moves[0]), moves.drop_first());
    }
}

/// Selecting a peg that holds a disc arms it; moving the pointer to another
/// peg and selecting again moves the top disc of the armed peg onto the
/// pointed one, and disarms.
pub proof fn lemma_arm_then_move(v: GameView, moves: Seq<Command>)
    requires
        !v.finished,
        v.armed is None,
        v.stack(v.pointer).len() > 0,
        forall|i: int|
            0 <= i < moves.len() ==> #[trigger] moves[i] == Command::PointNext || moves[i]
                == Command::PointPrevious,
        v.after(Command::Select).after_all(moves).pointer != v.pointer,
    ensures
        ({
            let src = v.pointer;
            let armed = v.after(Command::Select);
            let aimed = armed.after_all(moves);
            let dest = aimed.pointer;
            let moved = aimed.after(Command::Select);
            &&& armed.armed == Some(src)
            &&& moved.stack(src) == v.stack(src).drop_first()
            &&& moved.stack(dest) == seq![v.stack(src)[0]] + v.stack(dest)
            &&& moved.stack(src).len() + 1 == v.stack(src).len()
            &&& moved.stack(dest).len() == v.stack(dest).len() + 1
            &&& moved.armed is None
        }),
{
    let armed = v.after(Command::Select);
    lemma_pointer_moves_only_move_pointer(armed, moves);
    assert(!armed.finished) by {
        if armed.finished {
            lemma_finished_ignores_pointer(armed, moves);
        }
    }
}

proof fn lemma_finished_ignores_pointer(v: GameView, moves: Seq<Command>)
    requires
        v.finished,
        forall|i: int|
            0 <= i < moves.len() ==> #[trigger] moves[i] == Command::PointNext || moves[i]
                == Command::PointPrevious,
    ensures
        v.after_all(moves) == v,
    decreases moves.len(),
{
    if moves.len() > 0 {
        assert(moves[0] == Command::PointNext || moves[0] == Command::PointPrevious);
        assert forall|i: int| 0 <= i < moves.drop_first().len() implies #[trigger] moves.drop_first()[i]
            == Command::PointNext || moves.drop_first()[i] == Command::PointPrevious by {
            assert(moves.drop_first()[i] == moves[i + 1]);
        }
        lemma_finished_ignores_pointer(v.after(moves[0]), moves.drop_first());
    }
}

/// Checking for a win twice gives what checking once gives.
pub proof fn lemma_win_check_idempotent(v: GameView)
    ensures
        v.evaluated().evaluated() == v.evaluated(),
{
}

/// With all four discs in play, a win leaves the middle peg empty and puts
/// every disc, in non-shrinking order from the top, on the left or the right
/// peg.
pub proof fn lemma_win_means_one_full_side(v: GameView)
    requires
        v.disc_count() == NUMBER_OF_DISCKS,
    ensures
        v.evaluated().finished <==> (is_winning_stack(v.left) || is_winning_stack(v.right)),
        v.evaluated().finished ==> v.middle.len() == 0,
        v.middle.len() > 0 ==> !v.evaluated().finished,
{
}

} // verus!
