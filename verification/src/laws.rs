//! The engine's global guarantees, stated once over the model and proved
//! from the invariants that every operation of [`crate::game::Game`]
//! preserves.

use vstd::prelude::*;

use crate::card::Card;
use crate::deck::deck_mset;
use crate::deck::full_deck;
use crate::deck::lemma_deck_mset_facts;
use crate::deck::points_of;
use crate::model::EGameState;
use crate::model::GameModel;

verus! {

/// Law: in every completed game the two stacks together score exactly the
/// 120 points of the deck.
pub proof fn lemma_completed_game_points(m: GameModel)
    requires
        m.wf(),
        m.state == EGameState::Terminal,
    ensures
        points_of(m.player_stack) + points_of(m.npc_stack) == 120,
{
    assert(points_of(m.talon) == 0);
    assert(points_of(m.player_hand) == 0);
    assert(points_of(m.npc_hand) == 0);
}

/// Law: every completed game ends with both hands empty and each of the 20
/// deck cards lying in exactly one of the two stacks.
pub proof fn lemma_completed_game_cards(m: GameModel)
    requires
        m.wf(),
        m.state == EGameState::Terminal,
    ensures
        m.player_hand.len() == 0,
        m.npc_hand.len() == 0,
        m.player_stack.to_multiset().add(m.npc_stack.to_multiset()) == deck_mset(),
        forall|c: Card|
            full_deck().contains(c) ==> m.player_stack.to_multiset().count(c)
                + m.npc_stack.to_multiset().count(c) == 1,
{
    broadcast use vstd::seq_lib::group_to_multiset_ensures;
    broadcast use vstd::multiset::lemma_multiset_empty_len;

    assert(m.talon.to_multiset().len() == 0);
    assert(m.player_hand.to_multiset().len() == 0);
    assert(m.npc_hand.to_multiset().len() == 0);
    assert(m.player_stack.to_multiset().add(m.npc_stack.to_multiset()) =~= m.cards());
    lemma_deck_mset_facts();
    assert forall|c: Card| full_deck().contains(c) implies m.player_stack.to_multiset().count(c)
        + m.npc_stack.to_multiset().count(c) == 1 by {
        assert(deck_mset().count(c) > 0);
        assert(deck_mset().count(c) <= 1);
    }
}

/// Law: trick resolution is a pure function of the recorded trick, the
/// trump suit and who led. Two games that agree on those resolve to the
/// same winner, so re-evaluating a recorded trick never changes its
/// outcome.
pub proof fn lemma_trick_resolution_deterministic(m1: GameModel, m2: GameModel)
    requires
        m1.trick == m2.trick,
        m1.trump_suit == m2.trump_suit,
        m1.forehand == m2.forehand,
    ensures
        m1.trick_winner_now() == m2.trick_winner_now(),
{
}

} // verus!
