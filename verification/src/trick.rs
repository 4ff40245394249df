//! Trick resolution: whether a card beats the card it was played on.

use vstd::prelude::*;

use crate::card::Card;
use crate::card::EPlayer;
use crate::card::ESuit;
use crate::card::opponent_of;
use crate::card::value_points;

verus! {

/// Whether `card` beats `played_card` under `trump`: a card of the lead suit
/// wins on higher rank alone; a card of another suit wins exactly when it is
/// trump. A pure function of the triple, so resolution is deterministic.
pub open spec fn spec_wins(card: Card, played_card: Card, trump: ESuit) -> bool {
    if card.suit == played_card.suit {
        value_points(card.value) > value_points(played_card.value)
    } else {
        card.suit == trump
    }
}

/// Whether `card` (the follower's card) beats `played_card` (the led card)
/// given the trump suit.
pub fn wins(card: &Card, played_card: &Card, trump: ESuit) -> (r: bool)
    ensures
        r == spec_wins(*card, *played_card, trump),
{
    if card.suit == played_card.suit {
        card.value.points() > played_card.value.points()
    } else {
        card.suit == trump
    }
}

/// The winner of a completed trick: the follower if their card beats the led
/// card, otherwise the leader (`forehand`).
pub open spec fn trick_winner(
    leader_card: Card,
    follower_card: Card,
    trump: ESuit,
    forehand: EPlayer,
) -> EPlayer {
    if spec_wins(follower_card, leader_card, trump) {
        opponent_of(forehand)
    } else {
        forehand
    }
}

} // verus!
