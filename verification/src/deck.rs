//! The 20-card deck: a fixed enumeration of all (suit, value) pairs, and a
//! shuffled copy of it for the talon.

use vstd::prelude::*;
use vstd::multiset::Multiset;

use crate::card::Card;
use crate::card::ESuit;
use crate::card::EValue;
use crate::card::card_points;
use rand::seq::SliceRandom;

verus! {

/// The point value of a whole pile of cards: the sum over its cards.
pub open spec fn points_of(s: Seq<Card>) -> int
    decreases s.len(),
{
    if s.len() == 0 {
        0
    } else {
        points_of(s.drop_last()) + card_points(s.last())
    }
}

/// Every card scores between 2 (an Unter) and 11 (an Ace) points.
pub proof fn lemma_card_points_range(c: Card)
    ensures
        2 <= card_points(c) <= 11,
{
}

/// Pile points are non-negative and at most 11 per card.
pub proof fn lemma_points_bounds(s: Seq<Card>)
    ensures
        0 <= points_of(s) <= 11 * s.len(),
    decreases s.len(),
{
    if s.len() > 0 {
        lemma_points_bounds(s.drop_last());
        lemma_card_points_range(s.last());
    }
}

/// Appending a card adds its points.
pub proof fn lemma_points_push(s: Seq<Card>, c: Card)
    ensures
        points_of(s.push(c)) == points_of(s) + card_points(c),
{
    assert(s.push(c).drop_last() =~= s);
}

/// Removing a card subtracts its points.
pub proof fn lemma_points_remove(s: Seq<Card>, i: int)
    requires
        0 <= i < s.len(),
    ensures
        points_of(s.remove(i)) == points_of(s) - card_points(s[i]),
    decreases s.len(),
{
    if i == s.len() - 1 {
        assert(s.remove(i) =~= s.drop_last());
    } else {
        assert(s.remove(i).drop_last() =~= s.drop_last().remove(i));
        assert(s.remove(i).last() == s.last());
        assert(s.remove(i).len() > 0);
        lemma_points_remove(s.drop_last(), i);
    }
}

/// The points of a pile depend only on which cards it holds, not their order.
pub proof fn lemma_points_of_multiset(s1: Seq<Card>, s2: Seq<Card>)
    requires
        s1.to_multiset() == s2.to_multiset(),
    ensures
        points_of(s1) == points_of(s2),
    decreases s1.len(),
{
    broadcast use vstd::seq_lib::group_to_multiset_ensures;

    if s1.len() == 0 {
        assert(s1.to_multiset().len() == 0);
        assert(s2.to_multiset().len() == 0);
        assert(s2.len() == 0);
    } else {
        let c = s1.last();
        assert(s1.contains(c));
        assert(s2.to_multiset().count(c) > 0);
        assert(s2.contains(c));
        let j = choose|j: int| 0 <= j < s2.len() && s2[j] == c;
        assert(s1.drop_last() =~= s1.remove(s1.len() - 1));
        assert(s1.drop_last().to_multiset() == s1.to_multiset().remove(c));
        assert(s2.remove(j).to_multiset() == s2.to_multiset().remove(c));
        lemma_points_of_multiset(s1.drop_last(), s2.remove(j));
        lemma_points_remove(s2, j);
    }
}

/// The full deck in its fixed construction order: for each suit in turn,
/// the five values from Unter up to Ace.
pub open spec fn full_deck() -> Seq<Card> {
    seq![
        Card { suit: ESuit::Hearts, value: EValue::Unter },
        Card { suit: ESuit::Hearts, value: EValue::Ober },
        Card { suit: ESuit::Hearts, value: EValue::King },
        Card { suit: ESuit::Hearts, value: EValue::X },
        Card { suit: ESuit::Hearts, value: EValue::Ace },
        Card { suit: ESuit::Bells, value: EValue::Unter },
        Card { suit: ESuit::Bells, value: EValue::Ober },
        Card { suit: ESuit::Bells, value: EValue::King },
        Card { suit: ESuit::Bells, value: EValue::X },
        Card { suit: ESuit::Bells, value: EValue::Ace },
        Card { suit: ESuit::Acorns, value: EValue::Unter },
        Card { suit: ESuit::Acorns, value: EValue::Ober },
        Card { suit: ESuit::Acorns, value: EValue::King },
        Card { suit: ESuit::Acorns, value: EValue::X },
        Card { suit: ESuit::Acorns, value: EValue::Ace },
        Card { suit: ESuit::Leaves, value: EValue::Unter },
        Card { suit: ESuit::Leaves, value: EValue::Ober },
        Card { suit: ESuit::Leaves, value: EValue::King },
        Card { suit: ESuit::Leaves, value: EValue::X },
        Card { suit: ESuit::Leaves, value: EValue::Ace },
    ]
}

/// The deck as a multiset: the reference that every game state conserves.
pub open spec fn deck_mset() -> Multiset<Card> {
    full_deck().to_multiset()
}

/// The deck holds 20 distinct cards whose points sum to 120.
pub proof fn lemma_full_deck_facts()
    ensures
        full_deck().len() == 20,
        full_deck().no_duplicates(),
        points_of(full_deck()) == 120,
{
    reveal_with_fuel(points_of, 21);
    assert(points_of(full_deck()) == 120);
}

/// Each card occurs at most once in the deck multiset, and there are 20 in all.
pub proof fn lemma_deck_mset_facts()
    ensures
        deck_mset().len() == 20,
        forall|c: Card| deck_mset().count(c) <= 1,
{
    broadcast use vstd::seq_lib::group_to_multiset_ensures;

    lemma_full_deck_facts();
    full_deck().lemma_multiset_has_no_duplicates();
    assert forall|c: Card| deck_mset().count(c) <= 1 by {
        if deck_mset().count(c) > 0 {
            assert(deck_mset().contains(c));
        }
    }
}

/// A fresh, unshuffled deck: all 20 (suit, value) pairs in a fixed order.
pub fn get_deck() -> (r: Vec<Card>)
    ensures
        r@ == full_deck(),
{
    let r: Vec<Card> = vec![
        Card::new(ESuit::Hearts, EValue::Unter),
        Card::new(ESuit::Hearts, EValue::Ober),
        Card::new(ESuit::Hearts, EValue::King),
        Card::new(ESuit::Hearts, EValue::X),
        Card::new(ESuit::Hearts, EValue::Ace),
        Card::new(ESuit::Bells, EValue::Unter),
        Card::new(ESuit::Bells, EValue::Ober),
        Card::new(ESuit::Bells, EValue::King),
        Card::new(ESuit::Bells, EValue::X),
        Card::new(ESuit::Bells, EValue::Ace),
        Card::new(ESuit::Acorns, EValue::Unter),
        Card::new(ESuit::Acorns, EValue::Ober),
        Card::new(ESuit::Acorns, EValue::King),
        Card::new(ESuit::Acorns, EValue::X),
        Card::new(ESuit::Acorns, EValue::Ace),
        Card::new(ESuit::Leaves, EValue::Unter),
        Card::new(ESuit::Leaves, EValue::Ober),
        Card::new(ESuit::Leaves, EValue::King),
        Card::new(ESuit::Leaves, EValue::X),
        Card::new(ESuit::Leaves, EValue::Ace),
    ];
    proof {
        assert(r@ =~= full_deck());
    }
    r
}

/// Relies on rand's `SliceRandom::shuffle`: a Fisher-Yates shuffle that
/// permutes the slice in place, so the result holds exactly the cards it
/// was given. The order of the result is random and nothing is stated of it.
#[verifier::external_body]
fn shuffle_cards(cards: Vec<Card>) -> (r: Vec<Card>)
    ensures
        r@.to_multiset() == cards@.to_multiset(),
        r@.len() == cards@.len(),
{
    let mut r = cards;
    r.shuffle(&mut rand::thread_rng());
    r
}

/// A fresh deck in a uniformly random order.
pub fn get_deck_shuffled() -> (r: Vec<Card>)
    ensures
        r@.to_multiset() == deck_mset(),
        r@.len() == 20,
{
    let deck = get_deck();
    shuffle_cards(deck)
}

} // verus!
