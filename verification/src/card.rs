//! Cards and the players that hold them.

use vstd::prelude::*;

verus! {

/// The two sides of a play-through: the human player and the computer opponent.
#[derive(Debug, Clone, Copy, PartialEq, Eq, Structural)]
pub enum EPlayer {
    PC,
    NPC,
}

/// The five card values of the deck, ordered (and scored) by their point
/// value: Unter 2, Ober 3, King 4, X 10, Ace 11. The derived order follows
/// the declaration and hence the points; contracts compare by
/// [`value_points`].
#[derive(Debug, Clone, Copy, PartialEq, Eq, PartialOrd, Ord, Structural)]
pub enum EValue {
    Unter,
    Ober,
    King,
    X,
    Ace,
}

/// The four suits. Suits are unordered; only equality with the lead or the
/// trump suit matters for trick resolution.
#[derive(Debug, Clone, Copy, PartialEq, Eq, Structural)]
pub enum ESuit {
    Hearts,
    Bells,
    Acorns,
    Leaves,
}

/// An immutable (suit, value) pair.
#[derive(Debug, Clone, Copy, PartialEq, Eq, Structural)]
pub struct Card {
    pub suit: ESuit,
    pub value: EValue,
}

/// The point value of a card value; it doubles as the rank used to compare
/// two cards of the same suit.
pub open spec fn value_points(v: EValue) -> int {
    match v {
        EValue::Unter => 2,
        EValue::Ober => 3,
        EValue::King => 4,
        EValue::X => 10,
        EValue::Ace => 11,
    }
}

/// The point value of a card: the point value of its value.
pub open spec fn card_points(c: Card) -> int {
    value_points(c.value)
}

/// The display label of a player.
pub open spec fn player_label(p: EPlayer) -> Seq<char> {
    match p {
        EPlayer::PC => "PC"@,
        EPlayer::NPC => "NPC"@,
    }
}

/// The display label of a suit.
pub open spec fn suit_label(s: ESuit) -> Seq<char> {
    match s {
        ESuit::Hearts => "Hearts"@,
        ESuit::Bells => "Bells"@,
        ESuit::Acorns => "Acorns"@,
        ESuit::Leaves => "Leaves"@,
    }
}

/// The display label of a card value.
pub open spec fn value_label(v: EValue) -> Seq<char> {
    match v {
        EValue::Unter => "Unter"@,
        EValue::Ober => "Ober"@,
        EValue::King => "King"@,
        EValue::X => "X"@,
        EValue::Ace => "Ace"@,
    }
}

/// The display label of a card, `"<Suit>.<Value>"`. Within one deck it is
/// unique to the card, so the front-ends also use it to identify a chosen
/// card.
pub open spec fn card_label(c: Card) -> Seq<char> {
    match (c.suit, c.value) {
        (ESuit::Hearts, EValue::Unter) => "Hearts.Unter"@,
        (ESuit::Hearts, EValue::Ober) => "Hearts.Ober"@,
        (ESuit::Hearts, EValue::King) => "Hearts.King"@,
        (ESuit::Hearts, EValue::X) => "Hearts.X"@,
        (ESuit::Hearts, EValue::Ace) => "Hearts.Ace"@,
        (ESuit::Bells, EValue::Unter) => "Bells.Unter"@,
        (ESuit::Bells, EValue::Ober) => "Bells.Ober"@,
        (ESuit::Bells, EValue::King) => "Bells.King"@,
        (ESuit::Bells, EValue::X) => "Bells.X"@,
        (ESuit::Bells, EValue::Ace) => "Bells.Ace"@,
        (ESuit::Acorns, EValue::Unter) => "Acorns.Unter"@,
        (ESuit::Acorns, EValue::Ober) => "Acorns.Ober"@,
        (ESuit::Acorns, EValue::King) => "Acorns.King"@,
        (ESuit::Acorns, EValue::X) => "Acorns.X"@,
        (ESuit::Acorns, EValue::Ace) => "Acorns.Ace"@,
        (ESuit::Leaves, EValue::Unter) => "Leaves.Unter"@,
        (ESuit::Leaves, EValue::Ober) => "Leaves.Ober"@,
        (ESuit::Leaves, EValue::King) => "Leaves.King"@,
        (ESuit::Leaves, EValue::X) => "Leaves.X"@,
        (ESuit::Leaves, EValue::Ace) => "Leaves.Ace"@,
    }
}

/// The other side.
pub open spec fn opponent_of(player: EPlayer) -> EPlayer {
    match player {
        EPlayer::PC => EPlayer::NPC,
        EPlayer::NPC => EPlayer::PC,
    }
}

/// The other side: the computer for the human and the human for the computer.
pub fn get_opponent(player: EPlayer) -> (r: EPlayer)
    ensures
        r == opponent_of(player),
{
    match player {
        EPlayer::PC => EPlayer::NPC,
        EPlayer::NPC => EPlayer::PC,
    }
}

impl EPlayer {
    /// The display label of this player.
    pub fn label(&self) -> (r: &'static str)
        ensures
            r@ == player_label(*self),
    {
        match self {
            EPlayer::PC => "PC",
            EPlayer::NPC => "NPC",
        }
    }
}

impl ESuit {
    /// The display label of this suit.
    pub fn label(&self) -> (r: &'static str)
        ensures
            r@ == suit_label(*self),
    {
        match self {
            ESuit::Hearts => "Hearts",
            ESuit::Bells => "Bells",
            ESuit::Acorns => "Acorns",
            ESuit::Leaves => "Leaves",
        }
    }
}

impl EValue {
    /// The display label of this card value.
    pub fn label(&self) -> (r: &'static str)
        ensures
            r@ == value_label(*self),
    {
        match self {
            EValue::Unter => "Unter",
            EValue::Ober => "Ober",
            EValue::King => "King",
            EValue::X => "X",
            EValue::Ace => "Ace",
        }
    }

    /// The point value of this card value, also its rank: a value beats
    /// another value of the same suit exactly when its points are higher.
    pub fn points(&self) -> (r: usize)
        ensures
            r == value_points(*self),
    {
        match self {
            EValue::Unter => 2,
            EValue::Ober => 3,
            EValue::King => 4,
            EValue::X => 10,
            EValue::Ace => 11,
        }
    }
}

impl Card {
    pub fn new(suit: ESuit, value: EValue) -> (r: Self)
        ensures
            r == (Card { suit, value }),
    {
        Self { suit, value }
    }

    /// The point value of this card.
    pub fn points(&self) -> (r: usize)
        ensures
            r == card_points(*self),
    {
        self.value.points()
    }

    /// The display label of this card, `"<Suit>.<Value>"`: the form the
    /// front-ends show and accept back as the identity of a chosen card.
    pub fn label(&self) -> (r: &'static str)
        ensures
            r@ == card_label(*self),
    {
        match (self.suit, self.value) {
            (ESuit::Hearts, EValue::Unter) => "Hearts.Unter",
            (ESuit::Hearts, EValue::Ober) => "Hearts.Ober",
            (ESuit::Hearts, EValue::King) => "Hearts.King",
            (ESuit::Hearts, EValue::X) => "Hearts.X",
            (ESuit::Hearts, EValue::Ace) => "Hearts.Ace",
            (ESuit::Bells, EValue::Unter) => "Bells.Unter",
            (ESuit::Bells, EValue::Ober) => "Bells.Ober",
            (ESuit::Bells, EValue::King) => "Bells.King",
            (ESuit::Bells, EValue::X) => "Bells.X",
            (ESuit::Bells, EValue::Ace) => "Bells.Ace",
            (ESuit::Acorns, EValue::Unter) => "Acorns.Unter",
            (ESuit::Acorns, EValue::Ober) => "Acorns.Ober",
            (ESuit::Acorns, EValue::King) => "Acorns.King",
            (ESuit::Acorns, EValue::X) => "Acorns.X",
            (ESuit::Acorns, EValue::Ace) => "Acorns.Ace",
            (ESuit::Leaves, EValue::Unter) => "Leaves.Unter",
            (ESuit::Leaves, EValue::Ober) => "Leaves.Ober",
            (ESuit::Leaves, EValue::King) => "Leaves.King",
            (ESuit::Leaves, EValue::X) => "Leaves.X",
            (ESuit::Leaves, EValue::Ace) => "Leaves.Ace",
        }
    }
}

} // verus!
