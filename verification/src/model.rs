//! The mathematical model of a game state and of every transition the
//! engine performs. The executable [`crate::game::Game`] views into a
//! [`GameModel`], and each engine operation is specified as equal to one of
//! the transition functions below.

use vstd::prelude::*;
use vstd::multiset::Multiset;

use crate::card::Card;
use crate::card::EPlayer;
use crate::card::ESuit;
use crate::card::card_points;
use crate::card::opponent_of;
use crate::deck::deck_mset;
use crate::deck::lemma_points_push;
use crate::deck::points_of;
use crate::trick::trick_winner;

verus! {

/// The states of the turn machine. A game starts in `NotStarted`; dealing
/// moves it to the forehand's turn; recording the second trick card moves it
/// to `Evaluate`; scoring moves it to the trick winner's turn, or to
/// `Terminal` once both hands are empty.
#[derive(Debug, Clone, Copy, PartialEq, Eq, Structural)]
pub enum EGameState {
    NotStarted,
    PlayerTurn,
    NpcTurn,
    Evaluate,
    Terminal,
}

/// The turn state in which `player` acts.
pub open spec fn turn_state(player: EPlayer) -> EGameState {
    match player {
        EPlayer::PC => EGameState::PlayerTurn,
        EPlayer::NPC => EGameState::NpcTurn,
    }
}

/// The winner of a finished game: whoever scored more than 66 points, or
/// nobody (a draw) when neither side did.
pub open spec fn end_winner(player_points: int, npc_points: int) -> Option<EPlayer> {
    if player_points > 66 {
        Some(EPlayer::PC)
    } else if npc_points > 66 {
        Some(EPlayer::NPC)
    } else {
        None
    }
}

/// The cards a trick slot holds, as a multiset: one card or none.
pub open spec fn opt_card_mset(o: Option<Card>) -> Multiset<Card> {
    match o {
        Some(c) => Multiset::singleton(c),
        None => Multiset::empty(),
    }
}

/// The points a trick slot holds.
pub open spec fn opt_card_points(o: Option<Card>) -> int {
    match o {
        Some(c) => card_points(c),
        None => 0,
    }
}

/// The abstract state of a game: the executable game with every pile of
/// cards read as a sequence.
#[verifier::ext_equal]
pub struct GameModel {
    pub trump_suit: Option<ESuit>,
    pub trump_card: Option<Card>,
    pub talon: Seq<Card>,
    pub trick: (Option<Card>, Option<Card>),
    pub player_stack: Seq<Card>,
    pub player_hand: Seq<Card>,
    pub npc_stack: Seq<Card>,
    pub npc_hand: Seq<Card>,
    pub forehand: Option<EPlayer>,
    pub winner: Option<EPlayer>,
    pub state: EGameState,
}

impl GameModel {
    /// The given player's hand.
    pub open spec fn hand(self, player: EPlayer) -> Seq<Card> {
        match player {
            EPlayer::PC => self.player_hand,
            EPlayer::NPC => self.npc_hand,
        }
    }

    /// The given player's stack of won cards.
    pub open spec fn stack(self, player: EPlayer) -> Seq<Card> {
        match player {
            EPlayer::PC => self.player_stack,
            EPlayer::NPC => self.npc_stack,
        }
    }

    /// Every card the game currently holds, over all its piles: the talon,
    /// the turned-up trump card, both hands, both stacks and the trick.
    pub open spec fn cards(self) -> Multiset<Card> {
        self.talon.to_multiset().add(self.player_hand.to_multiset()).add(
            self.npc_hand.to_multiset(),
        ).add(self.player_stack.to_multiset()).add(self.npc_stack.to_multiset()).add(
            opt_card_mset(self.trump_card),
        ).add(opt_card_mset(self.trick.0)).add(opt_card_mset(self.trick.1))
    }

    /// The points of every card the game currently holds.
    pub open spec fn total_points(self) -> int {
        points_of(self.talon) + points_of(self.player_hand) + points_of(self.npc_hand)
            + points_of(self.player_stack) + points_of(self.npc_stack) + opt_card_points(
            self.trump_card,
        ) + opt_card_points(self.trick.0) + opt_card_points(self.trick.1)
    }

    /// Conservation: the game always holds exactly the 20 deck cards, and
    /// with them all 120 points.
    pub open spec fn inv_cards(self) -> bool {
        &&& self.cards() == deck_mset()
        &&& self.total_points() == 120
    }

    /// The trump card, once turned up, fixes the trump suit; it sits under
    /// an odd talon, so the two draws after a trick never run dry; and once
    /// it has been drawn into a hand, the talon is already empty.
    pub open spec fn inv_trump(self) -> bool {
        &&& (self.trump_card matches Some(c) ==> self.trump_suit == Some(c.suit))
        &&& (self.state != EGameState::NotStarted ==> self.trump_suit is Some)
        &&& (self.trump_card is Some ==> self.talon.len() % 2 == 1)
        &&& (self.state != EGameState::NotStarted && self.trump_card is None ==> self.talon.len()
            == 0)
    }

    /// The trick fills in order: first the lead, then the follow. While a
    /// lead waits for its answer, the leader is recorded as forehand, it is
    /// the opponent's turn, and the leader's hand is one card short.
    pub open spec fn inv_trick(self) -> bool {
        &&& (self.trick.1 is Some ==> self.trick.0 is Some)
        &&& (self.trick.0 is Some ==> self.forehand is Some && self.state
            != EGameState::NotStarted)
        &&& (self.trick.0 is Some && self.trick.1 is None ==> {
            let leader = self.forehand->0;
            &&& self.hand(leader).len() + 1 == self.hand(opponent_of(leader)).len()
            &&& self.state == turn_state(opponent_of(leader))
        })
        &&& (self.trick.0 is None ==> self.trick.1 is None && self.player_hand.len()
            == self.npc_hand.len())
        &&& (self.trick.1 is Some ==> self.player_hand.len() == self.npc_hand.len())
    }

    /// What each machine state guarantees of the rest of the game.
    pub open spec fn inv_state(self) -> bool {
        match self.state {
            EGameState::NotStarted => {
                &&& self.talon.len() == 20
                &&& self.player_hand.len() == 0
                &&& self.npc_hand.len() == 0
                &&& self.player_stack.len() == 0
                &&& self.npc_stack.len() == 0
                &&& self.trick.0 is None
                &&& self.trick.1 is None
                &&& self.trump_card is None
                &&& self.trump_suit is None
                &&& self.forehand is None
                &&& self.winner is None
            },
            EGameState::PlayerTurn => {
                &&& self.player_hand.len() >= 1
                &&& self.trick.1 is None
                &&& self.winner is None
            },
            EGameState::NpcTurn => {
                &&& self.npc_hand.len() >= 1
                &&& self.trick.1 is None
                &&& self.winner is None
            },
            EGameState::Evaluate => {
                &&& self.trick.0 is Some
                &&& self.trick.1 is Some
                &&& self.winner is None
            },
            EGameState::Terminal => {
                &&& self.player_hand.len() == 0
                &&& self.npc_hand.len() == 0
                &&& self.talon.len() == 0
                &&& self.trump_card is None
                &&& self.trick.0 is None
                &&& self.trick.1 is None
                &&& self.winner == end_winner(
                    points_of(self.player_stack),
                    points_of(self.npc_stack),
                )
            },
        }
    }

    /// Well-formedness: what `Game::new` establishes and every engine
    /// operation preserves.
    pub open spec fn wf(self) -> bool {
        &&& self.inv_cards()
        &&& self.inv_trump()
        &&& self.inv_trick()
        &&& self.inv_state()
    }

    /// The game with the given machine state.
    pub open spec fn with_state(self, state: EGameState) -> GameModel {
        GameModel { state, ..self }
    }

    /// The game with `card` appended to the given player's hand.
    pub open spec fn give_to_hand(self, to: EPlayer, card: Card) -> GameModel {
        match to {
            EPlayer::PC => GameModel { player_hand: self.player_hand.push(card), ..self },
            EPlayer::NPC => GameModel { npc_hand: self.npc_hand.push(card), ..self },
        }
    }

    /// One card dealt to `to`: the top of the talon, or the turned-up trump
    /// card once the talon is empty.
    pub open spec fn deal_one(self, to: EPlayer) -> GameModel
        recommends
            self.talon.len() > 0 || self.trump_card is Some,
    {
        if self.talon.len() > 0 {
            GameModel { talon: self.talon.drop_last(), ..self }.give_to_hand(
                to,
                self.talon.last(),
            )
        } else {
            GameModel { trump_card: None, ..self }.give_to_hand(to, self.trump_card->0)
        }
    }

    /// The top of the talon turned up as the trump card, fixing the trump
    /// suit for the rest of the game.
    pub open spec fn reveal_trump(self) -> GameModel
        recommends
            self.talon.len() > 0,
    {
        GameModel {
            talon: self.talon.drop_last(),
            trump_card: Some(self.talon.last()),
            trump_suit: Some(self.talon.last().suit),
            ..self
        }
    }

    /// The whole opening deal: three cards to the forehand, three to the
    /// dealer, the trump turned up, then two more to each in the same order,
    /// and the machine set to the forehand's turn.
    pub open spec fn start_deal(self, forehand_is_npc: bool) -> GameModel {
        let first = if forehand_is_npc {
            EPlayer::NPC
        } else {
            EPlayer::PC
        };
        let dealer = opponent_of(first);
        self.deal_one(first).deal_one(first).deal_one(first).deal_one(dealer).deal_one(
            dealer,
        ).deal_one(dealer).reveal_trump().deal_one(first).deal_one(first).deal_one(
            dealer,
        ).deal_one(dealer).with_state(turn_state(first))
    }

    /// One card recorded into the trick. An empty trick takes it as the
    /// lead: the player becomes forehand and the opponent is next. A trick
    /// with a lead takes it as the follow, and evaluation is next.
    pub open spec fn play_one(self, card: Card, player: EPlayer) -> GameModel {
        if self.trick.0 is None {
            GameModel {
                trick: (Some(card), self.trick.1),
                forehand: Some(player),
                state: turn_state(opponent_of(player)),
                ..self
            }
        } else {
            GameModel { trick: (self.trick.0, Some(card)), state: EGameState::Evaluate, ..self }
        }
    }

    /// The given player's hand with the card at `i` taken out, the way
    /// `Vec::swap_remove` takes it: the last card moves into its place.
    pub open spec fn remove_from_hand(self, player: EPlayer, i: int) -> GameModel
        recommends
            0 <= i < self.hand(player).len(),
    {
        let h = self.hand(player).update(i, self.hand(player).last()).drop_last();
        match player {
            EPlayer::PC => GameModel { player_hand: h, ..self },
            EPlayer::NPC => GameModel { npc_hand: h, ..self },
        }
    }

    /// The card at `i` taken out of the player's hand and recorded into the
    /// trick.
    pub open spec fn hand_played(self, player: EPlayer, i: int) -> GameModel
        recommends
            0 <= i < self.hand(player).len(),
    {
        self.remove_from_hand(player, i).play_one(self.hand(player)[i], player)
    }

    /// Both trick cards moved to the winner's stack, lead first, and the
    /// trick cleared.
    pub open spec fn give_trick(self, winner: EPlayer) -> GameModel
        recommends
            self.trick.0 is Some && self.trick.1 is Some,
    {
        let t0 = self.trick.0->0;
        let t1 = self.trick.1->0;
        match winner {
            EPlayer::PC => GameModel {
                player_stack: self.player_stack.push(t0).push(t1),
                trick: (None, None),
                ..self
            },
            EPlayer::NPC => GameModel {
                npc_stack: self.npc_stack.push(t0).push(t1),
                trick: (None, None),
                ..self
            },
        }
    }

    /// The winner of the trick now waiting in `Evaluate`.
    pub open spec fn trick_winner_now(self) -> EPlayer
        recommends
            self.trick.0 is Some && self.trick.1 is Some && self.trump_suit is Some
                && self.forehand is Some,
    {
        trick_winner(self.trick.0->0, self.trick.1->0, self.trump_suit->0, self.forehand->0)
    }

    /// The whole evaluation step: the trick goes to its winner's stack; if
    /// the trump card is still out, the winner draws first and the loser
    /// second; then the game either ends, with the winner settled by the
    /// 66-point threshold, or continues with the trick winner leading.
    pub open spec fn eval_step(self) -> GameModel
        recommends
            self.wf() && self.state == EGameState::Evaluate,
    {
        let w = self.trick_winner_now();
        let taken = self.give_trick(w);
        let drawn = if taken.trump_card is Some {
            taken.deal_one(w).deal_one(opponent_of(w))
        } else {
            taken
        };
        if drawn.player_hand.len() == 0 && drawn.npc_hand.len() == 0 {
            GameModel {
                winner: end_winner(points_of(drawn.player_stack), points_of(drawn.npc_stack)),
                state: EGameState::Terminal,
                ..drawn
            }
        } else {
            drawn.with_state(turn_state(w))
        }
    }

    /// One turn of the machine: the computer plays the last card of its
    /// hand, a waiting trick is evaluated, and every other state is left
    /// untouched.
    pub open spec fn step(self) -> GameModel {
        match self.state {
            EGameState::NpcTurn => self.hand_played(
                EPlayer::NPC,
                self.npc_hand.len() - 1,
            ),
            EGameState::Evaluate => self.eval_step(),
            _ => self,
        }
    }

    /// Whether playing the card at `index` of the player's hand would break
    /// the follow-suit rule (Farbzwang): the rule is checked only once the
    /// trump card has been drawn, and is broken when the card does not match
    /// the led suit although another card of the hand does. The engine only
    /// reports the violation; the play itself still proceeds.
    pub open spec fn follow_suit_violation(self, index: int) -> bool
        recommends
            0 <= index < self.player_hand.len(),
    {
        &&& self.trump_card is None
        &&& self.trick.0 is Some
        &&& self.player_hand[index].suit != self.trick.0->0.suit
        &&& exists|j: int|
            0 <= j < self.player_hand.len() && j != index && self.player_hand[j].suit
                == self.trick.0->0.suit
    }

    /// What must hold of the game and of a card about to be recorded into
    /// the trick: the game together with that card is conserved, it is the
    /// turn of the one playing it, and the hands are a card short on the
    /// right side. `remove_from_hand` establishes this from a well-formed
    /// turn state, and `play_one` restores well-formedness from it.
    pub open spec fn wf_play(self, card: Card, player: EPlayer) -> bool {
        &&& self.cards().insert(card) == deck_mset()
        &&& self.total_points() + card_points(card) == 120
        &&& self.inv_trump()
        &&& self.state == turn_state(player)
        &&& self.winner is None
        &&& self.trick.1 is None
        &&& (self.trick.0 is None ==> self.hand(player).len() + 1 == self.hand(
            opponent_of(player),
        ).len())
        &&& (self.trick.0 is Some ==> self.forehand == Some(opponent_of(player))
            && self.player_hand.len() == self.npc_hand.len())
    }
}

/// Dealing one card moves it from the talon (or the trump slot) into a hand
/// and touches nothing else: the cards and points of the game are conserved.
pub proof fn lemma_deal_one(m: GameModel, to: EPlayer)
    requires
        m.talon.len() > 0 || m.trump_card is Some,
    ensures
        m.deal_one(to).cards() == m.cards(),
        m.deal_one(to).total_points() == m.total_points(),
        m.deal_one(to).hand(to).len() == m.hand(to).len() + 1,
        m.deal_one(to).hand(opponent_of(to)) == m.hand(opponent_of(to)),
        m.deal_one(to).player_stack == m.player_stack,
        m.deal_one(to).npc_stack == m.npc_stack,
        m.deal_one(to).trick == m.trick,
        m.deal_one(to).state == m.state,
        m.deal_one(to).forehand == m.forehand,
        m.deal_one(to).winner == m.winner,
        m.deal_one(to).trump_suit == m.trump_suit,
        m.talon.len() > 0 ==> m.deal_one(to).talon.len() == m.talon.len() - 1
            && m.deal_one(to).trump_card == m.trump_card,
        m.talon.len() == 0 ==> m.deal_one(to).talon == m.talon && m.deal_one(to).trump_card
            is None,
{
    broadcast use vstd::seq_lib::group_to_multiset_ensures;

    let r = m.deal_one(to);
    if m.talon.len() > 0 {
        let c = m.talon.last();
        assert(m.talon.drop_last() =~= m.talon.remove(m.talon.len() - 1));
        assert(m.talon.drop_last().to_multiset() == m.talon.to_multiset().remove(c));
        assert(m.talon.contains(c));
        assert(m.talon.to_multiset().count(c) > 0);
        assert(r.hand(to).to_multiset() == m.hand(to).to_multiset().insert(c));
        assert(r.cards() =~= m.cards());
        assert(points_of(m.talon) == points_of(m.talon.drop_last()) + card_points(c));
        lemma_points_push(m.hand(to), c);
    } else {
        let c = m.trump_card->0;
        assert(r.hand(to).to_multiset() == m.hand(to).to_multiset().insert(c));
        assert(r.cards() =~= m.cards());
        lemma_points_push(m.hand(to), c);
    }
}

/// Turning up the trump card moves the top of the talon into the trump slot
/// and touches nothing else.
pub proof fn lemma_reveal_trump(m: GameModel)
    requires
        m.talon.len() > 0,
        m.trump_card is None,
    ensures
        m.reveal_trump().cards() == m.cards(),
        m.reveal_trump().total_points() == m.total_points(),
        m.reveal_trump().talon.len() == m.talon.len() - 1,
        m.reveal_trump().trump_card == Some(m.talon.last()),
        m.reveal_trump().trump_suit == Some(m.talon.last().suit),
        m.reveal_trump().player_hand == m.player_hand,
        m.reveal_trump().npc_hand == m.npc_hand,
        m.reveal_trump().player_stack == m.player_stack,
        m.reveal_trump().npc_stack == m.npc_stack,
        m.reveal_trump().trick == m.trick,
        m.reveal_trump().state == m.state,
        m.reveal_trump().forehand == m.forehand,
        m.reveal_trump().winner == m.winner,
{
    broadcast use vstd::seq_lib::group_to_multiset_ensures;

    let c = m.talon.last();
    assert(m.talon.drop_last() =~= m.talon.remove(m.talon.len() - 1));
    assert(m.talon.drop_last().to_multiset() == m.talon.to_multiset().remove(c));
    assert(m.talon.contains(c));
    assert(m.talon.to_multiset().count(c) > 0);
    assert(m.reveal_trump().cards() =~= m.cards());
    assert(points_of(m.talon) == points_of(m.talon.drop_last()) + card_points(c));
}

/// Recording a card into the trick of a game that is well formed but for
/// that card restores well-formedness.
pub proof fn lemma_play_one(m: GameModel, card: Card, player: EPlayer)
    requires
        m.wf_play(card, player),
    ensures
        m.play_one(card, player).wf(),
        m.trick.0 is None ==> m.play_one(card, player).state == turn_state(opponent_of(player)),
        m.trick.0 is Some ==> m.play_one(card, player).state == EGameState::Evaluate,
{
    let r = m.play_one(card, player);
    if m.trick.0 is None {
        assert(r.cards() =~= m.cards().insert(card));
        assert(r.total_points() == m.total_points() + card_points(card));
    } else {
        assert(r.cards() =~= m.cards().insert(card));
        assert(r.total_points() == m.total_points() + card_points(card));
    }
}

/// Taking a card out of a pile the way `Vec::swap_remove` does removes
/// exactly that card and its points.
pub proof fn lemma_swap_remove_pile(h: Seq<Card>, i: int)
    requires
        0 <= i < h.len(),
    ensures
        h.update(i, h.last()).drop_last().to_multiset() == h.to_multiset().remove(h[i]),
        points_of(h.update(i, h.last()).drop_last()) == points_of(h) - card_points(h[i]),
        h.update(i, h.last()).drop_last().len() == h.len() - 1,
{
    broadcast use vstd::seq_lib::group_to_multiset_ensures;

    let c = h[i];
    let updated = h.update(i, h.last());
    let h2 = updated.drop_last();
    assert(h2 =~= updated.remove(updated.len() - 1));
    assert(updated.to_multiset() == h.to_multiset().insert(h.last()).remove(c));
    assert(updated.last() == h.last());
    assert(h.contains(h.last()));
    assert(h.to_multiset().count(h.last()) > 0);
    assert(h.contains(c));
    assert(h.to_multiset().count(c) > 0);
    assert(h2.to_multiset() == updated.to_multiset().remove(h.last()));
    assert(h2.to_multiset() =~= h.to_multiset().remove(c));
    assert(h2.to_multiset() =~= h.remove(i).to_multiset());
    crate::deck::lemma_points_of_multiset(h2, h.remove(i));
    crate::deck::lemma_points_remove(h, i);
}

/// Taking a card out of the hand of the player whose turn it is leaves a
/// game that is well formed but for that card.
pub proof fn lemma_remove_from_hand(m: GameModel, player: EPlayer, i: int)
    requires
        m.wf(),
        m.state == turn_state(player),
        0 <= i < m.hand(player).len(),
    ensures
        m.remove_from_hand(player, i).wf_play(m.hand(player)[i], player),
        m.remove_from_hand(player, i).hand(player) == m.hand(player).update(
            i,
            m.hand(player).last(),
        ).drop_last(),
{
    broadcast use vstd::seq_lib::group_to_multiset_ensures;

    let r = m.remove_from_hand(player, i);
    let h = m.hand(player);
    let c = h[i];
    lemma_swap_remove_pile(h, i);
    assert(h.contains(c));
    assert(h.to_multiset().count(c) > 0);
    assert(r.cards().insert(c) =~= m.cards());
    assert(r.total_points() + card_points(c) == m.total_points());
}

/// Scoring a trick moves its two cards into the winner's stack and touches
/// nothing else: the cards and points of the game are conserved.
pub proof fn lemma_give_trick(m: GameModel, winner: EPlayer)
    requires
        m.trick.0 is Some,
        m.trick.1 is Some,
    ensures
        m.give_trick(winner).cards() == m.cards(),
        m.give_trick(winner).total_points() == m.total_points(),
        m.give_trick(winner).trick.0 is None,
        m.give_trick(winner).trick.1 is None,
        m.give_trick(winner).stack(winner) == m.stack(winner).push(m.trick.0->0).push(
            m.trick.1->0,
        ),
        m.give_trick(winner).stack(opponent_of(winner)) == m.stack(opponent_of(winner)),
        m.give_trick(winner).player_hand == m.player_hand,
        m.give_trick(winner).npc_hand == m.npc_hand,
        m.give_trick(winner).talon == m.talon,
        m.give_trick(winner).trump_card == m.trump_card,
        m.give_trick(winner).trump_suit == m.trump_suit,
        m.give_trick(winner).state == m.state,
        m.give_trick(winner).forehand == m.forehand,
        m.give_trick(winner).winner == m.winner,
{
    broadcast use vstd::seq_lib::group_to_multiset_ensures;

    let r = m.give_trick(winner);
    let t0 = m.trick.0->0;
    let t1 = m.trick.1->0;
    let s = m.stack(winner);
    assert(s.push(t0).push(t1).to_multiset() == s.to_multiset().insert(t0).insert(t1));
    lemma_points_push(s, t0);
    lemma_points_push(s.push(t0), t1);
    assert(r.cards() =~= m.cards());
}

/// Evaluating a waiting trick preserves well-formedness: the trick goes to
/// its winner, both sides draw while the trump card is out, and the game
/// ends exactly when both hands are empty.
pub proof fn lemma_eval_step(m: GameModel)
    requires
        m.wf(),
        m.state == EGameState::Evaluate,
    ensures
        m.eval_step().wf(),
        m.eval_step().state == EGameState::Terminal || m.eval_step().state == turn_state(
            m.trick_winner_now(),
        ),
        m.eval_step().trick.0 is None,
        m.eval_step().trick.1 is None,
{
    let w = m.trick_winner_now();
    let opp = opponent_of(w);
    let taken = m.give_trick(w);
    lemma_give_trick(m, w);
    if taken.trump_card is Some {
        assert(taken.talon.len() % 2 == 1);
        lemma_deal_one(taken, w);
        let d1 = taken.deal_one(w);
        lemma_deal_one(d1, opp);
        let drawn = d1.deal_one(opp);
        assert(drawn.hand(w).len() == m.hand(w).len() + 1);
        assert(drawn.hand(opp).len() == m.hand(opp).len() + 1);
        assert(drawn.player_hand.len() >= 1 && drawn.npc_hand.len() >= 1);
        assert(m.eval_step() == drawn.with_state(turn_state(w)));
    } else {
        assert(taken.talon.len() == 0);
        if taken.player_hand.len() == 0 && taken.npc_hand.len() == 0 {
            assert(m.eval_step().inv_state());
        } else {
            assert(taken.player_hand.len() == taken.npc_hand.len());
            assert(m.eval_step() == taken.with_state(turn_state(w)));
        }
    }
}

/// The opening deal establishes well-formedness and the counts the game
/// starts from: five cards in each hand, the trump turned up, and nine
/// cards left face down in the talon.
pub proof fn lemma_start_deal(m: GameModel, forehand_is_npc: bool)
    requires
        m.wf(),
        m.state == EGameState::NotStarted,
    ensures
        ({
            let r = m.start_deal(forehand_is_npc);
            &&& r.wf()
            &&& r.talon.len() == 9
            &&& r.player_hand.len() == 5
            &&& r.npc_hand.len() == 5
            &&& r.trump_card is Some
            &&& r.trump_suit == Some(r.trump_card->0.suit)
            &&& r.player_stack == m.player_stack
            &&& r.npc_stack == m.npc_stack
            &&& r.trick.0 is None
            &&& r.trick.1 is None
            &&& r.winner is None
            &&& r.forehand is None
            &&& r.state == turn_state(
                if forehand_is_npc {
                    EPlayer::NPC
                } else {
                    EPlayer::PC
                },
            )
        }),
{
    let first = if forehand_is_npc {
        EPlayer::NPC
    } else {
        EPlayer::PC
    };
    let dealer = opponent_of(first);
    let m1 = m.deal_one(first);
    lemma_deal_one(m, first);
    let m2 = m1.deal_one(first);
    lemma_deal_one(m1, first);
    let m3 = m2.deal_one(first);
    lemma_deal_one(m2, first);
    let m4 = m3.deal_one(dealer);
    lemma_deal_one(m3, dealer);
    let m5 = m4.deal_one(dealer);
    lemma_deal_one(m4, dealer);
    let m6 = m5.deal_one(dealer);
    lemma_deal_one(m5, dealer);
    let m7 = m6.reveal_trump();
    lemma_reveal_trump(m6);
    let m8 = m7.deal_one(first);
    lemma_deal_one(m7, first);
    let m9 = m8.deal_one(first);
    lemma_deal_one(m8, first);
    let m10 = m9.deal_one(dealer);
    lemma_deal_one(m9, dealer);
    let m11 = m10.deal_one(dealer);
    lemma_deal_one(m10, dealer);
    assert(m.start_deal(forehand_is_npc) == m11.with_state(turn_state(first)));
    assert(m11.hand(first).len() == 5);
    assert(m11.hand(dealer).len() == 5);
}

} // verus!
