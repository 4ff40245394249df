//! The executable game engine: a [`Game`] value driven through the turn
//! machine by `play`/`start`, `play_card` (or `play_from_hand`) and
//! `do_turn`. Every operation is specified against the transition functions
//! of [`crate::model`] and preserves the model's well-formedness.

use vstd::prelude::*;

use crate::card::Card;
use crate::card::EPlayer;
use crate::card::ESuit;
use crate::deck::deck_mset;
use crate::deck::full_deck;
use crate::deck::get_deck_shuffled;
use crate::deck::lemma_card_points_range;
use crate::deck::lemma_deck_mset_facts;
use crate::deck::lemma_full_deck_facts;
use crate::deck::lemma_points_of_multiset;
use crate::deck::points_of;
use crate::model::EGameState;
use crate::model::GameModel;

verus! {

/// The whole state of one play-through. The fields are the piles the 20
/// cards move through, plus who led the current trick, who won the game,
/// and where the turn machine stands.
#[derive(Debug)]
pub struct Game {
    pub trump_suit: Option<ESuit>,
    pub trump_card: Option<Card>,
    pub talon: Vec<Card>,
    pub trick: (Option<Card>, Option<Card>),
    pub player_stack: Vec<Card>,
    pub player_hand: Vec<Card>,
    pub npc_stack: Vec<Card>,
    pub npc_hand: Vec<Card>,
    pub forehand: Option<EPlayer>,
    pub winner: Option<EPlayer>,
    pub state: EGameState,
}

impl View for Game {
    type V = GameModel;

    open spec fn view(&self) -> GameModel {
        GameModel {
            trump_suit: self.trump_suit,
            trump_card: self.trump_card,
            talon: self.talon@,
            trick: self.trick,
            player_stack: self.player_stack@,
            player_hand: self.player_hand@,
            npc_stack: self.npc_stack@,
            npc_hand: self.npc_hand@,
            forehand: self.forehand,
            winner: self.winner,
            state: self.state,
        }
    }
}

/// Every pile of a conserved game holds at most the 20 deck cards.
pub proof fn lemma_zone_lens(m: GameModel)
    requires
        m.cards() == deck_mset(),
    ensures
        m.talon.len() <= 20,
        m.player_hand.len() <= 20,
        m.npc_hand.len() <= 20,
        m.player_stack.len() <= 20,
        m.npc_stack.len() <= 20,
{
    broadcast use vstd::seq_lib::group_to_multiset_ensures;

    lemma_deck_mset_facts();
    assert(m.cards().len() == 20);
}

impl Game {
    /// A fresh, undealt game over a newly shuffled talon of all 20 cards.
    pub fn new() -> (r: Game)
        ensures
            r@.wf(),
            r@.state == EGameState::NotStarted,
    {
        let g = Game {
            trump_card: None,
            trump_suit: None,
            talon: get_deck_shuffled(),
            trick: (None, None),
            player_stack: Vec::new(),
            player_hand: Vec::new(),
            npc_stack: Vec::new(),
            npc_hand: Vec::new(),
            forehand: None,
            winner: None,
            state: EGameState::NotStarted,
        };
        proof {
            broadcast use vstd::seq_lib::group_to_multiset_ensures;
            broadcast use vstd::multiset::lemma_multiset_empty_len;

            assert(g@.player_hand.to_multiset().len() == 0);
            assert(g@.npc_hand.to_multiset().len() == 0);
            assert(g@.player_stack.to_multiset().len() == 0);
            assert(g@.npc_stack.to_multiset().len() == 0);
            assert(g@.cards() =~= g@.talon.to_multiset());
            lemma_full_deck_facts();
            lemma_points_of_multiset(g@.talon, full_deck());
        }
        g
    }

    /// Whether the two draws after a trick still happen: they do for as long
    /// as the turned-up trump card has not been drawn into a hand.
    pub fn can_draw_card(&self) -> (r: bool)
        ensures
            r == (self@.trump_card is Some),
    {
        self.trump_card.is_some()
    }

    /// Whether the follow-suit rule is checked: only once the trump card
    /// has been drawn and the hands are no longer replenished.
    pub fn must_follow_suit(&self) -> (r: bool)
        ensures
            r == (self@.trump_card is None),
    {
        self.trump_card.is_none()
    }

    /// The given player's score: the summed point values of the cards in
    /// their stack of won tricks.
    pub fn get_points(&self, player: EPlayer) -> (r: usize)
        requires
            self@.stack(player).len() <= 20,
        ensures
            r == points_of(self@.stack(player)),
    {
        let stack: &Vec<Card> = match player {
            EPlayer::PC => &self.player_stack,
            EPlayer::NPC => &self.npc_stack,
        };
        let ghost s = self@.stack(player);
        let mut sum: usize = 0;
        let mut i: usize = 0;
        while i < stack.len()
            invariant
                stack@ == s,
                s.len() <= 20,
                i <= s.len(),
                sum == points_of(s.take(i as int)),
                sum <= 11 * i,
            decreases s.len() - i,
        {
            proof {
                assert(s.take(i + 1).drop_last() =~= s.take(i as int));
                assert(s.take(i + 1).last() == s[i as int]);
                lemma_card_points_range(s[i as int]);
            }
            sum = sum + stack[i].points();
            i = i + 1;
        }
        proof {
            assert(s.take(s.len() as int) =~= s);
        }
        sum
    }

    /// Puts the turn machine into the given state and changes nothing else.
    pub fn set_state(&mut self, state: EGameState)
        ensures
            final(self)@ == old(self)@.with_state(state),
    {
        self.state = state;
        proof {
            assert(self@ =~= old(self)@.with_state(state));
        }
    }

    /// Deals one card, from the talon or, once the talon is empty, the
    /// turned-up trump card, into the given player's hand.
    fn deal_card(&mut self, to: EPlayer)
        requires
            old(self)@.talon.len() > 0 || old(self)@.trump_card is Some,
        ensures
            final(self)@ == old(self)@.deal_one(to),
    {
        let card = if self.talon.is_empty() {
            let c = self.trump_card.unwrap();
            self.trump_card = None;
            c
        } else {
            self.talon.pop().unwrap()
        };
        match to {
            EPlayer::PC => self.player_hand.push(card),
            EPlayer::NPC => self.npc_hand.push(card),
        }
        proof {
            assert(old(self)@.talon.len() > 0 ==> self@.talon =~= old(self)@.talon.drop_last());
            assert(self@ =~= old(self)@.deal_one(to));
        }
    }

    /// Records a played card into the trick: a lead if the trick is empty,
    /// the follow otherwise, moving the machine to the opponent's turn or to
    /// evaluation. The card must have just left the acting player's hand
    /// (see `GameModel::wf_play`); `play_from_hand` does both steps at once.
    pub fn play_card(&mut self, card: Card, player: EPlayer)
        requires
            old(self)@.wf_play(card, player),
        ensures
            final(self)@ == old(self)@.play_one(card, player),
            final(self)@.wf(),
    {
        let is_forehand = self.trick.0.is_none();
        if is_forehand {
            self.forehand = Some(player);
            self.trick = (Some(card), self.trick.1);
            match player {
                EPlayer::PC => self.set_state(EGameState::NpcTurn),
                EPlayer::NPC => self.set_state(EGameState::PlayerTurn),
            }
        } else {
            self.trick = (self.trick.0, Some(card));
            self.set_state(EGameState::Evaluate);
        }
        proof {
            assert(self@ =~= old(self)@.play_one(card, player));
            crate::model::lemma_play_one(old(self)@, card, player);
        }
    }

    /// Plays the card at `index` of the acting player's hand: takes it out
    /// (the last card moves into its place) and records it into the trick.
    pub fn play_from_hand(&mut self, player: EPlayer, index: usize)
        requires
            old(self)@.wf(),
            old(self)@.state == crate::model::turn_state(player),
            index < old(self)@.hand(player).len(),
        ensures
            final(self)@ == old(self)@.hand_played(player, index as int),
            final(self)@.wf(),
    {
        proof {
            crate::model::lemma_remove_from_hand(old(self)@, player, index as int);
        }
        let card = match player {
            EPlayer::PC => self.player_hand.swap_remove(index),
            EPlayer::NPC => self.npc_hand.swap_remove(index),
        };
        proof {
            assert(self@ =~= old(self)@.remove_from_hand(player, index as int));
        }
        self.play_card(card, player);
    }

    /// Moves both trick cards, lead first, into the winner's stack and
    /// clears the trick.
    fn give_trick_to(&mut self, player: EPlayer)
        requires
            old(self)@.trick.0 is Some,
            old(self)@.trick.1 is Some,
        ensures
            final(self)@ == old(self)@.give_trick(player),
    {
        if let Some(t1) = self.trick.0 {
            if let Some(t2) = self.trick.1 {
                match player {
                    EPlayer::PC => {
                        self.player_stack.push(t1);
                        self.player_stack.push(t2);
                    },
                    EPlayer::NPC => {
                        self.npc_stack.push(t1);
                        self.npc_stack.push(t2);
                    },
                }
                self.trick = (None, None);
            }
        }
        proof {
            assert(self@ =~= old(self)@.give_trick(player));
        }
    }

    /// The computer's placeholder policy: it always plays the last card of
    /// its hand.
    fn ai_choose_card(&mut self) -> (r: Card)
        requires
            old(self)@.npc_hand.len() > 0,
        ensures
            r == old(self)@.npc_hand.last(),
            final(self)@ == (GameModel { npc_hand: old(self)@.npc_hand.drop_last(), ..old(self)@ }),
    {
        let r = self.npc_hand.pop().unwrap();
        proof {
            assert(self@ =~= (GameModel { npc_hand: old(self)@.npc_hand.drop_last(), ..old(self)@ }));
        }
        r
    }

    /// Checks whether the game is over: it is the moment both hands are
    /// empty. If so, settles the winner by the 66-point threshold (or a
    /// draw, leaving no winner) and parks the machine in its terminal state.
    fn end_game(&mut self) -> (r: bool)
        requires
            old(self)@.player_stack.len() <= 20,
            old(self)@.npc_stack.len() <= 20,
            old(self)@.winner is None,
        ensures
            r == (old(self)@.player_hand.len() == 0 && old(self)@.npc_hand.len() == 0),
            r ==> final(self)@ == (GameModel {
                winner: crate::model::end_winner(
                    points_of(old(self)@.player_stack),
                    points_of(old(self)@.npc_stack),
                ),
                state: EGameState::Terminal,
                ..old(self)@
            }),
            !r ==> final(self)@ == old(self)@,
    {
        if self.player_hand.is_empty() && self.npc_hand.is_empty() {
            let player_count = self.get_points(EPlayer::PC);
            let npc_count = self.get_points(EPlayer::NPC);

            if player_count > 66 {
                self.winner = Some(EPlayer::PC);
            } else if npc_count > 66 {
                self.winner = Some(EPlayer::NPC);
            }
            self.state = EGameState::Terminal;

            proof {
                assert(self@ =~= (GameModel {
                    winner: crate::model::end_winner(
                        points_of(old(self)@.player_stack),
                        points_of(old(self)@.npc_stack),
                    ),
                    state: EGameState::Terminal,
                    ..old(self)@
                }));
            }
            return true;
        }
        false
    }

    /// Resolves the waiting trick: hands it to its winner, lets both sides
    /// draw while the trump card is out, ends the game if both hands are now
    /// empty, and otherwise gives the trick winner the lead.
    fn evaluate(&mut self)
        requires
            old(self)@.wf(),
            old(self)@.state == EGameState::Evaluate,
        ensures
            final(self)@ == old(self)@.eval_step(),
            final(self)@.wf(),
    {
        proof {
            crate::model::lemma_eval_step(old(self)@);
        }
        let backhand_wins = crate::trick::wins(
            &self.trick.1.unwrap(),
            &self.trick.0.unwrap(),
            self.trump_suit.unwrap(),
        );
        let forehand = self.forehand.unwrap();
        let winner = if backhand_wins {
            crate::card::get_opponent(forehand)
        } else {
            forehand
        };
        proof {
            assert(winner == old(self)@.trick_winner_now());
            crate::model::lemma_give_trick(old(self)@, winner);
        }
        self.give_trick_to(winner);

        if self.can_draw_card() {
            proof {
                crate::model::lemma_deal_one(self@, winner);
            }
            self.deal_card(winner);
            let opp = crate::card::get_opponent(winner);
            proof {
                crate::model::lemma_deal_one(self@, opp);
            }
            self.deal_card(opp);
        }
        proof {
            lemma_zone_lens(self@);
        }
        if self.end_game() {
            return;
        }
        match winner {
            EPlayer::PC => self.set_state(EGameState::PlayerTurn),
            EPlayer::NPC => self.set_state(EGameState::NpcTurn),
        }
        proof {
            assert(self@ =~= old(self)@.eval_step());
        }
    }

    /// One turn of the machine. In the computer's turn it picks and plays a
    /// card; in `Evaluate` the waiting trick is resolved; in every other
    /// state nothing happens.
    pub fn do_turn(&mut self)
        requires
            old(self)@.wf(),
        ensures
            final(self)@ == old(self)@.step(),
            final(self)@.wf(),
    {
        match self.state {
            EGameState::NotStarted => {},
            EGameState::PlayerTurn => {},
            EGameState::Terminal => {},
            EGameState::NpcTurn => {
                proof {
                    let om = old(self)@;
                    let last: int = om.npc_hand.len() - 1;
                    crate::model::lemma_remove_from_hand(om, EPlayer::NPC, last);
                    assert(om.npc_hand.update(last, om.npc_hand.last()).drop_last()
                        =~= om.npc_hand.drop_last());
                    assert((GameModel { npc_hand: om.npc_hand.drop_last(), ..om })
                        =~= om.remove_from_hand(EPlayer::NPC, last));
                }
                let card = self.ai_choose_card();
                self.play_card(card, EPlayer::NPC);
            },
            EGameState::Evaluate => self.evaluate(),
        }
    }

    /// The opening deal: three cards each (forehand first), the trump card
    /// turned up, then two more each, ending in the forehand's turn.
    pub fn start(&mut self, forehand_is_npc: bool)
        requires
            old(self)@.wf(),
            old(self)@.state == EGameState::NotStarted,
        ensures
            final(self)@ == old(self)@.start_deal(forehand_is_npc),
            final(self)@.wf(),
            final(self)@.talon.len() == 9,
            final(self)@.player_hand.len() == 5,
            final(self)@.npc_hand.len() == 5,
            final(self)@.trump_card is Some,
            final(self)@.state == crate::model::turn_state(
                if forehand_is_npc {
                    EPlayer::NPC
                } else {
                    EPlayer::PC
                },
            ),
    {
        proof {
            crate::model::lemma_start_deal(old(self)@, forehand_is_npc);
        }
        let first_player = if forehand_is_npc {
            EPlayer::NPC
        } else {
            EPlayer::PC
        };
        let dealer = crate::card::get_opponent(first_player);

        self.deal_card(first_player);
        self.deal_card(first_player);
        self.deal_card(first_player);
        self.deal_card(dealer);
        self.deal_card(dealer);
        self.deal_card(dealer);

        let trump = self.talon.pop().unwrap();
        self.trump_card = Some(trump);
        self.trump_suit = Some(trump.suit);
        proof {
            assert(self@ =~= old(self)@.deal_one(first_player).deal_one(first_player).deal_one(
                first_player,
            ).deal_one(dealer).deal_one(dealer).deal_one(dealer).reveal_trump());
        }

        self.deal_card(first_player);
        self.deal_card(first_player);
        self.deal_card(dealer);
        self.deal_card(dealer);

        match first_player {
            EPlayer::PC => self.set_state(EGameState::PlayerTurn),
            EPlayer::NPC => self.set_state(EGameState::NpcTurn),
        }
        proof {
            assert(self@ =~= old(self)@.start_deal(forehand_is_npc));
        }
    }

    /// The display labels of the given player's hand, in hand order: the
    /// options a front-end offers when prompting for a card.
    pub fn hand_labels(&self, player: EPlayer) -> (r: Vec<&'static str>)
        ensures
            r@.len() == self@.hand(player).len(),
            forall|i: int|
                0 <= i < r@.len() ==> r@[i]@ == crate::card::card_label(self@.hand(player)[i]),
    {
        let hand: &Vec<Card> = match player {
            EPlayer::PC => &self.player_hand,
            EPlayer::NPC => &self.npc_hand,
        };
        let mut r: Vec<&'static str> = Vec::new();
        let mut i: usize = 0;
        while i < hand.len()
            invariant
                hand@ == self@.hand(player),
                i <= hand@.len(),
                r@.len() == i,
                forall|j: int| 0 <= j < i ==> r@[j]@ == crate::card::card_label(hand@[j]),
            decreases hand@.len() - i,
        {
            r.push(hand[i].label());
            i = i + 1;
        }
        r
    }

    /// Whether playing the card at `index` of the player's hand would break
    /// the follow-suit rule. Checked only once the trump card has been
    /// drawn; the violation is advisory and never blocks the play.
    pub fn violates_follow_suit(&self, index: usize) -> (r: bool)
        requires
            index < self@.player_hand.len(),
        ensures
            r == self@.follow_suit_violation(index as int),
    {
        if !self.must_follow_suit() {
            return false;
        }
        let lead = match self.trick.0 {
            Some(c) => c,
            None => {
                return false;
            },
        };
        let card = self.player_hand[index];
        if card.suit == lead.suit {
            return false;
        }
        let mut j: usize = 0;
        while j < self.player_hand.len()
            invariant
                j <= self@.player_hand.len(),
                index < self@.player_hand.len(),
                self@.trick.0 == Some(lead),
                card == self@.player_hand[index as int],
                card.suit != lead.suit,
                self@.trump_card is None,
                forall|k: int|
                    0 <= k < j && k != index ==> self@.player_hand[k].suit != lead.suit,
            decreases self@.player_hand.len() - j,
        {
            if j != index && self.player_hand[j].suit == lead.suit {
                return true;
            }
            j = j + 1;
        }
        false
    }

    /// Starts the game: a coin flip picks the dealer, the other side becomes
    /// forehand, and the opening deal is made.
    pub fn play(&mut self)
        requires
            old(self)@.wf(),
            old(self)@.state == EGameState::NotStarted,
        ensures
            final(self)@.wf(),
            exists|b: bool| final(self)@ == old(self)@.start_deal(b),
            final(self)@.talon.len() == 9,
            final(self)@.player_hand.len() == 5,
            final(self)@.npc_hand.len() == 5,
            final(self)@.trump_card is Some,
            final(self)@.state == EGameState::PlayerTurn || final(self)@.state
                == EGameState::NpcTurn,
    {
        let dealer = if random_bool() {
            EPlayer::NPC
        } else {
            EPlayer::PC
        };
        let first_player = crate::card::get_opponent(dealer);
        let forehand_is_npc = match first_player {
            EPlayer::NPC => true,
            EPlayer::PC => false,
        };
        self.start(forehand_is_npc);
        proof {
            assert(self@ == old(self)@.start_deal(forehand_is_npc));
        }
    }
}

/// Relies on rand::random::<bool>: a fair coin flip. Nothing is stated of
/// the result; callers handle both outcomes.
#[verifier::external_body]
fn random_bool() -> bool {
    rand::random()
}

} // verus!
