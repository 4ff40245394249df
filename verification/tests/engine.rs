use flin::get_deck;
use flin::get_deck_shuffled;
use flin::get_opponent;
use flin::wins;
use flin::Card;
use flin::EGameState;
use flin::EPlayer;
use flin::ESuit;
use flin::EValue;
use flin::Game;

fn card(suit: ESuit, value: EValue) -> Card {
    Card::new(suit, value)
}

fn sorted_labels(cards: &[Card]) -> Vec<String> {
    let mut labels: Vec<String> = cards.iter().map(|c| c.label().to_string()).collect();
    labels.sort();
    labels
}

#[test]
fn fresh_deck_has_20_unique_cards_and_120_points() {
    let deck = get_deck();
    assert_eq!(deck.len(), 20);

    let mut labels = sorted_labels(&deck);
    labels.dedup();
    assert_eq!(labels.len(), 20);

    let total: usize = deck.iter().map(|c| c.points()).sum();
    assert_eq!(total, 120);
}

#[test]
fn shuffled_deck_holds_exactly_the_deck_cards() {
    let shuffled = get_deck_shuffled();
    assert_eq!(shuffled.len(), 20);
    assert_eq!(sorted_labels(&shuffled), sorted_labels(&get_deck()));
}

#[test]
fn card_values_score_their_rank() {
    assert_eq!(EValue::Unter.points(), 2);
    assert_eq!(EValue::Ober.points(), 3);
    assert_eq!(EValue::King.points(), 4);
    assert_eq!(EValue::X.points(), 10);
    assert_eq!(EValue::Ace.points(), 11);
    assert!(EValue::Unter < EValue::Ober);
    assert!(EValue::Ober < EValue::King);
    assert!(EValue::King < EValue::X);
    assert!(EValue::X < EValue::Ace);
}

#[test]
fn labels_follow_suit_dot_value() {
    assert_eq!(card(ESuit::Hearts, EValue::Ace).label(), "Hearts.Ace");
    assert_eq!(card(ESuit::Bells, EValue::Unter).label(), "Bells.Unter");
    assert_eq!(card(ESuit::Acorns, EValue::X).label(), "Acorns.X");
    assert_eq!(card(ESuit::Leaves, EValue::King).label(), "Leaves.King");
    assert_eq!(ESuit::Hearts.label(), "Hearts");
    assert_eq!(EValue::Ober.label(), "Ober");
    assert_eq!(EPlayer::PC.label(), "PC");
    assert_eq!(EPlayer::NPC.label(), "NPC");
}

#[test]
fn opponents_are_each_other() {
    assert_eq!(get_opponent(EPlayer::PC), EPlayer::NPC);
    assert_eq!(get_opponent(EPlayer::NPC), EPlayer::PC);
}

#[test]
fn follower_wins_same_suit_higher_value() {
    // leader Hearts.King, follower Hearts.Ace, trump Bells: follower wins
    let leader = card(ESuit::Hearts, EValue::King);
    let follower = card(ESuit::Hearts, EValue::Ace);
    assert!(wins(&follower, &leader, ESuit::Bells));
}

#[test]
fn follower_wins_with_trump_against_other_suit() {
    // leader Hearts.Ace, follower Bells.Unter, trump Bells: follower wins
    let leader = card(ESuit::Hearts, EValue::Ace);
    let follower = card(ESuit::Bells, EValue::Unter);
    assert!(wins(&follower, &leader, ESuit::Bells));
}

#[test]
fn leader_wins_against_other_suit_without_trump() {
    // leader Hearts.Ace, follower Leaves.King, trump Bells: leader wins
    let leader = card(ESuit::Hearts, EValue::Ace);
    let follower = card(ESuit::Leaves, EValue::King);
    assert!(!wins(&follower, &leader, ESuit::Bells));
}

#[test]
fn trick_resolution_is_deterministic() {
    let leader = card(ESuit::Acorns, EValue::Ober);
    let follower = card(ESuit::Leaves, EValue::X);
    for trump in [ESuit::Hearts, ESuit::Bells, ESuit::Acorns, ESuit::Leaves] {
        let first = wins(&follower, &leader, trump);
        let second = wins(&follower, &leader, trump);
        assert_eq!(first, second);
    }
}

#[test]
fn opening_deal_consumes_eleven_cards() {
    // 3 + 3 to the hands, the trump turned up, then 2 + 2: 9 stay face down
    let mut g = Game::new();
    assert_eq!(g.talon.len(), 20);
    g.start(false);
    assert_eq!(g.talon.len(), 9);
    assert_eq!(g.player_hand.len(), 5);
    assert_eq!(g.npc_hand.len(), 5);
    let trump = g.trump_card.expect("the opening deal turns up a trump card");
    assert_eq!(g.trump_suit, Some(trump.suit));
    assert_eq!(g.state, EGameState::PlayerTurn);
    assert!(g.winner.is_none());
}

#[test]
fn opening_deal_gives_npc_the_lead_when_forehand() {
    let mut g = Game::new();
    g.start(true);
    assert_eq!(g.state, EGameState::NpcTurn);
    assert_eq!(g.talon.len(), 9);
}

#[test]
fn play_starts_in_one_of_the_turn_states() {
    let mut g = Game::new();
    g.play();
    assert!(g.state == EGameState::PlayerTurn || g.state == EGameState::NpcTurn);
    assert_eq!(g.talon.len(), 9);
    assert_eq!(g.player_hand.len(), 5);
    assert_eq!(g.npc_hand.len(), 5);
}

#[test]
fn leading_a_card_passes_the_turn() {
    let mut g = Game::new();
    g.start(false);
    let led = g.player_hand[0];
    g.play_from_hand(EPlayer::PC, 0);
    assert_eq!(g.player_hand.len(), 4);
    assert_eq!(g.trick.0, Some(led));
    assert!(g.trick.1.is_none());
    assert_eq!(g.forehand, Some(EPlayer::PC));
    assert_eq!(g.state, EGameState::NpcTurn);
}

#[test]
fn following_a_card_moves_to_evaluation() {
    let mut g = Game::new();
    g.start(true);
    g.do_turn();
    assert_eq!(g.state, EGameState::PlayerTurn);
    assert!(g.trick.0.is_some());
    g.play_from_hand(EPlayer::PC, 0);
    assert_eq!(g.state, EGameState::Evaluate);
    assert!(g.trick.1.is_some());
}

#[test]
fn evaluation_scores_the_trick_and_redraws() {
    let mut g = Game::new();
    g.start(false);
    g.play_from_hand(EPlayer::PC, 0);
    g.do_turn();
    assert_eq!(g.state, EGameState::Evaluate);
    g.do_turn();
    // the two trick cards went to one stack, and both sides drew one card
    assert!(g.trick.0.is_none() && g.trick.1.is_none());
    assert_eq!(g.player_stack.len() + g.npc_stack.len(), 2);
    assert_eq!(g.player_hand.len(), 5);
    assert_eq!(g.npc_hand.len(), 5);
    assert_eq!(g.talon.len(), 7);
    assert!(g.state == EGameState::PlayerTurn || g.state == EGameState::NpcTurn);
}

#[test]
fn do_turn_leaves_other_states_alone() {
    let mut g = Game::new();
    g.do_turn();
    assert_eq!(g.state, EGameState::NotStarted);
    assert_eq!(g.talon.len(), 20);

    g.start(false);
    g.do_turn();
    assert_eq!(g.state, EGameState::PlayerTurn);
    assert_eq!(g.player_hand.len(), 5);
}

fn play_out(mut g: Game) -> Game {
    let mut steps: usize = 0;
    while g.state != EGameState::Terminal && steps < 1000 {
        match g.state {
            EGameState::PlayerTurn => g.play_from_hand(EPlayer::PC, 0),
            _ => g.do_turn(),
        }
        steps += 1;
    }
    g
}

#[test]
fn completed_game_scores_120_points_in_the_stacks() {
    let mut g = Game::new();
    g.start(false);
    g = play_out(g);
    assert_eq!(g.state, EGameState::Terminal);
    assert_eq!(g.get_points(EPlayer::PC) + g.get_points(EPlayer::NPC), 120);
}

#[test]
fn completed_game_empties_hands_and_splits_the_deck() {
    let mut g = Game::new();
    g.play();
    g = play_out(g);
    assert_eq!(g.state, EGameState::Terminal);
    assert!(g.player_hand.is_empty());
    assert!(g.npc_hand.is_empty());
    assert!(g.talon.is_empty());
    assert!(g.trump_card.is_none());

    let mut stacks: Vec<Card> = g.player_stack.clone();
    stacks.extend(g.npc_stack.iter().copied());
    assert_eq!(sorted_labels(&stacks), sorted_labels(&get_deck()));
}

#[test]
fn winner_needs_more_than_66_points() {
    let mut g = Game::new();
    g.play();
    g = play_out(g);
    assert_eq!(g.state, EGameState::Terminal);
    let pc = g.get_points(EPlayer::PC);
    let npc = g.get_points(EPlayer::NPC);
    match g.winner {
        Some(EPlayer::PC) => assert!(pc > 66),
        Some(EPlayer::NPC) => {
            assert!(npc > 66);
            assert!(pc <= 66);
        },
        None => assert!(pc <= 66 && npc <= 66),
    }
}

/// A hand-built final trick: every card is placed, the last trick waits in
/// `Evaluate`, and one `do_turn` must finish the game deterministically.
fn last_trick_game(player_hearts: EValue, npc_hearts: EValue) -> Game {
    // trick: NPC led Hearts.King, PC followed with Hearts.Ace (15 points);
    // the other 18 cards are already stacked, with one low Hearts card each
    // way so the two fixtures sit just on and just over the threshold
    let player_stack = vec![
        card(ESuit::Bells, EValue::Ace),
        card(ESuit::Acorns, EValue::Ace),
        card(ESuit::Leaves, EValue::Ace),
        card(ESuit::Bells, EValue::X),
        card(ESuit::Bells, EValue::King),
        card(ESuit::Bells, EValue::Unter),
        card(ESuit::Hearts, player_hearts),
    ];
    let npc_stack = vec![
        card(ESuit::Hearts, npc_hearts),
        card(ESuit::Hearts, EValue::X),
        card(ESuit::Bells, EValue::Ober),
        card(ESuit::Acorns, EValue::Unter),
        card(ESuit::Acorns, EValue::Ober),
        card(ESuit::Acorns, EValue::King),
        card(ESuit::Acorns, EValue::X),
        card(ESuit::Leaves, EValue::Unter),
        card(ESuit::Leaves, EValue::Ober),
        card(ESuit::Leaves, EValue::King),
        card(ESuit::Leaves, EValue::X),
    ];
    Game {
        trump_suit: Some(ESuit::Bells),
        trump_card: None,
        talon: vec![],
        trick: (
            Some(card(ESuit::Hearts, EValue::King)),
            Some(card(ESuit::Hearts, EValue::Ace)),
        ),
        player_stack,
        player_hand: vec![],
        npc_stack,
        npc_hand: vec![],
        forehand: Some(EPlayer::NPC),
        winner: None,
        state: EGameState::Evaluate,
    }
}

#[test]
fn final_trick_can_end_in_a_draw() {
    // PC holds 51 points, wins the 15-point trick: 66 is not more than 66
    let mut g = last_trick_game(EValue::Unter, EValue::Ober);
    g.do_turn();
    assert_eq!(g.state, EGameState::Terminal);
    assert_eq!(g.get_points(EPlayer::PC), 66);
    assert_eq!(g.get_points(EPlayer::NPC), 54);
    assert_eq!(g.winner, None);
}

#[test]
fn final_trick_can_decide_the_winner() {
    // PC holds 52 points, wins the 15-point trick: 67 beats the threshold
    let mut g = last_trick_game(EValue::Ober, EValue::Unter);
    g.do_turn();
    assert_eq!(g.state, EGameState::Terminal);
    assert_eq!(g.get_points(EPlayer::PC), 67);
    assert_eq!(g.get_points(EPlayer::NPC), 53);
    assert_eq!(g.winner, Some(EPlayer::PC));
}

#[test]
fn points_of_a_known_stack() {
    let g = Game {
        trump_suit: None,
        trump_card: None,
        talon: vec![],
        trick: (None, None),
        player_stack: vec![
            card(ESuit::Hearts, EValue::Ace),
            card(ESuit::Bells, EValue::X),
            card(ESuit::Leaves, EValue::Unter),
        ],
        player_hand: vec![],
        npc_stack: vec![],
        npc_hand: vec![],
        forehand: None,
        winner: None,
        state: EGameState::NotStarted,
    };
    assert_eq!(g.get_points(EPlayer::PC), 23);
    assert_eq!(g.get_points(EPlayer::NPC), 0);
}

#[test]
fn follow_suit_is_checked_only_after_the_trump_card_is_gone() {
    let mut g = Game::new();
    g.start(false);
    // the trump card is still out, so the rule is not checked yet
    assert!(g.can_draw_card());
    assert!(!g.must_follow_suit());
    g.trump_card = None;
    assert!(!g.can_draw_card());
    assert!(g.must_follow_suit());
}

fn follow_suit_fixture() -> Game {
    Game {
        trump_suit: Some(ESuit::Bells),
        trump_card: None,
        talon: vec![],
        trick: (Some(card(ESuit::Hearts, EValue::X)), None),
        player_stack: vec![],
        player_hand: vec![card(ESuit::Bells, EValue::Unter), card(ESuit::Hearts, EValue::Ober)],
        npc_stack: vec![],
        npc_hand: vec![card(ESuit::Acorns, EValue::King), card(ESuit::Leaves, EValue::Ace)],
        forehand: Some(EPlayer::NPC),
        winner: None,
        state: EGameState::PlayerTurn,
    }
}

#[test]
fn breaking_follow_suit_is_reported() {
    let g = follow_suit_fixture();
    // playing Bells.Unter while holding Hearts.Ober against a Hearts lead
    assert!(g.violates_follow_suit(0));
    // playing the matching Hearts.Ober is fine
    assert!(!g.violates_follow_suit(1));
}

#[test]
fn follow_suit_is_not_checked_while_the_trump_card_is_out() {
    let mut g = follow_suit_fixture();
    g.trump_card = Some(card(ESuit::Bells, EValue::Ace));
    assert!(!g.violates_follow_suit(0));
}

#[test]
fn hand_labels_list_the_hand_in_order() {
    let g = follow_suit_fixture();
    let labels = g.hand_labels(EPlayer::PC);
    assert_eq!(labels, vec!["Bells.Unter", "Hearts.Ober"]);
    let labels = g.hand_labels(EPlayer::NPC);
    assert_eq!(labels, vec!["Acorns.King", "Leaves.Ace"]);
}

#[test]
fn npc_plays_the_last_card_of_its_hand() {
    let mut g = Game::new();
    g.start(true);
    let expected = *g.npc_hand.last().expect("the deal fills the hand");
    g.do_turn();
    assert_eq!(g.trick.0, Some(expected));
    assert_eq!(g.npc_hand.len(), 4);
    assert_eq!(g.forehand, Some(EPlayer::NPC));
    assert_eq!(g.state, EGameState::PlayerTurn);
}
