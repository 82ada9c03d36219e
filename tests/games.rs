use uno_engine::card::{Card, CardType, Color};
use uno_engine::game::{array_next_index, Effect, Game, PlayError, Player, HAND_SIZE};

fn card(card_type: CardType, color: Color) -> Card {
    Card::new(card_type, color)
}

fn table(hands: Vec<Vec<Card>>, current: usize, reversed: bool, top: Card) -> Game {
    let names = ["A", "B", "C", "D", "E"];
    let players: Vec<Player> = hands
        .into_iter()
        .enumerate()
        .map(|(i, cards)| Player::new(names[i], cards))
        .collect();
    Game::from_parts(players, current, reversed, top)
}

fn no_cards(n: usize) -> Vec<Vec<Card>> {
    (0..n).map(|_| Vec::new()).collect()
}

#[test]
fn add_player_refuses_a_taken_name() {
    let mut lobby = Game::new();
    assert_eq!(lobby.number_of_players(), 0);
    assert!(lobby.add_player("A"));
    assert_eq!(lobby.number_of_players(), 1);
    assert!(!lobby.add_player("A"));
    assert_eq!(lobby.number_of_players(), 1);
    assert!(lobby.add_player("a"));
    assert_eq!(lobby.number_of_players(), 2);
    assert!(lobby.add_player("B"));
    assert_eq!(lobby.number_of_players(), 3);
}

#[test]
fn start_needs_two_players() {
    let lobby = Game::new();
    assert!(lobby.start().is_err());
    let mut lobby = Game::new();
    lobby.add_player("A");
    assert!(lobby.start().is_err());
}

#[test]
fn start_deals_seven_cards_and_no_draw_four_on_top() {
    for _ in 0..200 {
        let mut lobby = Game::new();
        lobby.add_player("A");
        lobby.add_player("B");
        lobby.add_player("C");
        let game = lobby.start().unwrap();
        assert_eq!(game.number_of_players(), 3);
        assert!(game.current_player_index() < 3);
        assert_eq!(game.turn_direction(), "Clockwise");
        for i in 0..3 {
            assert_eq!(game.player_at(i).number_of_cards(), HAND_SIZE);
            assert_eq!(HAND_SIZE, 7);
        }
        assert_eq!(game.player_at(0).name(), "A");
        assert_eq!(game.player_at(2).name(), "C");
        assert!(game.top_card().card_type != CardType::DrawFourWildcard);
        for i in 0..3 {
            for c in game.player_at(i).cards() {
                if let CardType::Number(n) = c.card_type {
                    assert!(n <= 9);
                }
                let wild = matches!(c.card_type, CardType::Wildcard | CardType::DrawFourWildcard);
                assert_eq!(wild, c.color == Color::Unpicked);
            }
        }
    }
}

#[test]
fn opening_skip_passes_to_the_other_player() {
    let mut lobby = Game::new();
    lobby.add_player("A");
    lobby.add_player("B");
    let mut game = lobby.start().unwrap();
    assert_eq!(game.player_at(0).number_of_cards(), 7);
    assert_eq!(game.player_at(1).number_of_cards(), 7);
    let first = game.current_player_index();
    let effect = game.opening_effect();
    game.apply_effect(effect);
    if game.top_card().card_type == CardType::Skip {
        assert_eq!(effect, Effect::Skip);
        assert_eq!(game.current_player_index(), 1 - first);
    }

    let mut game = table(vec![vec![], vec![]], 0, false, card(CardType::Skip, Color::Red));
    let effect = game.opening_effect();
    assert_eq!(effect, Effect::Skip);
    game.apply_effect(effect);
    assert_eq!(game.current_player_index(), 1);
    assert_eq!(game.player().name(), "B");
}

#[test]
fn opening_effects_by_top_card() {
    let game = table(no_cards(3), 0, false, card(CardType::Reverse, Color::Red));
    assert_eq!(game.opening_effect(), Effect::ReverseAndSkip);
    let game = table(no_cards(3), 0, false, card(CardType::DrawTwo, Color::Red));
    assert_eq!(game.opening_effect(), Effect::DrawAndSkip(2));
    let game = table(no_cards(3), 0, false, card(CardType::Wildcard, Color::Unpicked));
    assert_eq!(game.opening_effect(), Effect::PickColor);
    assert!(game.needs_color());
    let game = table(no_cards(3), 0, false, card(CardType::Number(4), Color::Red));
    assert_eq!(game.opening_effect(), Effect::Nothing);
    assert!(!game.needs_color());
}

#[test]
fn opening_reverse_turns_and_skips() {
    let mut game = table(no_cards(3), 0, false, card(CardType::Reverse, Color::Red));
    let effect = game.opening_effect();
    game.apply_effect(effect);
    assert_eq!(game.turn_direction(), "Counter Clockwise");
    assert_eq!(game.current_player_index(), 2);
}

#[test]
fn playing_the_last_card_wins() {
    let hands = vec![vec![card(CardType::Number(5), Color::Red)], vec![card(CardType::Skip, Color::Blue)]];
    let mut game = table(hands, 0, false, card(CardType::Number(5), Color::Blue));
    assert!(game.play(0).is_ok());
    assert_eq!(game.player().number_of_cards(), 0);
    assert_eq!(game.player().name(), "A");
    assert_eq!(game.top_card(), card(CardType::Number(5), Color::Red));
}

#[test]
fn play_removes_the_card_and_tops_it() {
    let hand = vec![
        card(CardType::Number(1), Color::Green),
        card(CardType::Number(2), Color::Red),
        card(CardType::Skip, Color::Yellow),
    ];
    let mut game = table(vec![hand, vec![]], 0, false, card(CardType::Number(7), Color::Red));
    assert!(game.play(1).is_ok());
    assert_eq!(game.player().number_of_cards(), 2);
    assert_eq!(game.top_card(), card(CardType::Number(2), Color::Red));
    assert_eq!(game.player().cards()[0], card(CardType::Number(1), Color::Green));
    assert_eq!(game.player().cards()[1], card(CardType::Skip, Color::Yellow));
    assert_eq!(game.current_player_index(), 0);
}

#[test]
fn play_out_of_range_is_an_invalid_index() {
    let hand = vec![card(CardType::Number(1), Color::Green)];
    let mut game = table(vec![hand, vec![]], 0, false, card(CardType::Number(1), Color::Red));
    assert_eq!(game.play(1), Err(PlayError::InvalidCardIndex));
    assert_eq!(game.play(usize::MAX), Err(PlayError::InvalidCardIndex));
    assert_eq!(game.player().number_of_cards(), 1);
    let mut empty = table(no_cards(2), 0, false, card(CardType::Number(1), Color::Red));
    assert_eq!(empty.play(0), Err(PlayError::InvalidCardIndex));
}

#[test]
fn play_of_an_unplayable_card_changes_nothing() {
    let hand = vec![card(CardType::Number(1), Color::Green), card(CardType::Skip, Color::Blue)];
    let top = card(CardType::Number(3), Color::Red);
    let mut game = table(vec![hand, vec![]], 0, false, top);
    assert_eq!(game.play(0), Err(PlayError::CardUnplayable));
    assert_eq!(game.play(1), Err(PlayError::CardUnplayable));
    assert_eq!(game.player().number_of_cards(), 2);
    assert_eq!(game.top_card(), top);
}

#[test]
fn a_playable_drawn_card_is_played_at_once() {
    let top = card(CardType::Number(3), Color::Red);
    let mut game = table(vec![vec![], vec![]], 0, false, top);
    let drawn = card(CardType::Number(8), Color::Red);
    assert_eq!(game.take_drawn_card(drawn), None);
    assert_eq!(game.top_card(), drawn);
    assert_eq!(game.player().number_of_cards(), 0);
}

#[test]
fn an_unplayable_drawn_card_is_kept() {
    let top = card(CardType::Number(3), Color::Red);
    let mut game = table(vec![vec![], vec![]], 0, false, top);
    let drawn = card(CardType::Number(8), Color::Blue);
    assert_eq!(game.take_drawn_card(drawn), Some(drawn));
    assert_eq!(game.top_card(), top);
    assert_eq!(game.player().number_of_cards(), 1);
    assert_eq!(game.player().cards()[0], drawn);
}

#[test]
fn draw_one_never_shrinks_the_hand() {
    let mut game = table(no_cards(2), 0, false, card(CardType::Number(3), Color::Red));
    for _ in 0..300 {
        let before = game.player().number_of_cards();
        let top = game.top_card();
        match game.draw_one() {
            None => {
                assert_eq!(game.player().number_of_cards(), before);
                assert!(game.top_card().is_playable_on(top));
            }
            Some(c) => {
                assert_eq!(game.player().number_of_cards(), before + 1);
                assert_eq!(game.top_card(), top);
                assert!(!c.is_playable_on(top));
                assert_eq!(game.player().cards()[before], c);
            }
        }
    }
}

#[test]
fn draw_multiple_adds_that_many() {
    let mut game = table(no_cards(2), 1, false, card(CardType::Number(3), Color::Red));
    game.draw_multiple(4);
    assert_eq!(game.player().number_of_cards(), 4);
    assert_eq!(game.player_at(0).number_of_cards(), 0);
    game.draw_multiple(0);
    assert_eq!(game.player().number_of_cards(), 4);
}

#[test]
fn a_full_round_comes_back() {
    for reversed in [false, true] {
        for n in 2..6 {
            for start in 0..n {
                let mut game = table(no_cards(n), start, reversed, card(CardType::Number(3), Color::Red));
                for _ in 0..n {
                    game.next_turn();
                }
                assert_eq!(game.current_player_index(), start);
            }
        }
    }
}

#[test]
fn reverse_then_step_goes_back() {
    let mut game = table(no_cards(3), 0, false, card(CardType::Number(3), Color::Red));
    game.next_turn();
    assert_eq!(game.current_player_index(), 1);
    game.reverse();
    assert_eq!(game.turn_direction(), "Counter Clockwise");
    game.next_turn();
    assert_eq!(game.current_player_index(), 0);
    game.reverse();
    assert_eq!(game.turn_direction(), "Clockwise");
}

#[test]
fn next_index_wraps() {
    assert_eq!(array_next_index(2, 3, false), 0);
    assert_eq!(array_next_index(0, 3, false), 1);
    assert_eq!(array_next_index(0, 3, true), 2);
    assert_eq!(array_next_index(2, 3, true), 1);
}

#[test]
fn arrival_effects_by_top_card() {
    let game = table(no_cards(2), 0, false, card(CardType::Reverse, Color::Red));
    assert_eq!(game.arrival_effect(), Effect::Skip);
    let game = table(no_cards(3), 0, false, card(CardType::Reverse, Color::Red));
    assert_eq!(game.arrival_effect(), Effect::Nothing);
    let game = table(no_cards(3), 0, false, card(CardType::Skip, Color::Red));
    assert_eq!(game.arrival_effect(), Effect::Skip);
    let game = table(no_cards(3), 0, false, card(CardType::DrawTwo, Color::Red));
    assert_eq!(game.arrival_effect(), Effect::DrawAndSkip(2));
    let game = table(no_cards(3), 0, false, card(CardType::DrawFourWildcard, Color::Blue));
    assert_eq!(game.arrival_effect(), Effect::DrawAndSkip(4));
    let game = table(no_cards(3), 0, false, card(CardType::Number(0), Color::Blue));
    assert_eq!(game.arrival_effect(), Effect::Nothing);
}

#[test]
fn draw_four_makes_the_next_player_draw_and_skips() {
    let hands = vec![vec![card(CardType::DrawFourWildcard, Color::Unpicked), card(CardType::Number(1), Color::Red)], vec![], vec![]];
    let mut game = table(hands, 0, false, card(CardType::Number(3), Color::Red));
    assert!(game.play(0).is_ok());
    assert!(game.needs_color());
    assert!(game.set_wildcard_color(Color::Blue));
    assert!(!game.needs_color());
    game.end_turn_after_play();
    assert_eq!(game.current_player_index(), 1);
    let effect = game.arrival_effect();
    assert_eq!(effect, Effect::DrawAndSkip(4));
    game.apply_effect(effect);
    assert_eq!(game.player_at(1).number_of_cards(), 4);
    assert_eq!(game.current_player_index(), 2);
}

#[test]
fn played_reverse_turns_the_direction() {
    let hands = vec![vec![], vec![card(CardType::Reverse, Color::Red), card(CardType::Number(1), Color::Red)], vec![]];
    let mut game = table(hands, 1, false, card(CardType::Number(3), Color::Red));
    assert!(game.play(0).is_ok());
    game.end_turn_after_play();
    assert_eq!(game.turn_direction(), "Counter Clockwise");
    assert_eq!(game.current_player_index(), 0);
    let mut plain = table(no_cards(3), 1, false, card(CardType::Number(3), Color::Red));
    plain.end_turn_after_play();
    assert_eq!(plain.current_player_index(), 2);
}

#[test]
fn wild_color_is_set_once_picked() {
    let mut game = table(no_cards(2), 0, false, card(CardType::Wildcard, Color::Unpicked));
    assert!(!game.set_wildcard_color(Color::Unpicked));
    assert_eq!(game.top_card().color, Color::Unpicked);
    assert!(game.set_wildcard_color(Color::Yellow));
    assert_eq!(game.top_card(), card(CardType::Wildcard, Color::Yellow));
    let mut plain = table(no_cards(2), 0, false, card(CardType::Number(3), Color::Red));
    assert!(!plain.set_wildcard_color(Color::Blue));
    assert_eq!(plain.top_card().color, Color::Red);
}

#[test]
fn turn_order_lists_seats_clockwise() {
    let game = table(no_cards(3), 1, false, card(CardType::Number(3), Color::Red));
    assert_eq!(game.turn_order(), vec![1, 2, 0]);
    let game = table(no_cards(3), 1, true, card(CardType::Number(3), Color::Red));
    assert_eq!(game.turn_order(), vec![2, 0, 1]);
    let game = table(no_cards(4), 3, true, card(CardType::Number(3), Color::Red));
    assert_eq!(game.turn_order(), vec![0, 1, 2, 3]);
}
