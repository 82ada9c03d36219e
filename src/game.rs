use vstd::prelude::*;
use vstd::arithmetic::div_mod::{
    lemma_fundamental_div_mod, lemma_fundamental_div_mod_converse, lemma_small_mod,
};
use rand::Rng;
use crate::card::{Card, CardType, Color};
use crate::deck::InfiniteDeck;

verus! {

/// The number of cards dealt to each player at the start.
pub const HAND_SIZE: usize = 7;

/// A named player and the cards in their hand, in the order they came.
pub struct Player {
    name: String,
    cards: Vec<Card>,
}

impl Player {
    pub closed spec fn name_view(&self) -> Seq<char> {
        self.name@
    }

    pub closed spec fn hand(&self) -> Seq<Card> {
        self.cards@
    }

    pub open spec fn hand_well_formed(&self) -> bool {
        forall|i: int| 0 <= i < self.hand().len() ==> #[trigger] self.hand()[i].well_formed()
    }

    /// A player with the given name holding the given cards.
    pub fn new(name: &str, cards: Vec<Card>) -> (p: Player)
        ensures
            p.name_view() == name@,
            p.hand() == cards@,
    {
        Player { name: name.to_owned(), cards }
    }

    pub fn name(&self) -> (r: &String)
        ensures
            r@ == self.name_view(),
    {
        &self.name
    }

    pub fn number_of_cards(&self) -> (r: usize)
        ensures
            r == self.hand().len(),
    {
        self.cards.len()
    }

    /// The hand, first card first.
    pub fn cards(&self) -> (r: &Vec<Card>)
        ensures
            r@ == self.hand(),
    {
        &self.cards
    }
}

/// The names of a sequence of players, in order.
pub open spec fn names_of(players: Seq<Player>) -> Seq<Seq<char>> {
    players.map_values(|p: Player| p.name_view())
}

/// A game cannot start with fewer than two players.
#[derive(Debug, Clone, Copy, PartialEq, Eq, Structural)]
pub struct NotEnoughPlayers;

/// The players registered before a game starts, in order of registration.
pub struct Lobby {
    players: Vec<Player>,
}

impl Lobby {
    /// The registered names, in order of registration.
    pub closed spec fn names(&self) -> Seq<Seq<char>> {
        names_of(self.players@)
    }

    /// Names are unique and nobody holds cards yet.
    pub closed spec fn well_formed(&self) -> bool {
        &&& forall|i: int, j: int|
            0 <= i < j < self.players@.len() ==> self.players@[i].name_view()
                != self.players@[j].name_view()
        &&& forall|i: int| 0 <= i < self.players@.len() ==> #[trigger] self.players@[i].hand().len() == 0
    }

    /// Registers a player with an empty hand, unless the name (compared
    /// exactly) is taken; returns whether it was registered.
    pub fn add_player(&mut self, username: &str) -> (r: bool)
        requires
            old(self).well_formed(),
        ensures
            final(self).well_formed(),
            r == !old(self).names().contains(username@),
            r ==> final(self).names() == old(self).names().push(username@),
            !r ==> final(self).names() == old(self).names(),
    {
        let name = username.to_owned();
        let mut available = true;
        let mut i: usize = 0;
        while i < self.players.len()
            invariant
                i <= self.players@.len(),
                name@ == username@,
                available == forall|j: int| 0 <= j < i ==> self.players@[j].name_view() != name@,
            decreases self.players@.len() - i,
        {
            if self.players[i].name == name {
                available = false;
            }
            i += 1;
        }
        proof {
            if available {
                assert(!self.names().contains(username@));
            } else {
                let j = choose|j: int| 0 <= j < i && self.players@[j].name_view() == name@;
                assert(self.names()[j] == username@);
            }
        }
        if available {
            let ghost before = self.players@;
            self.players.push(Player { name, cards: Vec::with_capacity(HAND_SIZE) });
            assert(self.names() =~= names_of(before).push(username@));
        }
        available
    }

    pub fn number_of_players(&self) -> (r: usize)
        ensures
            r == self.names().len(),
    {
        self.players.len()
    }

    /// Starts a game with the registered players, unless there are fewer than
    /// two: each is dealt seven cards in order of registration, a random
    /// player begins, and the top card is drawn again for as long as it is a
    /// draw-four wild card.
    pub fn start(self) -> (r: Result<Game, NotEnoughPlayers>)
        requires
            self.well_formed(),
        ensures
            r is Err <==> self.names().len() < 2,
            r matches Ok(g) ==> {
                &&& g.well_formed()
                &&& names_of(g.players_view()) == self.names()
                &&& forall|i: int|
                    0 <= i < g.players_view().len() ==> #[trigger] g.players_view()[i].hand().len()
                        == HAND_SIZE
                &&& g.top().is_fresh()
                &&& g.top().card_type != CardType::DrawFourWildcard
                &&& !g.reversed()
            },
    {
        if self.players.len() < 2 {
            return Err(NotEnoughPlayers);
        }
        let mut deck = InfiniteDeck::new();
        let players = deal(&self.players, &mut deck);
        let current = random_player_index(players.len());
        let top_card = draw_starting_card(&mut deck);
        proof {
            assert forall|i: int| 0 <= i < players@.len() implies #[trigger] players@[i].hand_well_formed() by {
                assert forall|j: int| 0 <= j < players@[i].hand().len() implies #[trigger] players@[i].hand()[j].well_formed() by {
                    assert(players@[i].hand()[j].is_fresh());
                }
            }
        }
        Ok(Game { players, current_player_idx: current, turn_direction_reversed: false, deck, top_card })
    }
}

/// The seat after `index` at a table of `length`, going up and wrapping to 0,
/// or going down and wrapping to the last seat when `reversed`.
pub open spec fn next_index(index: int, length: int, reversed: bool) -> int {
    if reversed {
        if index == 0 {
            length - 1
        } else {
            index - 1
        }
    } else {
        if index == length - 1 {
            0
        } else {
            index + 1
        }
    }
}

/// The seat reached from `index` after `steps` steps in one direction.
pub open spec fn advance(index: int, length: int, reversed: bool, steps: nat) -> int
    decreases steps,
{
    if steps == 0 {
        index
    } else {
        next_index(advance(index, length, reversed, (steps - 1) as nat), length, reversed)
    }
}

pub fn array_next_index(index: usize, length: usize, reversed: bool) -> (r: usize)
    requires
        index < length,
    ensures
        r == next_index(index as int, length as int, reversed),
        r < length,
{
    if reversed {
        if index == 0 {
            length - 1
        } else {
            index - 1
        }
    } else {
        if index == length - 1 {
            0
        } else {
            index + 1
        }
    }
}

/// Where `steps` steps from `index` lead, in closed form.
proof fn lemma_advance_mod(index: int, length: int, reversed: bool, steps: nat)
    requires
        0 <= index < length,
    ensures
        advance(index, length, reversed, steps) == if reversed {
            (index - steps) % length
        } else {
            (index + steps) % length
        },
    decreases steps,
{
    if steps > 0 {
        lemma_advance_mod(index, length, reversed, (steps - 1) as nat);
        let prev = if reversed {
            index - (steps - 1)
        } else {
            index + (steps - 1)
        };
        let next = if reversed {
            prev - 1
        } else {
            prev + 1
        };
        lemma_fundamental_div_mod(prev, length);
        lemma_fundamental_div_mod(next, length);
        let q = prev / length;
        let m = prev % length;
        assert(prev == length * q + m);
        if reversed {
            if m == 0 {
                assert(next == (q - 1) * length + (length - 1)) by (nonlinear_arith)
                    requires
                        prev == length * q + m,
                        m == 0,
                        next == prev - 1,
                ;
                lemma_fundamental_div_mod_converse(next, length, q - 1, length - 1);
            } else {
                assert(next == q * length + (m - 1)) by (nonlinear_arith)
                    requires
                        prev == length * q + m,
                        next == prev - 1,
                ;
                lemma_fundamental_div_mod_converse(next, length, q, m - 1);
            }
        } else {
            if m == length - 1 {
                assert(next == (q + 1) * length + 0) by (nonlinear_arith)
                    requires
                        prev == length * q + m,
                        m == length - 1,
                        next == prev + 1,
                ;
                lemma_fundamental_div_mod_converse(next, length, q + 1, 0);
            } else {
                assert(next == q * length + (m + 1)) by (nonlinear_arith)
                    requires
                        prev == length * q + m,
                        next == prev + 1,
                ;
                lemma_fundamental_div_mod_converse(next, length, q, m + 1);
            }
        }
    } else {
        lemma_small_mod(index as nat, length as nat);
    }
}

/// Taking as many steps as there are seats, in either direction, comes back
/// to the seat one started from.
pub proof fn lemma_full_round(index: int, length: int, reversed: bool)
    requires
        0 <= index < length,
    ensures
        advance(index, length, reversed, length as nat) == index,
{
    lemma_advance_mod(index, length, reversed, length as nat);
    if reversed {
        lemma_fundamental_div_mod_converse(index - length, length, -1, index);
    } else {
        lemma_fundamental_div_mod_converse(index + length, length, 1, index);
    }
}

/// Reversing the direction twice restores it, and a step taken after
/// reversing undoes the step taken before.
pub proof fn lemma_reverse_undoes_step(index: int, length: int, reversed: bool)
    requires
        0 <= index < length,
    ensures
        !(!reversed) == reversed,
        next_index(next_index(index, length, reversed), length, !reversed) == index,
{
}


/// The number of times the starting card is drawn again before the remaining
/// cards are drawn from directly.
pub const MAX_STARTING_REDRAWS: u32 = 64;

/// Relies on `rand::thread_rng` and `Rng::gen_range` of rand: on the non-empty
/// range `0..n` the result lies in that range.
#[verifier::external_body]
fn random_player_index(n: usize) -> (r: usize)
    requires
        n > 0,
    ensures
        r < n,
{
    rand::thread_rng().gen_range(0..n)
}

/// The same players, each dealt a hand of fresh cards.
fn deal(registered: &Vec<Player>, deck: &mut InfiniteDeck) -> (players: Vec<Player>)
    ensures
        players@.len() == registered@.len(),
        names_of(players@) == names_of(registered@),
        forall|i: int|
            0 <= i < players@.len() ==> #[trigger] players@[i].hand().len() == HAND_SIZE,
        forall|i: int, j: int|
            0 <= i < players@.len() && 0 <= j < players@[i].hand().len()
                ==> #[trigger] players@[i].hand()[j].is_fresh(),
{
    let mut players: Vec<Player> = Vec::with_capacity(registered.len());
    let mut i: usize = 0;
    while i < registered.len()
        invariant
            i <= registered@.len(),
            players@.len() == i,
            forall|k: int| 0 <= k < i ==> #[trigger] players@[k].name_view() == registered@[k].name_view(),
            forall|k: int| 0 <= k < i ==> #[trigger] players@[k].hand().len() == HAND_SIZE,
            forall|k: int, j: int|
                0 <= k < i && 0 <= j < players@[k].hand().len()
                    ==> #[trigger] players@[k].hand()[j].is_fresh(),
        decreases registered@.len() - i,
    {
        let mut cards: Vec<Card> = Vec::with_capacity(HAND_SIZE);
        let mut n: usize = 0;
        while n < HAND_SIZE
            invariant
                n <= HAND_SIZE,
                cards@.len() == n,
                forall|j: int| 0 <= j < n ==> #[trigger] cards@[j].is_fresh(),
            decreases HAND_SIZE - n,
        {
            cards.push(deck.draw());
            n += 1;
        }
        players.push(Player { name: registered[i].name.clone(), cards });
        i += 1;
    }
    assert(names_of(players@) =~= names_of(registered@));
    players
}

/// Draws the starting top card, again and again while it is a draw-four wild
/// card; should that go on too long, it is drawn from the other cards alone,
/// which gives it the same distribution.
fn draw_starting_card(deck: &mut InfiniteDeck) -> (c: Card)
    ensures
        c.is_fresh(),
        c.card_type != CardType::DrawFourWildcard,
{
    let mut card = deck.draw();
    let mut redraws: u32 = 0;
    while card.card_type == CardType::DrawFourWildcard && redraws < MAX_STARTING_REDRAWS
        invariant
            card.is_fresh(),
            redraws <= MAX_STARTING_REDRAWS,
        decreases MAX_STARTING_REDRAWS - redraws,
    {
        card = deck.draw();
        redraws += 1;
    }
    if card.card_type == CardType::DrawFourWildcard {
        card = deck.draw_other_than_draw_four();
    }
    card
}

/// What the starting top card does before the first turn: a skip skips the
/// starting player, a reverse turns the direction and skips, a draw two makes
/// the starting player draw two and skips, and a wild card asks for its color.
pub open spec fn opening_effect_of(card_type: CardType) -> Effect {
    match card_type {
        CardType::Skip => Effect::Skip,
        CardType::Reverse => Effect::ReverseAndSkip,
        CardType::DrawTwo => Effect::DrawAndSkip(2),
        CardType::Wildcard => Effect::PickColor,
        _ => Effect::Nothing,
    }
}

/// What a just-played top card does to the player whose turn comes next: a
/// skip, or a reverse at a table of two, skips them; a draw two or a draw-four
/// wild card makes them draw two or four and skips them.
pub open spec fn arrival_effect_of(card_type: CardType, players: int) -> Effect {
    match card_type {
        CardType::Skip => Effect::Skip,
        CardType::Reverse => if players == 2 {
            Effect::Skip
        } else {
            Effect::Nothing
        },
        CardType::DrawTwo => Effect::DrawAndSkip(2),
        CardType::DrawFourWildcard => Effect::DrawAndSkip(4),
        _ => Effect::Nothing,
    }
}

/// Why a play was refused.
#[derive(Debug, Clone, Copy, PartialEq, Eq, Structural)]
pub enum PlayError {
    InvalidCardIndex,
    CardUnplayable,
}

/// What the top card does to the player whose turn it has become.
#[derive(Debug, Clone, Copy, PartialEq, Eq, Structural)]
pub enum Effect {
    Nothing,
    /// The player's turn is skipped.
    Skip,
    /// The direction turns round, then the player's turn is skipped.
    ReverseAndSkip,
    /// The player draws this many cards, then their turn is skipped.
    DrawAndSkip(u8),
    /// The player must choose the color of the wild top card.
    PickColor,
}

/// A game in progress: the seated players, whose turn it is, the direction of
/// play, the card source and the top card of the discard pile.
pub struct Game {
    players: Vec<Player>,
    current_player_idx: usize,
    turn_direction_reversed: bool,
    deck: InfiniteDeck,
    top_card: Card,
}

impl Game {
    pub closed spec fn players_view(&self) -> Seq<Player> {
        self.players@
    }

    pub closed spec fn current(&self) -> int {
        self.current_player_idx as int
    }

    pub closed spec fn reversed(&self) -> bool {
        self.turn_direction_reversed
    }

    pub closed spec fn top(&self) -> Card {
        self.top_card
    }

    pub open spec fn current_hand(&self) -> Seq<Card> {
        self.players_view()[self.current()].hand()
    }

    /// At least two players, a current player among them, and well-formed
    /// cards everywhere.
    pub open spec fn well_formed(&self) -> bool {
        &&& self.players_view().len() >= 2
        &&& 0 <= self.current() < self.players_view().len()
        &&& self.top().well_formed()
        &&& forall|i: int|
            0 <= i < self.players_view().len() ==> #[trigger] self.players_view()[i].hand_well_formed()
    }

    /// The same players with the same names and hands, except the current
    /// player's hand, which is `hand`.
    pub open spec fn hands_after(&self, other: &Game, hand: Seq<Card>) -> bool {
        &&& other.players_view().len() == self.players_view().len()
        &&& other.current() == self.current()
        &&& other.players_view()[self.current()].name_view() == self.players_view()[self.current()].name_view()
        &&& other.current_hand() == hand
        &&& forall|i: int|
            0 <= i < self.players_view().len() && i != self.current() ==> #[trigger] other.players_view()[i]
                == self.players_view()[i]
    }

    /// An empty lobby, where a game begins.
    pub fn new() -> (l: Lobby)
        ensures
            l.well_formed(),
            l.names().len() == 0,
    {
        let l = Lobby { players: Vec::with_capacity(2) };
        assert(l.names() =~= Seq::empty());
        l
    }

    /// A game in the given state, with a fresh card source.
    pub fn from_parts(
        players: Vec<Player>,
        current_player_index: usize,
        turn_direction_reversed: bool,
        top_card: Card,
    ) -> (g: Game)
        requires
            players@.len() >= 2,
            current_player_index < players@.len(),
            top_card.well_formed(),
            forall|i: int| 0 <= i < players@.len() ==> #[trigger] players@[i].hand_well_formed(),
        ensures
            g.well_formed(),
            g.players_view() == players@,
            g.current() == current_player_index,
            g.reversed() == turn_direction_reversed,
            g.top() == top_card,
    {
        Game {
            players,
            current_player_idx: current_player_index,
            turn_direction_reversed,
            deck: InfiniteDeck::new(),
            top_card,
        }
    }

    pub fn number_of_players(&self) -> (r: usize)
        ensures
            r == self.players_view().len(),
    {
        self.players.len()
    }

    /// The player whose turn it is.
    pub fn player(&self) -> (r: &Player)
        requires
            self.well_formed(),
        ensures
            *r == self.players_view()[self.current()],
    {
        &self.players[self.current_player_idx]
    }

    pub fn current_player_index(&self) -> (r: usize)
        ensures
            r == self.current(),
    {
        self.current_player_idx
    }

    /// The player in seat `index`.
    pub fn player_at(&self, index: usize) -> (r: &Player)
        requires
            index < self.players_view().len(),
        ensures
            *r == self.players_view()[index as int],
    {
        &self.players[index]
    }

    /// Passes the turn to the next seat in the direction of play.
    pub fn next_turn(&mut self)
        requires
            old(self).well_formed(),
        ensures
            final(self).well_formed(),
            final(self).current() == next_index(
                old(self).current(),
                old(self).players_view().len() as int,
                old(self).reversed(),
            ),
            final(self).players_view() == old(self).players_view(),
            final(self).reversed() == old(self).reversed(),
            final(self).top() == old(self).top(),
    {
        self.current_player_idx = array_next_index(
            self.current_player_idx,
            self.players.len(),
            self.turn_direction_reversed,
        );
    }

    pub fn turn_direction(&self) -> (r: &str)
        ensures
            r@ == if self.reversed() {
                "Counter Clockwise"@
            } else {
                "Clockwise"@
            },
    {
        if self.turn_direction_reversed {
            "Counter Clockwise"
        } else {
            "Clockwise"
        }
    }

    /// Turns the direction of play round.
    pub fn reverse(&mut self)
        requires
            old(self).well_formed(),
        ensures
            final(self).well_formed(),
            final(self).reversed() == !old(self).reversed(),
            final(self).current() == old(self).current(),
            final(self).players_view() == old(self).players_view(),
            final(self).top() == old(self).top(),
    {
        self.turn_direction_reversed = !self.turn_direction_reversed;
    }

    pub fn top_card(&self) -> (r: Card)
        ensures
            r == self.top(),
    {
        self.top_card
    }

    /// Adds a card at the end of the current player's hand.
    fn push_to_current_hand(&mut self, card: Card)
        requires
            old(self).well_formed(),
            card.well_formed(),
        ensures
            final(self).well_formed(),
            final(self).top() == old(self).top(),
            final(self).reversed() == old(self).reversed(),
            old(self).hands_after(&*final(self), old(self).current_hand().push(card)),
    {
        let idx = self.current_player_idx;
        proof {
            assert(self.players_view()[idx as int].hand_well_formed());
        }
        self.players[idx].cards.push(card);
        proof {
            assert forall|i: int| 0 <= i < self.players_view().len() implies #[trigger] self.players_view()[i].hand_well_formed() by {
                if i != idx {
                    assert(old(self).players_view()[i].hand_well_formed());
                } else {
                    let hand = self.current_hand();
                    assert forall|j: int| 0 <= j < hand.len() implies #[trigger] hand[j].well_formed() by {
                        if j < hand.len() - 1 {
                            assert(hand[j] == old(self).current_hand()[j]);
                        }
                    }
                }
            }
        }
    }

    /// Takes the card at `card_index` out of the current player's hand.
    fn remove_from_current_hand(&mut self, card_index: usize)
        requires
            old(self).well_formed(),
            card_index < old(self).current_hand().len(),
        ensures
            final(self).well_formed(),
            final(self).top() == old(self).top(),
            final(self).reversed() == old(self).reversed(),
            old(self).hands_after(&*final(self), old(self).current_hand().remove(card_index as int)),
    {
        let idx = self.current_player_idx;
        proof {
            assert(self.players_view()[idx as int].hand_well_formed());
        }
        self.players[idx].cards.remove(card_index);
        proof {
            assert forall|i: int| 0 <= i < self.players_view().len() implies #[trigger] self.players_view()[i].hand_well_formed() by {
                if i != idx {
                    assert(old(self).players_view()[i].hand_well_formed());
                } else {
                    let hand = self.current_hand();
                    assert forall|j: int| 0 <= j < hand.len() implies #[trigger] hand[j].well_formed() by {
                        if j < card_index {
                            assert(hand[j] == old(self).current_hand()[j]);
                        } else {
                            assert(hand[j] == old(self).current_hand()[j + 1]);
                        }
                    }
                }
            }
        }
    }

    /// Plays the card at `card_index` (from 0) of the current player's hand:
    /// it leaves the hand and becomes the top card. The game is left as it was
    /// when the index is out of range or the card cannot be played.
    pub fn play(&mut self, card_index: usize) -> (r: Result<(), PlayError>)
        requires
            old(self).well_formed(),
        ensures
            final(self).well_formed(),
            card_index >= old(self).current_hand().len() ==> r == Err::<(), PlayError>(
                PlayError::InvalidCardIndex,
            ),
            card_index < old(self).current_hand().len() && !old(
                self,
            ).current_hand()[card_index as int].playable_on(old(self).top()) ==> r == Err::<
                (),
                PlayError,
            >(PlayError::CardUnplayable),
            r is Err ==> *final(self) == *old(self),
            r is Ok <==> card_index < old(self).current_hand().len() && old(
                self,
            ).current_hand()[card_index as int].playable_on(old(self).top()),
            r is Ok ==> {
                &&& final(self).top() == old(self).current_hand()[card_index as int]
                &&& old(self).hands_after(&*final(self), old(self).current_hand().remove(card_index as int))
                &&& final(self).reversed() == old(self).reversed()
            },
    {
        let idx = self.current_player_idx;
        if card_index >= self.players[idx].cards.len() {
            return Err(PlayError::InvalidCardIndex);
        }
        let card = self.players[idx].cards[card_index];
        if !card.is_playable_on(self.top_card) {
            return Err(PlayError::CardUnplayable);
        }
        proof {
            assert(self.players_view()[idx as int].hand_well_formed());
            assert(card.well_formed());
        }
        self.remove_from_current_hand(card_index);
        self.top_card = card;
        Ok(())
    }

    /// Takes a card that the current player has just drawn: when it can be
    /// played on the top card it is played at once and `None` comes back;
    /// otherwise it joins the player's hand and comes back.
    pub fn take_drawn_card(&mut self, card: Card) -> (r: Option<Card>)
        requires
            old(self).well_formed(),
            card.well_formed(),
        ensures
            final(self).well_formed(),
            final(self).reversed() == old(self).reversed(),
            card.playable_on(old(self).top()) ==> {
                &&& r is None
                &&& final(self).top() == card
                &&& final(self).players_view() == old(self).players_view()
                &&& final(self).current() == old(self).current()
            },
            !card.playable_on(old(self).top()) ==> {
                &&& r == Some(card)
                &&& final(self).top() == old(self).top()
                &&& old(self).hands_after(&*final(self), old(self).current_hand().push(card))
            },
    {
        if card.is_playable_on(self.top_card) {
            self.top_card = card;
            None
        } else {
            self.push_to_current_hand(card);
            Some(card)
        }
    }

    /// Draws one card for the current player, who must play it at once when it
    /// is playable (`None`), and otherwise keeps it (`Some` of it).
    pub fn draw_one(&mut self) -> (r: Option<Card>)
        requires
            old(self).well_formed(),
        ensures
            final(self).well_formed(),
            final(self).reversed() == old(self).reversed(),
            r is None ==> {
                &&& final(self).top().is_fresh()
                &&& final(self).top().playable_on(old(self).top())
                &&& final(self).players_view() == old(self).players_view()
                &&& final(self).current() == old(self).current()
            },
            r matches Some(c) ==> {
                &&& c.is_fresh()
                &&& !c.playable_on(old(self).top())
                &&& final(self).top() == old(self).top()
                &&& old(self).hands_after(&*final(self), old(self).current_hand().push(c))
            },
    {
        let card = self.deck.draw();
        self.take_drawn_card(card)
    }

    /// The current player draws `number_of_cards` cards into their hand,
    /// whether they could be played or not.
    pub fn draw_multiple(&mut self, number_of_cards: u8)
        requires
            old(self).well_formed(),
        ensures
            final(self).well_formed(),
            final(self).reversed() == old(self).reversed(),
            final(self).top() == old(self).top(),
            old(self).hands_after(&*final(self), final(self).current_hand()),
            final(self).current_hand().len() == old(self).current_hand().len() + number_of_cards,
            final(self).current_hand().subrange(0, old(self).current_hand().len() as int) == old(
                self,
            ).current_hand(),
            forall|i: int|
                old(self).current_hand().len() <= i < final(self).current_hand().len()
                    ==> #[trigger] final(self).current_hand()[i].is_fresh(),
    {
        let idx = self.current_player_idx;
        let ghost start = self.players@;
        let mut k: u8 = 0;
        while k < number_of_cards
            invariant
                self.well_formed(),
                idx == self.current(),
                k <= number_of_cards,
                self.reversed() == old(self).reversed(),
                self.top() == old(self).top(),
                start == old(self).players_view(),
                old(self).current() == idx,
                old(self).hands_after(&*self, self.current_hand()),
                self.current_hand().len() == start[idx as int].hand().len() + k,
                self.current_hand().subrange(0, start[idx as int].hand().len() as int)
                    == start[idx as int].hand(),
                forall|i: int|
                    start[idx as int].hand().len() <= i < self.current_hand().len()
                        ==> #[trigger] self.current_hand()[i].is_fresh(),
            decreases number_of_cards - k,
        {
            let card = self.deck.draw();
            self.push_to_current_hand(card);
            assert(self.current_hand().subrange(0, start[idx as int].hand().len() as int)
                =~= start[idx as int].hand());
            k += 1;
        }
    }

    /// Whether the top card is wild with its color still to be chosen.
    pub fn needs_color(&self) -> (r: bool)
        ensures
            r == (self.top().card_type.is_wild() && self.top().color == Color::Unpicked),
    {
        match self.top_card.card_type {
            CardType::Wildcard | CardType::DrawFourWildcard => self.top_card.color == Color::Unpicked,
            _ => false,
        }
    }

    /// What the starting top card does before the first turn.
    pub fn opening_effect(&self) -> (e: Effect)
        ensures
            e == opening_effect_of(self.top().card_type),
    {
        match self.top_card.card_type {
            CardType::Skip => Effect::Skip,
            CardType::Reverse => Effect::ReverseAndSkip,
            CardType::DrawTwo => Effect::DrawAndSkip(2),
            CardType::Wildcard => Effect::PickColor,
            _ => Effect::Nothing,
        }
    }

    /// What the top card does to the player whose turn it has just become.
    pub fn arrival_effect(&self) -> (e: Effect)
        ensures
            e == arrival_effect_of(self.top().card_type, self.players_view().len() as int),
    {
        match self.top_card.card_type {
            CardType::Skip => Effect::Skip,
            CardType::Reverse => if self.players.len() == 2 {
                Effect::Skip
            } else {
                Effect::Nothing
            },
            CardType::DrawTwo => Effect::DrawAndSkip(2),
            CardType::DrawFourWildcard => Effect::DrawAndSkip(4),
            _ => Effect::Nothing,
        }
    }

    /// Carries out an effect on the current player; `Nothing` and `PickColor`
    /// leave the game as it is (the color is set by `set_wildcard_color`).
    pub fn apply_effect(&mut self, effect: Effect)
        requires
            old(self).well_formed(),
        ensures
            final(self).well_formed(),
            final(self).top() == old(self).top(),
            final(self).reversed() == (old(self).reversed() != (effect is ReverseAndSkip)),
            effect is Nothing || effect is PickColor ==> *final(self) == *old(self),
            effect is Skip || effect is ReverseAndSkip ==> final(self).players_view() == old(
                self,
            ).players_view(),
            !(effect is Nothing || effect is PickColor) ==> final(self).current() == next_index(
                old(self).current(),
                old(self).players_view().len() as int,
                final(self).reversed(),
            ),
            effect matches Effect::DrawAndSkip(n) ==> {
                &&& old(self).players_view().len() == final(self).players_view().len()
                &&& forall|i: int|
                    0 <= i < old(self).players_view().len() && i != old(self).current()
                        ==> #[trigger] final(self).players_view()[i] == old(self).players_view()[i]
                &&& final(self).players_view()[old(self).current()].hand().len()
                    == old(self).current_hand().len() + n
                &&& final(self).players_view()[old(self).current()].hand().subrange(
                    0,
                    old(self).current_hand().len() as int,
                ) == old(self).current_hand()
            },
    {
        match effect {
            Effect::Skip => self.next_turn(),
            Effect::ReverseAndSkip => {
                self.reverse();
                self.next_turn();
            },
            Effect::DrawAndSkip(n) => {
                self.draw_multiple(n);
                self.next_turn();
            },
            Effect::Nothing | Effect::PickColor => {},
        }
    }

    /// Ends the turn of a player who has just played (and, for a wild card,
    /// chosen its color): a reverse turns the direction, then the turn passes.
    pub fn end_turn_after_play(&mut self)
        requires
            old(self).well_formed(),
        ensures
            final(self).well_formed(),
            final(self).reversed() == (old(self).reversed() != (old(self).top().card_type is Reverse)),
            final(self).current() == next_index(
                old(self).current(),
                old(self).players_view().len() as int,
                final(self).reversed(),
            ),
            final(self).players_view() == old(self).players_view(),
            final(self).top() == old(self).top(),
    {
        if self.top_card.card_type == CardType::Reverse {
            self.reverse();
        }
        self.next_turn();
    }

    /// The seats in clockwise order, for showing the order of play: from the
    /// current player when going clockwise, and from the seat after the current
    /// player (so that the current player comes last) when going counter
    /// clockwise.
    pub fn turn_order(&self) -> (r: Vec<usize>)
        requires
            self.well_formed(),
        ensures
            r@.len() == self.players_view().len(),
            forall|k: int|
                0 <= k < r@.len() ==> #[trigger] r@[k] == advance(
                    if self.reversed() {
                        next_index(self.current(), self.players_view().len() as int, false)
                    } else {
                        self.current()
                    },
                    self.players_view().len() as int,
                    false,
                    k as nat,
                ),
    {
        let length = self.players.len();
        let mut index = self.current_player_idx;
        if self.turn_direction_reversed {
            index = array_next_index(index, length, false);
        }
        let ghost first = index as int;
        let mut order: Vec<usize> = Vec::with_capacity(length);
        while order.len() < length
            invariant
                length == self.players_view().len(),
                index < length,
                order@.len() <= length,
                index == advance(first, length as int, false, order@.len() as nat),
                forall|k: int|
                    0 <= k < order@.len() ==> #[trigger] order@[k] == advance(first, length as int, false, k as nat),
            decreases length - order@.len(),
        {
            order.push(index);
            index = array_next_index(index, length, false);
        }
        order
    }

    /// Gives the wild top card the chosen color; does nothing, and returns
    /// false, when the top card is not wild or the color is `Unpicked`.
    pub fn set_wildcard_color(&mut self, color: Color) -> (r: bool)
        requires
            old(self).well_formed(),
        ensures
            final(self).well_formed(),
            r == (old(self).top().card_type.is_wild() && color != Color::Unpicked),
            r ==> final(self).top() == (Card { card_type: old(self).top().card_type, color }),
            r ==> final(self).players_view() == old(self).players_view() && final(self).current()
                == old(self).current() && final(self).reversed() == old(self).reversed(),
            !r ==> *final(self) == *old(self),
    {
        match self.top_card.card_type {
            CardType::Wildcard | CardType::DrawFourWildcard => {
                if color == Color::Unpicked {
                    false
                } else {
                    self.top_card = Card::new(self.top_card.card_type, color);
                    true
                }
            },
            _ => false,
        }
    }
}

} // verus!
