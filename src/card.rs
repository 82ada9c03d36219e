use vstd::prelude::*;

verus! {

/// The color of a card. `Unpicked` only ever stands on a wild card whose color
/// has not been chosen yet.
#[derive(Debug, Clone, Copy, PartialEq, Eq, Structural)]
pub enum Color {
    Red,
    Green,
    Blue,
    Yellow,
    Unpicked,
}

impl Color {
    /// The color chosen from a menu that numbers Red, Green, Blue and Yellow
    /// from 1 to 4; `None` for any other number.
    pub fn from_menu_choice(choice: u8) -> (r: Option<Color>)
        ensures
            choice == 1 ==> r == Some(Color::Red),
            choice == 2 ==> r == Some(Color::Green),
            choice == 3 ==> r == Some(Color::Blue),
            choice == 4 ==> r == Some(Color::Yellow),
            !(1 <= choice <= 4) ==> r is None,
    {
        match choice {
            1 => Some(Color::Red),
            2 => Some(Color::Green),
            3 => Some(Color::Blue),
            4 => Some(Color::Yellow),
            _ => None,
        }
    }
}

/// What a card does, or its number.
#[derive(Debug, Clone, Copy, PartialEq, Eq, Structural)]
pub enum CardType {
    Number(u8),
    Skip,
    Reverse,
    DrawTwo,
    Wildcard,
    DrawFourWildcard,
}

impl CardType {
    /// Wild cards play on anything and get their color from the player.
    pub open spec fn is_wild(self) -> bool {
        self is Wildcard || self is DrawFourWildcard
    }
}

/// A card: a type and a color. Cards are plain values.
#[derive(Debug, Clone, Copy, PartialEq, Eq, Structural)]
pub struct Card {
    pub card_type: CardType,
    pub color: Color,
}

impl Card {
    /// A card that can exist in play: numbers run from 0 to 9, and only a
    /// wild card may be without a color.
    pub open spec fn well_formed(self) -> bool {
        &&& (self.card_type matches CardType::Number(n) ==> n <= 9)
        &&& (!self.card_type.is_wild() ==> self.color != Color::Unpicked)
    }

    /// A card as it comes from the card source: well formed, and a wild card
    /// still has its color unpicked.
    pub open spec fn is_fresh(self) -> bool {
        &&& self.well_formed()
        &&& (self.card_type.is_wild() ==> self.color == Color::Unpicked)
    }

    /// The playability rule: `self` may be put on `reference` when it is wild,
    /// when both have the same type (for numbers, the same value), or when
    /// both have the same color.
    pub open spec fn playable_on(self, reference: Card) -> bool {
        ||| self.card_type.is_wild()
        ||| self.card_type == reference.card_type
        ||| self.color == reference.color
    }

    pub fn new(card_type: CardType, color: Color) -> (r: Card)
        ensures
            r.card_type == card_type,
            r.color == color,
    {
        Card { card_type, color }
    }

    /// Whether this card may be played on `card`, the current top card.
    pub fn is_playable_on(&self, card: Card) -> (r: bool)
        ensures
            r == self.playable_on(card),
    {
        match (self.card_type, card.card_type) {
            (CardType::Wildcard, _) | (CardType::DrawFourWildcard, _) | (
                CardType::Skip,
                CardType::Skip,
            ) | (CardType::Reverse, CardType::Reverse) | (CardType::DrawTwo, CardType::DrawTwo) => {
                true
            },
            (CardType::Number(value1), CardType::Number(value2)) if value1 == value2 => true,
            _ => self.color == card.color,
        }
    }
}

/// Two cards of the same type and color may each be played on the other.
pub proof fn lemma_identical_cards_playable(a: Card, b: Card)
    requires
        a.card_type == b.card_type,
        a.color == b.color,
    ensures
        a.playable_on(b),
        b.playable_on(a),
{
}

/// A wild card may be played on any card, and a well-formed card that is not
/// wild may not be played on a wild card whose color is still unpicked.
pub proof fn lemma_wild_cards(wild: Card, other: Card)
    requires
        wild.card_type.is_wild(),
    ensures
        wild.playable_on(other),
        other.well_formed() && !other.card_type.is_wild() && wild.color == Color::Unpicked
            ==> !other.playable_on(wild),
{
}

} // verus!
