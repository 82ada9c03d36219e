use vstd::prelude::*;
use vstd::arithmetic::div_mod::{lemma_fundamental_div_mod, lemma_fundamental_div_mod_converse};
use rand::rngs::SmallRng;
use rand::{Rng, SeedableRng};
use crate::card::{Card, CardType, Color};

verus! {

#[verifier::external_type_specification]
#[verifier::external_body]
pub struct ExSmallRng(SmallRng);

/// The largest seed of one draw: 27 type buckets times 4 colors, less one.
pub const MAX_SEED: u8 = 107;

/// The card type of a bucket: 0 is the single zero, 1 to 18 are two runs of
/// the numbers 1 to 9, then two buckets each for skip, reverse and draw two,
/// and one each for the two wild cards.
pub open spec fn type_of_bucket(bucket: u8) -> CardType {
    if bucket == 0 {
        CardType::Number(0)
    } else if bucket <= 9 {
        CardType::Number(bucket)
    } else if bucket <= 18 {
        CardType::Number((bucket - 9) as u8)
    } else if bucket <= 20 {
        CardType::Skip
    } else if bucket <= 22 {
        CardType::Reverse
    } else if bucket <= 24 {
        CardType::DrawTwo
    } else if bucket == 25 {
        CardType::Wildcard
    } else {
        CardType::DrawFourWildcard
    }
}

/// The color of a color component from 0 to 3.
pub open spec fn color_of_index(index: u8) -> Color {
    if index == 0 {
        Color::Red
    } else if index == 1 {
        Color::Green
    } else if index == 2 {
        Color::Blue
    } else {
        Color::Yellow
    }
}

/// The card that a seed from 0 to 107 stands for: its remainder by 27 picks the
/// type, its quotient the color, which wild cards leave unpicked.
pub open spec fn card_of_seed(seed: u8) -> Card {
    let card_type = type_of_bucket(seed % 27);
    Card {
        card_type,
        color: if card_type.is_wild() {
            Color::Unpicked
        } else {
            color_of_index(seed / 27)
        },
    }
}

/// Maps a seed of the card source to its card.
pub fn card_from_seed(seed: u8) -> (c: Card)
    requires
        seed <= MAX_SEED,
    ensures
        c == card_of_seed(seed),
        c.is_fresh(),
{
    let bucket: u8 = seed % 27;
    let card_type = if bucket == 0 {
        CardType::Number(0)
    } else if bucket <= 9 {
        CardType::Number(bucket)
    } else if bucket <= 18 {
        CardType::Number(bucket - 9)
    } else if bucket <= 20 {
        CardType::Skip
    } else if bucket <= 22 {
        CardType::Reverse
    } else if bucket <= 24 {
        CardType::DrawTwo
    } else if bucket == 25 {
        CardType::Wildcard
    } else {
        CardType::DrawFourWildcard
    };
    let color = match card_type {
        CardType::Wildcard | CardType::DrawFourWildcard => Color::Unpicked,
        _ => {
            let index: u8 = seed / 27;
            if index == 0 {
                Color::Red
            } else if index == 1 {
                Color::Green
            } else if index == 2 {
                Color::Blue
            } else {
                Color::Yellow
            }
        },
    };
    Card::new(card_type, color)
}

/// Relies on `SeedableRng::from_entropy` of rand to seed a small generator from
/// the operating system (which panics only where the system has no entropy).
#[verifier::external_body]
fn small_rng_from_entropy() -> SmallRng {
    SmallRng::from_entropy()
}

/// Relies on `Rng::gen_range` of rand: on the non-empty range `low..=high` it
/// returns a value of that range.
#[verifier::external_body]
fn small_rng_in_range(rng: &mut SmallRng, low: u8, high: u8) -> (r: u8)
    requires
        low <= high,
    ensures
        low <= r <= high,
{
    rng.gen_range(low..=high)
}

/// An endless source of cards, each drawn independently and uniformly over the
/// seeds, so that types and colors come in a full deck's proportions.
pub struct InfiniteDeck {
    rng: SmallRng,
}

impl InfiniteDeck {
    pub fn new() -> InfiniteDeck {
        InfiniteDeck { rng: small_rng_from_entropy() }
    }

    /// Draws one card; it is the card of some seed.
    pub fn draw(&mut self) -> (c: Card)
        ensures
            c.is_fresh(),
            exists|seed: u8| seed <= MAX_SEED && c == card_of_seed(seed),
    {
        let seed = small_rng_in_range(&mut self.rng, 0, MAX_SEED);
        card_from_seed(seed)
    }

    /// Draws one card from the cards other than the draw-four wild card, each
    /// of their seeds being equally likely.
    pub fn draw_other_than_draw_four(&mut self) -> (c: Card)
        ensures
            c.is_fresh(),
            c.card_type != CardType::DrawFourWildcard,
            exists|seed: u8| seed <= MAX_SEED && c == card_of_seed(seed),
    {
        // 104 seeds are left once every 27th is passed over.
        let index = small_rng_in_range(&mut self.rng, 0, 103);
        let seed: u8 = index + index / 26;
        proof {
            lemma_fundamental_div_mod(index as int, 26);
            lemma_fundamental_div_mod_converse(seed as int, 27, (index / 26) as int, (index % 26) as int);
        }
        card_from_seed(seed)
    }
}

} // verus!
