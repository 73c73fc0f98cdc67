//! Playing cards and the deck they are drawn from.

use rand::seq::SliceRandom;
use vstd::prelude::*;

verus! {

/// The suit of a card.
#[derive(Debug, Clone, Copy, PartialEq, Eq, Structural)]
pub enum Suit {
    Spade,
    Heart,
    Diamond,
    Club,
}

/// The rank of a card.
#[derive(Debug, Clone, Copy, PartialEq, Eq, Structural)]
pub enum Rank {
    Ace,
    Two,
    Three,
    Four,
    Five,
    Six,
    Seven,
    Eight,
    Nine,
    Ten,
    Jack,
    Queen,
    King,
}

/// A playing card.
#[derive(Debug, Clone, Copy, PartialEq, Eq, Structural)]
pub struct Card {
    pub rank: Rank,
    pub suit: Suit,
}

/// The suits in the order in which a new deck holds them.
pub open spec fn suit_at(i: int) -> Suit {
    if i == 0 {
        Suit::Club
    } else if i == 1 {
        Suit::Diamond
    } else if i == 2 {
        Suit::Heart
    } else {
        Suit::Spade
    }
}

/// The ranks in the order in which a new deck holds them within a suit.
pub open spec fn rank_at(i: int) -> Rank {
    if i == 0 {
        Rank::Ace
    } else if i == 1 {
        Rank::Two
    } else if i == 2 {
        Rank::Three
    } else if i == 3 {
        Rank::Four
    } else if i == 4 {
        Rank::Five
    } else if i == 5 {
        Rank::Six
    } else if i == 6 {
        Rank::Seven
    } else if i == 7 {
        Rank::Eight
    } else if i == 8 {
        Rank::Nine
    } else if i == 9 {
        Rank::Ten
    } else if i == 10 {
        Rank::Jack
    } else if i == 11 {
        Rank::Queen
    } else {
        Rank::King
    }
}

/// The card at place `k` of a new deck: suit by suit, thirteen ranks each.
pub open spec fn fresh_card(k: int) -> Card {
    Card { rank: rank_at(k % 13), suit: suit_at(k / 13) }
}

/// A new deck: all 52 cards, clubs first and spades last, each suit from the
/// ace up to the king.
pub open spec fn fresh_deck() -> Seq<Card> {
    Seq::new(52, |k: int| fresh_card(k))
}

impl Card {
    pub fn new(rank: Rank, suit: Suit) -> (card: Self)
        ensures
            card == (Card { rank, suit }),
    {
        Card { rank, suit }
    }
}

/// A deck of cards. Cards are drawn from its end.
#[derive(Debug)]
pub struct Deck {
    cards: Vec<Card>,
}

impl View for Deck {
    type V = Seq<Card>;

    /// The cards of the deck, the next one to be drawn last.
    closed spec fn view(&self) -> Seq<Card> {
        self.cards@
    }
}

/// Calls `shuffle` of rand's `SliceRandom` on the cards, with the generator
/// that `rand::thread_rng` hands out. The order that comes out is left open;
/// what is claimed is that shuffling only swaps cards, so the same cards are
/// there afterwards, each as often as before. The generator is seeded from
/// the operating system when a thread first asks for it.
#[verifier::external_body]
fn shuffle_cards(cards: &mut Vec<Card>)
    ensures
        final(cards)@.to_multiset() == old(cards)@.to_multiset(),
{
    cards.shuffle(&mut rand::thread_rng());
}

impl Deck {
    /// A new deck, in the order of [`fresh_deck`].
    pub fn new() -> (deck: Self)
        ensures
            deck@ == fresh_deck(),
    {
        let mut cards: Vec<Card> = Vec::new();
        let suits = [Suit::Club, Suit::Diamond, Suit::Heart, Suit::Spade];
        let ranks = [
            Rank::Ace,
            Rank::Two,
            Rank::Three,
            Rank::Four,
            Rank::Five,
            Rank::Six,
            Rank::Seven,
            Rank::Eight,
            Rank::Nine,
            Rank::Ten,
            Rank::Jack,
            Rank::Queen,
            Rank::King,
        ];
        let mut i: usize = 0;
        while i < 4
            invariant
                i <= 4,
                cards.len() == 13 * i,
                forall|k: int| 0 <= k < cards.len() ==> cards[k] == fresh_card(k),
                forall|s: int| 0 <= s < 4 ==> suits[s] == suit_at(s),
                forall|r: int| 0 <= r < 13 ==> ranks[r] == rank_at(r),
            decreases 4 - i,
        {
            let mut j: usize = 0;
            while j < 13
                invariant
                    i < 4,
                    j <= 13,
                    cards.len() == 13 * i + j,
                    forall|k: int| 0 <= k < cards.len() ==> cards[k] == fresh_card(k),
                    forall|s: int| 0 <= s < 4 ==> suits[s] == suit_at(s),
                    forall|r: int| 0 <= r < 13 ==> ranks[r] == rank_at(r),
                decreases 13 - j,
            {
                cards.push(Card::new(ranks[j], suits[i]));
                j = j + 1;
            }
            i = i + 1;
        }
        Deck { cards }
    }

    /// Puts the cards of the deck in a random order. No card is lost and none
    /// is added.
    pub fn shuffle(&mut self)
        ensures
            final(self)@.to_multiset() == old(self)@.to_multiset(),
            final(self)@.len() == old(self)@.len(),
    {
        shuffle_cards(&mut self.cards);
        proof {
            old(self)@.to_multiset_ensures();
            final(self)@.to_multiset_ensures();
        }
    }

    /// Takes the last card off the deck, if the deck has one.
    pub fn draw(&mut self) -> (card: Option<Card>)
        ensures
            old(self)@.len() == 0 ==> card is None && final(self)@ == old(self)@,
            old(self)@.len() > 0 ==> card == Some(old(self)@.last()) && final(self)@ == old(
                self,
            )@.drop_last(),
    {
        self.cards.pop()
    }

    /// The number of cards left in the deck.
    pub fn len(&self) -> (n: usize)
        ensures
            n == self@.len(),
    {
        self.cards.len()
    }
}

} // verus!
