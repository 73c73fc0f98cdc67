use rust_user::cards::{Card, Deck, Rank, Suit};

const SUITS: [Suit; 4] = [Suit::Club, Suit::Diamond, Suit::Heart, Suit::Spade];
const RANKS: [Rank; 13] = [
    Rank::Ace,
    Rank::Two,
    Rank::Three,
    Rank::Four,
    Rank::Five,
    Rank::Six,
    Rank::Seven,
    Rank::Eight,
    Rank::Nine,
    Rank::Ten,
    Rank::Jack,
    Rank::Queen,
    Rank::King,
];

fn drain(mut deck: Deck) -> Vec<Card> {
    let mut drawn = Vec::new();
    while let Some(card) = deck.draw() {
        drawn.push(card);
    }
    drawn
}

fn count(cards: &[Card], rank: Rank, suit: Suit) -> usize {
    cards.iter().filter(|c| c.rank == rank && c.suit == suit).count()
}

#[test]
fn card_new_keeps_rank_and_suit() {
    let card = Card::new(Rank::Queen, Suit::Heart);
    assert_eq!(card.rank, Rank::Queen);
    assert_eq!(card.suit, Suit::Heart);
    assert_eq!(card, Card { rank: Rank::Queen, suit: Suit::Heart });
}

#[test]
fn a_new_deck_has_52_cards() {
    assert_eq!(Deck::new().len(), 52);
}

#[test]
fn a_new_deck_is_drawn_from_the_king_of_spades_down() {
    let mut deck = Deck::new();
    assert_eq!(deck.draw(), Some(Card { rank: Rank::King, suit: Suit::Spade }));
    assert_eq!(deck.draw(), Some(Card { rank: Rank::Queen, suit: Suit::Spade }));
    assert_eq!(deck.len(), 50);
}

#[test]
fn a_new_deck_holds_suit_after_suit() {
    let mut drawn = drain(Deck::new());
    drawn.reverse();
    let mut expected = Vec::new();
    for suit in SUITS {
        for rank in RANKS {
            expected.push(Card { rank, suit });
        }
    }
    assert_eq!(drawn, expected);
    assert_eq!(drawn[0], Card { rank: Rank::Ace, suit: Suit::Club });
    assert_eq!(drawn[13], Card { rank: Rank::Ace, suit: Suit::Diamond });
    assert_eq!(drawn[51], Card { rank: Rank::King, suit: Suit::Spade });
}

#[test]
fn an_empty_deck_gives_no_card() {
    let mut deck = Deck::new();
    for _ in 0..52 {
        assert!(deck.draw().is_some());
    }
    assert_eq!(deck.len(), 0);
    assert_eq!(deck.draw(), None);
    assert_eq!(deck.draw(), None);
    assert_eq!(deck.len(), 0);
}

#[test]
fn shuffle_keeps_every_card_once() {
    let mut deck = Deck::new();
    deck.shuffle();
    assert_eq!(deck.len(), 52);
    let drawn = drain(deck);
    assert_eq!(drawn.len(), 52);
    for suit in SUITS {
        for rank in RANKS {
            assert_eq!(count(&drawn, rank, suit), 1);
        }
    }
}

#[test]
fn shuffle_of_a_short_deck_keeps_its_cards() {
    let mut deck = Deck::new();
    for _ in 0..50 {
        deck.draw();
    }
    deck.shuffle();
    let drawn = drain(deck);
    assert_eq!(drawn.len(), 2);
    assert_eq!(count(&drawn, Rank::Ace, Suit::Club), 1);
    assert_eq!(count(&drawn, Rank::Two, Suit::Club), 1);
}

#[test]
fn shuffle_changes_the_order() {
    let fresh = drain(Deck::new());
    let mut differs = false;
    for _ in 0..4 {
        let mut deck = Deck::new();
        deck.shuffle();
        if drain(deck) != fresh {
            differs = true;
        }
    }
    assert!(differs);
}
