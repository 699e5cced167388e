use vstd::prelude::*;
use rand::seq::SliceRandom;

use crate::card::{Card, CardModel, Side};
use crate::records::{csv_records, read_csv_records, records_view};

verus! {

/// Why a deck could not be loaded.
#[derive(Debug, Clone, Copy, PartialEq, Eq, Structural)]
pub enum LoadError {
    /// The source could not be opened or read.
    SourceUnavailable,
    /// A record could not be parsed at all.
    MalformedRecord,
    /// The source holds no records.
    EmptyDeck,
}

/// What a deck is, abstractly: its cards in order and the cursor.
pub struct DeckModel {
    pub cards: Seq<CardModel>,
    pub index: int,
}

/// The text put in place of a field that a record lacks.
pub open spec fn placeholder_text() -> Seq<char> {
    "could not read"@
}

/// Field `i` of a record, or the placeholder where the record is too short.
pub open spec fn field_or_placeholder(rec: Seq<Seq<char>>, i: int) -> Seq<char> {
    if i < rec.len() {
        rec[i]
    } else {
        placeholder_text()
    }
}

/// The card made from a record: its first two fields, front showing.
pub open spec fn card_of_record(rec: Seq<Seq<char>>) -> CardModel {
    CardModel {
        front: field_or_placeholder(rec, 0),
        back: field_or_placeholder(rec, 1),
        side: Side::Front,
    }
}

/// The deck made from a list of records, with the cursor on the first card.
pub open spec fn deck_of_records(recs: Seq<Seq<Seq<char>>>) -> DeckModel {
    DeckModel { cards: recs.map_values(|r: Seq<Seq<char>>| card_of_record(r)), index: 0 }
}

impl DeckModel {
    /// A deck has at least one card and its cursor is on one of them.
    pub open spec fn wf(self) -> bool {
        0 <= self.index < self.cards.len()
    }

    /// The card under the cursor.
    pub open spec fn current(self) -> CardModel {
        self.cards[self.index]
    }

    /// The position after the cursor, wrapping to the first.
    pub open spec fn next_index(self) -> int {
        if self.index + 1 < self.cards.len() {
            self.index + 1
        } else {
            0
        }
    }

    /// The position before the cursor, wrapping to the last.
    pub open spec fn prev_index(self) -> int {
        if self.index > 0 {
            self.index - 1
        } else {
            self.cards.len() - 1
        }
    }

    /// The cursor put on position `i`, whose card then shows its front.
    pub open spec fn moved_to(self, i: int) -> DeckModel {
        DeckModel { cards: self.cards.update(i, self.cards[i].to_front()), index: i }
    }

    /// The deck after one step forward.
    pub open spec fn advanced(self) -> DeckModel {
        self.moved_to(self.next_index())
    }

    /// The deck after one step back.
    pub open spec fn retreated(self) -> DeckModel {
        self.moved_to(self.prev_index())
    }

    /// The card under the cursor turned over; nothing else changes.
    pub open spec fn flipped(self) -> DeckModel {
        DeckModel {
            cards: self.cards.update(self.index, self.current().flipped()),
            index: self.index,
        }
    }

    /// The deck after `n` advances.
    pub open spec fn advanced_times(self, n: nat) -> DeckModel
        decreases n,
    {
        if n == 0 {
            self
        } else {
            self.advanced_times((n - 1) as nat).advanced()
        }
    }
}

/// Relies on rand's `SliceRandom::shuffle` with `thread_rng`: it reorders the
/// items in place by swapping them, so the same items remain.
#[verifier::external_body]
fn shuffle_in_place<T>(v: &mut Vec<T>)
    ensures
        final(v)@.to_multiset() == old(v)@.to_multiset(),
{
    v.shuffle(&mut rand::thread_rng());
}

fn placeholder() -> (r: String)
    ensures
        r@ == placeholder_text(),
{
    "could not read".to_owned()
}

/// An ordered set of cards with a cursor on one of them.
#[derive(Debug)]
pub struct Deck {
    cards: Vec<Card>,
    current_card_index: usize,
}

impl View for Deck {
    type V = DeckModel;

    closed spec fn view(&self) -> DeckModel {
        DeckModel {
            cards: self.cards@.map_values(|c: Card| c@),
            index: self.current_card_index as int,
        }
    }
}

impl Deck {
    /// Builds a deck from records of fields: each record gives a card whose
    /// front and back are its first two fields, with a placeholder for a
    /// missing one. Fails only where there are no records.
    pub fn from_records(records: &Vec<Vec<String>>) -> (r: Result<Deck, LoadError>)
        ensures
            records@.len() == 0 ==> r == Err::<Deck, LoadError>(LoadError::EmptyDeck),
            records@.len() > 0 ==> r is Ok && r->Ok_0@ == deck_of_records(records_view(records@)),
            r matches Ok(d) ==> d@.wf(),
    {
        if records.len() == 0 {
            return Err(LoadError::EmptyDeck);
        }
        let ghost recs = records_view(records@);
        let mut cards: Vec<Card> = Vec::new();
        let mut i: usize = 0;
        while i < records.len()
            invariant
                i <= records@.len(),
                recs == records_view(records@),
                cards@.len() == i,
                forall|j: int| 0 <= j < i ==> #[trigger] cards@[j]@ == card_of_record(recs[j]),
            decreases records.len() - i,
        {
            let rec = &records[i];
            let front = if rec.len() > 0 {
                rec[0].clone()
            } else {
                placeholder()
            };
            let back = if rec.len() > 1 {
                rec[1].clone()
            } else {
                placeholder()
            };
            assert(recs[i as int] == rec@.map_values(|s: String| s@));
            cards.push(Card::new(front, back));
            i += 1;
        }
        let deck = Deck { cards, current_card_index: 0 };
        assert(deck@.cards =~= deck_of_records(recs).cards);
        Ok(deck)
    }

    /// Loads a deck from the bytes of a comma-separated file whose first
    /// line is a header. Rows may differ in length: a row short of a field
    /// gets the placeholder for it. A file that csv cannot read (text that is
    /// not UTF-8, say) gives `MalformedRecord`; one with no records gives
    /// `EmptyDeck`.
    pub fn new(data: &[u8]) -> (r: Result<Deck, LoadError>)
        ensures
            match csv_records(data@) {
                None => r == Err::<Deck, LoadError>(LoadError::MalformedRecord),
                Some(recs) => if recs.len() == 0 {
                    r == Err::<Deck, LoadError>(LoadError::EmptyDeck)
                } else {
                    r is Ok && r->Ok_0@ == deck_of_records(recs)
                },
            },
            r matches Ok(d) ==> d@.wf(),
    {
        match read_csv_records(data) {
            Ok(records) => Deck::from_records(&records),
            Err(_) => Err(LoadError::MalformedRecord),
        }
    }

    /// The text showing on the card under the cursor.
    pub fn get_current_card_text(&self) -> (r: &str)
        requires
            self@.wf(),
        ensures
            r@ == self@.current().visible_text(),
    {
        self.cards[self.current_card_index].get_text().as_str()
    }

    /// "Front" or "Back", for the card under the cursor.
    pub fn get_current_card_side(&self) -> (r: &str)
        requires
            self@.wf(),
        ensures
            r@ == self@.current().side.label(),
    {
        self.cards[self.current_card_index].get_side()
    }

    /// The position of the cursor, counted from zero.
    pub fn get_current_card_index(&self) -> (r: usize)
        ensures
            r == self@.index,
    {
        self.current_card_index
    }

    /// The number of cards.
    pub fn get_deck_size(&self) -> (r: usize)
        ensures
            r == self@.cards.len(),
    {
        self.cards.len()
    }

    /// Turns over the card under the cursor.
    pub fn flip_current_card(&mut self)
        requires
            old(self)@.wf(),
        ensures
            final(self)@ == old(self)@.flipped(),
            final(self)@.wf(),
    {
        let i = self.current_card_index;
        self.cards[i].flip();
        assert(self@.cards =~= old(self)@.flipped().cards);
    }

    fn show_front_at(&mut self, i: usize)
        requires
            i < old(self)@.cards.len(),
        ensures
            final(self)@ == old(self)@.moved_to(i as int),
    {
        self.current_card_index = i;
        self.cards[i].show_front();
        assert(self@.cards =~= old(self)@.moved_to(i as int).cards);
    }

    /// Moves the cursor to the next card, wrapping from the last to the
    /// first, and shows that card's front.
    pub fn next(&mut self)
        requires
            old(self)@.wf(),
        ensures
            final(self)@ == old(self)@.advanced(),
            final(self)@.wf(),
            final(self)@.current().side == Side::Front,
    {
        let i = if self.current_card_index < self.cards.len() - 1 {
            self.current_card_index + 1
        } else {
            0
        };
        self.show_front_at(i);
    }

    /// Moves the cursor to the previous card, wrapping from the first to
    /// the last, and shows that card's front.
    pub fn prev(&mut self)
        requires
            old(self)@.wf(),
        ensures
            final(self)@ == old(self)@.retreated(),
            final(self)@.wf(),
            final(self)@.current().side == Side::Front,
    {
        let i = if self.current_card_index > 0 {
            self.current_card_index - 1
        } else {
            self.cards.len() - 1
        };
        self.show_front_at(i);
    }

    /// Puts the cards in a random order. The cursor keeps its position, so
    /// it may now be on another card.
    pub fn shuffle(&mut self)
        requires
            old(self)@.wf(),
        ensures
            final(self)@.cards.to_multiset() == old(self)@.cards.to_multiset(),
            final(self)@.cards.len() == old(self)@.cards.len(),
            final(self)@.index == old(self)@.index,
            final(self)@.wf(),
    {
        shuffle_in_place(&mut self.cards);
        proof {
            lemma_map_keeps_multiset(old(self).cards@, self.cards@, |c: Card| c@);
            vstd::seq_lib::to_multiset_len(old(self).cards@);
            vstd::seq_lib::to_multiset_len(self.cards@);
        }
    }
}

/// Two sequences with the same items keep the same items when each is
/// mapped by one function.
proof fn lemma_map_keeps_multiset<A, B>(s1: Seq<A>, s2: Seq<A>, f: spec_fn(A) -> B)
    requires
        s1.to_multiset() == s2.to_multiset(),
    ensures
        s1.map_values(f).to_multiset() == s2.map_values(f).to_multiset(),
    decreases s1.len(),
{
    broadcast use vstd::seq_lib::group_to_multiset_ensures;

    if s1.len() == 0 {
        vstd::seq_lib::to_multiset_len(s1);
        vstd::seq_lib::to_multiset_len(s2);
        assert(s2.len() == 0);
        assert(s1.map_values(f) =~= s2.map_values(f));
    } else {
        let x = s1.last();
        let t1 = s1.drop_last();
        assert(s1 =~= t1.push(x));
        assert(s1[s1.len() - 1] == x);
        vstd::seq_lib::to_multiset_contains(s1, x);
        vstd::seq_lib::to_multiset_contains(s2, x);
        assert(s2.contains(x));
        let j = choose|j: int| 0 <= j < s2.len() && s2[j] == x;
        let t2 = s2.remove(j);
        assert(t1.to_multiset() =~= s1.to_multiset().remove(x));
        assert(t1.to_multiset() =~= t2.to_multiset());
        lemma_map_keeps_multiset(t1, t2, f);
        let m2 = s2.map_values(f);
        assert(s1.map_values(f) =~= t1.map_values(f).push(f(x)));
        assert(m2.remove(j) =~= t2.map_values(f));
        assert(m2[j] == f(x));
        assert(m2.to_multiset() =~= m2.remove(j).to_multiset().insert(f(x)));
    }
}

} // verus!
