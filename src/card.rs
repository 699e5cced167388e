use vstd::prelude::*;

verus! {

/// Which face of a card is showing.
#[derive(Debug, Clone, Copy, PartialEq, Eq, Structural)]
pub enum Side {
    Front,
    Back,
}

impl Side {
    /// The other face.
    pub open spec fn other(self) -> Side {
        match self {
            Side::Front => Side::Back,
            Side::Back => Side::Front,
        }
    }

    /// The label shown for this face.
    pub open spec fn label(self) -> Seq<char> {
        match self {
            Side::Front => "Front"@,
            Side::Back => "Back"@,
        }
    }
}

/// What a card is, abstractly: its two texts and the face showing.
pub struct CardModel {
    pub front: Seq<char>,
    pub back: Seq<char>,
    pub side: Side,
}

impl CardModel {
    /// The text of the face showing.
    pub open spec fn visible_text(self) -> Seq<char> {
        match self.side {
            Side::Front => self.front,
            Side::Back => self.back,
        }
    }

    /// The same card turned over.
    pub open spec fn flipped(self) -> CardModel {
        CardModel { side: self.side.other(), ..self }
    }

    /// The same card with its front showing.
    pub open spec fn to_front(self) -> CardModel {
        CardModel { side: Side::Front, ..self }
    }
}

/// A flashcard: a front text, a back text and the face currently showing.
#[derive(Debug)]
pub struct Card {
    front: String,
    back: String,
    side: Side,
}

impl View for Card {
    type V = CardModel;

    closed spec fn view(&self) -> CardModel {
        CardModel { front: self.front@, back: self.back@, side: self.side }
    }
}

impl Card {
    /// A new card showing its front.
    pub fn new(front: String, back: String) -> (c: Card)
        ensures
            c@ == (CardModel { front: front@, back: back@, side: Side::Front }),
    {
        Card { front, back, side: Side::Front }
    }

    /// Turns the card over.
    pub fn flip(&mut self)
        ensures
            final(self)@ == old(self)@.flipped(),
    {
        match self.side {
            Side::Front => self.side = Side::Back,
            Side::Back => self.side = Side::Front,
        };
    }

    /// Shows the front, whatever was showing before.
    pub fn show_front(&mut self)
        ensures
            final(self)@ == old(self)@.to_front(),
    {
        self.side = Side::Front;
    }

    /// The text of the face showing.
    pub fn get_text(&self) -> (r: &String)
        ensures
            r@ == self@.visible_text(),
    {
        match self.side {
            Side::Front => &self.front,
            Side::Back => &self.back,
        }
    }

    /// The label of the face showing: "Front" or "Back".
    pub fn get_side(&self) -> (r: &'static str)
        ensures
            r@ == self@.side.label(),
    {
        match self.side {
            Side::Front => "Front",
            Side::Back => "Back",
        }
    }

    /// The face showing.
    pub fn side(&self) -> (r: Side)
        ensures
            r == self@.side,
    {
        self.side
    }
}

} // verus!
