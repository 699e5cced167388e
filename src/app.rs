use vstd::prelude::*;

use crate::deck::{Deck, DeckModel};

verus! {

/// A key, as far as the session tells keys apart.
#[derive(Debug, Clone, Copy, PartialEq, Eq, Structural)]
pub enum Key {
    Esc,
    Char(char),
    Other,
}

/// One key press. `control` is set when Control is the only modifier held.
#[derive(Debug, Clone, Copy, PartialEq, Eq, Structural)]
pub struct KeyPress {
    pub key: Key,
    pub control: bool,
}

/// What a key press asks of the session.
#[derive(Debug, Clone, Copy, PartialEq, Eq, Structural)]
pub enum Command {
    Quit,
    Advance,
    Retreat,
    Flip,
    Shuffle,
    Nothing,
}

/// `q`, Esc and Control-c quit; `l` advances, `h` retreats, `k` flips and
/// `s` shuffles; any other key does nothing.
pub open spec fn command_of(k: KeyPress) -> Command {
    match k.key {
        Key::Esc => Command::Quit,
        Key::Char(c) => if c == 'q' || (k.control && (c == 'c' || c == 'C')) {
            Command::Quit
        } else if c == 'l' {
            Command::Advance
        } else if c == 'h' {
            Command::Retreat
        } else if c == 'k' {
            Command::Flip
        } else if c == 's' {
            Command::Shuffle
        } else {
            Command::Nothing
        },
        Key::Other => Command::Nothing,
    }
}

/// The command that a key press asks for.
pub fn command_for(k: KeyPress) -> (r: Command)
    ensures
        r == command_of(k),
{
    match k.key {
        Key::Esc => Command::Quit,
        Key::Char(c) => {
            if c == 'q' || (k.control && (c == 'c' || c == 'C')) {
                Command::Quit
            } else if c == 'l' {
                Command::Advance
            } else if c == 'h' {
                Command::Retreat
            } else if c == 'k' {
                Command::Flip
            } else if c == 's' {
                Command::Shuffle
            } else {
                Command::Nothing
            }
        },
        Key::Other => Command::Nothing,
    }
}

/// What a session is, abstractly: whether it goes on, and its deck.
pub struct AppModel {
    pub running: bool,
    pub deck: DeckModel,
}

/// A viewing session: a deck and whether the session goes on.
#[derive(Debug)]
pub struct App {
    running: bool,
    deck: Deck,
}

impl View for App {
    type V = AppModel;

    closed spec fn view(&self) -> AppModel {
        AppModel { running: self.running, deck: self.deck@ }
    }
}

impl App {
    /// A running session over `deck`.
    pub fn new(deck: Deck) -> (r: App)
        ensures
            r@ == (AppModel { running: true, deck: deck@ }),
    {
        App { running: true, deck }
    }

    pub fn is_running(&self) -> (r: bool)
        ensures
            r == self@.running,
    {
        self.running
    }

    pub fn deck(&self) -> (r: &Deck)
        ensures
            r@ == self@.deck,
    {
        &self.deck
    }

    /// Ends the session; the deck is left as it is.
    pub fn quit(&mut self)
        ensures
            final(self)@ == (AppModel { running: false, deck: old(self)@.deck }),
    {
        self.running = false;
    }

    /// Carries out the command that `key` asks for.
    pub fn on_key_event(&mut self, key: KeyPress)
        requires
            old(self)@.deck.wf(),
        ensures
            final(self)@.deck.wf(),
            command_of(key) == Command::Quit ==> !final(self)@.running,
            command_of(key) != Command::Quit ==> final(self)@.running == old(self)@.running,
            match command_of(key) {
                Command::Advance => final(self)@.deck == old(self)@.deck.advanced(),
                Command::Retreat => final(self)@.deck == old(self)@.deck.retreated(),
                Command::Flip => final(self)@.deck == old(self)@.deck.flipped(),
                Command::Shuffle => {
                    &&& final(self)@.deck.cards.to_multiset() == old(self)@.deck.cards.to_multiset()
                    &&& final(self)@.deck.cards.len() == old(self)@.deck.cards.len()
                    &&& final(self)@.deck.index == old(self)@.deck.index
                },
                Command::Quit | Command::Nothing => final(self)@.deck == old(self)@.deck,
            },
    {
        match command_for(key) {
            Command::Quit => self.quit(),
            Command::Advance => self.deck.next(),
            Command::Retreat => self.deck.prev(),
            Command::Flip => self.deck.flip_current_card(),
            Command::Shuffle => self.deck.shuffle(),
            Command::Nothing => {},
        }
    }
}

} // verus!
