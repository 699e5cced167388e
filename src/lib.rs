//! A flashcard deck: cards with two faces, a cursor over them, and the
//! commands that flip, move and shuffle.

pub mod app;
pub mod card;
pub mod deck;
pub mod laws;
pub mod records;

pub use card::{Card, CardModel, Side};
pub use deck::{Deck, DeckModel, LoadError};
pub use app::{command_for, App, AppModel, Command, Key, KeyPress};
