use flashcards::{Deck, LoadError};

fn records(rows: &[&[&str]]) -> Vec<Vec<String>> {
    rows.iter()
        .map(|row| row.iter().map(|f| f.to_string()).collect())
        .collect()
}

fn deck(rows: &[&[&str]]) -> Deck {
    Deck::from_records(&records(rows)).expect("a deck with cards")
}

#[test]
fn end_to_end_scenario() {
    let mut d = deck(&[&["2+2", "4"], &["3+3", "6"]]);
    assert_eq!(d.get_current_card_index(), 0);
    assert_eq!(d.get_current_card_side(), "Front");
    assert_eq!(d.get_current_card_text(), "2+2");
    d.flip_current_card();
    assert_eq!(d.get_current_card_side(), "Back");
    assert_eq!(d.get_current_card_text(), "4");
    d.next();
    assert_eq!(d.get_current_card_index(), 1);
    assert_eq!(d.get_current_card_side(), "Front");
    assert_eq!(d.get_current_card_text(), "3+3");
    d.next();
    assert_eq!(d.get_current_card_index(), 0);
    assert_eq!(d.get_current_card_side(), "Front");
    assert_eq!(d.get_current_card_text(), "2+2");
    d.prev();
    assert_eq!(d.get_current_card_index(), 1);
    assert_eq!(d.get_current_card_side(), "Front");
    assert_eq!(d.get_current_card_text(), "3+3");
}

#[test]
fn missing_field_gets_placeholder() {
    let d = Deck::from_records(&records(&[&["a", "1"], &["b", "2"], &["c"]])).unwrap();
    assert_eq!(d.get_deck_size(), 3);
    let mut d = d;
    d.prev();
    assert_eq!(d.get_current_card_text(), "c");
    d.flip_current_card();
    assert_eq!(d.get_current_card_text(), "could not read");
}

#[test]
fn empty_record_gets_placeholder_on_both_faces() {
    let mut d = deck(&[&[]]);
    assert_eq!(d.get_current_card_text(), "could not read");
    d.flip_current_card();
    assert_eq!(d.get_current_card_text(), "could not read");
}

#[test]
fn extra_fields_are_ignored() {
    let mut d = deck(&[&["q", "a", "extra"]]);
    d.flip_current_card();
    assert_eq!(d.get_current_card_text(), "a");
}

#[test]
fn no_records_is_empty_deck() {
    assert_eq!(Deck::from_records(&Vec::new()).unwrap_err(), LoadError::EmptyDeck);
}

#[test]
fn csv_bytes_load_with_header_skipped() {
    let mut d = Deck::new(b"front,back\n2+2,4\n3+3,6\n").unwrap();
    assert_eq!(d.get_deck_size(), 2);
    assert_eq!(d.get_current_card_text(), "2+2");
    d.flip_current_card();
    assert_eq!(d.get_current_card_text(), "4");
    d.next();
    assert_eq!(d.get_current_card_text(), "3+3");
}

#[test]
fn csv_header_only_is_empty_deck() {
    assert_eq!(Deck::new(b"front,back\n").unwrap_err(), LoadError::EmptyDeck);
    assert_eq!(Deck::new(b"").unwrap_err(), LoadError::EmptyDeck);
}

#[test]
fn csv_short_record_gets_placeholder() {
    let mut d = Deck::new(b"front,back\na,b\nc\n").unwrap();
    assert_eq!(d.get_deck_size(), 2);
    d.next();
    assert_eq!(d.get_current_card_text(), "c");
    d.flip_current_card();
    assert_eq!(d.get_current_card_text(), "could not read");
}

#[test]
fn csv_three_records_one_short() {
    let mut d = Deck::new(b"front,back\n1+1,2\n2+2,4\n3+3\n").unwrap();
    assert_eq!(d.get_deck_size(), 3);
    d.prev();
    assert_eq!(d.get_current_card_text(), "3+3");
    d.flip_current_card();
    assert_eq!(d.get_current_card_text(), "could not read");
}

#[test]
fn csv_invalid_utf8_is_malformed() {
    assert_eq!(Deck::new(b"front,back\na,\xff\n").unwrap_err(), LoadError::MalformedRecord);
}

#[test]
fn full_cycle_returns_to_start() {
    let mut d = deck(&[&["a", "1"], &["b", "2"], &["c", "3"]]);
    d.next();
    let start = d.get_current_card_index();
    for _ in 0..d.get_deck_size() {
        d.next();
    }
    assert_eq!(d.get_current_card_index(), start);
}

#[test]
fn single_card_deck_wraps_to_itself() {
    let mut d = deck(&[&["only", "one"]]);
    d.flip_current_card();
    d.next();
    assert_eq!(d.get_current_card_index(), 0);
    assert_eq!(d.get_current_card_side(), "Front");
    d.flip_current_card();
    d.prev();
    assert_eq!(d.get_current_card_index(), 0);
    assert_eq!(d.get_current_card_side(), "Front");
}

#[test]
fn retreat_undoes_advance() {
    let mut d = deck(&[&["a", "1"], &["b", "2"], &["c", "3"]]);
    for start in 0..3 {
        assert_eq!(d.get_current_card_index(), start);
        d.next();
        d.prev();
        assert_eq!(d.get_current_card_index(), start);
        assert_eq!(d.get_current_card_side(), "Front");
        d.next();
    }
}

#[test]
fn flip_twice_restores_side() {
    let mut d = deck(&[&["a", "1"], &["b", "2"]]);
    d.flip_current_card();
    d.flip_current_card();
    assert_eq!(d.get_current_card_side(), "Front");
    assert_eq!(d.get_current_card_text(), "a");
    d.next();
    assert_eq!(d.get_current_card_side(), "Front");
    assert_eq!(d.get_current_card_index(), 1);
}

#[test]
fn navigation_resets_flipped_card() {
    let mut d = deck(&[&["a", "1"], &["b", "2"], &["c", "3"]]);
    d.next();
    d.flip_current_card();
    d.prev();
    d.next();
    assert_eq!(d.get_current_card_side(), "Front");
    d.flip_current_card();
    d.next();
    d.prev();
    assert_eq!(d.get_current_card_side(), "Front");
    assert_eq!(d.get_current_card_text(), "b");
}

fn fronts(d: &mut Deck) -> Vec<String> {
    let mut out = Vec::new();
    for _ in 0..d.get_deck_size() {
        out.push(d.get_current_card_text().to_string());
        d.next();
    }
    out
}

#[test]
fn shuffle_keeps_cards_size_and_index() {
    let mut d = deck(&[&["a", "1"], &["b", "2"], &["c", "3"], &["d", "4"]]);
    d.next();
    d.next();
    d.shuffle();
    assert_eq!(d.get_deck_size(), 4);
    assert_eq!(d.get_current_card_index(), 2);
    let mut seen = fronts(&mut d);
    seen.sort();
    assert_eq!(seen, vec!["a", "b", "c", "d"]);
}
