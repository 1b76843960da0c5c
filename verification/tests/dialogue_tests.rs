use astral_legends::dialogue::{character_specific_dialogue, generic_dialogue, Dialogue};

#[test]
fn new_dialogue_starts_at_the_first_line() {
    let d = Dialogue::new(vec!["a".to_string(), "b".to_string()]);
    assert_eq!(d.current_line, 0);
    assert_eq!(d.current(), "a");
    assert!(!d.is_done());
}

#[test]
fn advance_stops_at_the_last_line() {
    let mut d = Dialogue::new(vec!["a".to_string(), "b".to_string(), "c".to_string()]);
    d.advance();
    assert_eq!(d.current(), "b");
    assert!(!d.is_done());
    d.advance();
    assert_eq!(d.current(), "c");
    assert!(d.is_done());
    d.advance();
    assert_eq!(d.current_line, 2);
    assert_eq!(d.current(), "c");
}

#[test]
fn empty_dialogue_is_done_and_blank() {
    let mut d = Dialogue::new(Vec::new());
    assert!(d.is_done());
    assert_eq!(d.current(), "");
    d.advance();
    assert_eq!(d.current_line, 0);
}

#[test]
fn line_past_the_end_reads_empty() {
    let mut d = Dialogue::new(vec!["only".to_string()]);
    d.current_line = 5;
    assert_eq!(d.current(), "");
    assert!(d.is_done());
}

#[test]
fn generic_dialogues() {
    let mut d = generic_dialogue(0);
    assert_eq!(d.current(), "Greetings, traveler of the astral realm.");
    for _ in 0..4 {
        assert!(!d.is_done());
        d.advance();
    }
    assert!(d.is_done());
    assert_eq!(d.current(), "Your journey will not be easy, but you are worthy.");
    assert_eq!(generic_dialogue(3).current(), "My forge burns with astral flame.");
    let mut other = generic_dialogue(42);
    assert_eq!(other.current(), "Hello, wanderer.");
    for _ in 0..3 {
        other.advance();
    }
    assert!(other.is_done());
    assert_eq!(other.current(), "Stay vigilant, for danger lurks in every corner.");
}

#[test]
fn class_dialogues() {
    let d = character_specific_dialogue("Knight", 1);
    assert_eq!(d.current(), "I have served under many banners, but none as noble as yours.");
    let mut m = character_specific_dialogue("Mage", 9);
    assert_eq!(m.current(), "Magic flows through all things -- you merely channel it.");
    m.advance();
    assert!(m.is_done());
    assert_eq!(m.current(), "Respect the arcane, and it will serve you.");
    let w = character_specific_dialogue("Warrior", 0);
    assert_eq!(w.current(), "A warrior's strength is forged in battle, not in peace.");
    let a = character_specific_dialogue("Archer", 0);
    assert_eq!(a.current(), "An archer's strength is in their patience, not their rage.");
    let x = character_specific_dialogue("Bard", 0);
    assert_eq!(x.current(), "Your path is your own to forge.");
    let lower = character_specific_dialogue("knight", 0);
    assert_eq!(lower.current(), "Your path is your own to forge.");
}
