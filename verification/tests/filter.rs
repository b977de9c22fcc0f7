use party_saver::filter::{find_filter_deck, FilterEncoder};
use party_saver::outbox::{Emission, Outbox, Sink};

fn output(bytes: [u8; 3]) -> Emission {
    Emission { sink: Sink::Output, bytes: bytes.to_vec() }
}

fn feedback(bytes: [u8; 3]) -> Emission {
    Emission { sink: Sink::Feedback, bytes: bytes.to_vec() }
}

#[test]
fn filter_starts_centered_and_off() {
    let filter = FilterEncoder::default();
    assert_eq!(filter, FilterEncoder { deck1: false, deck2: false, deck3: false, state: 63 });
}

#[test]
fn toggle_notes_map_to_decks() {
    assert_eq!(find_filter_deck(0x29), Some(0));
    assert_eq!(find_filter_deck(0x2A), Some(1));
    assert_eq!(find_filter_deck(0x28), Some(2));
    assert_eq!(find_filter_deck(0x27), None);
    assert_eq!(find_filter_deck(0x2B), None);
    assert_eq!(find_filter_deck(0), None);
}

#[test]
fn press_switches_the_deck_on_and_lights_it() {
    let mut filter = FilterEncoder { state: 100, ..FilterEncoder::default() };
    let mut out = Outbox::new();
    assert!(filter.toggle(0x29, true, &mut out));
    assert_eq!(filter, FilterEncoder { deck1: true, deck2: false, deck3: false, state: 100 });
    assert_eq!(
        out.emissions,
        vec![
            output([0xBC, 1, 100]),
            output([0xBC, 2, 63]),
            output([0xBC, 0, 63]),
            feedback([0x9F, 0x71, 127]),
        ]
    );
}

#[test]
fn second_press_switches_the_deck_off_and_puts_the_light_out() {
    let mut filter = FilterEncoder { state: 100, ..FilterEncoder::default() };
    let mut out = Outbox::new();
    assert!(filter.toggle(0x2A, true, &mut out));
    assert!(filter.deck2);
    let mut out = Outbox::new();
    assert!(filter.toggle(0x2A, true, &mut out));
    assert!(!filter.deck2);
    assert_eq!(
        out.emissions,
        vec![
            output([0xBC, 1, 63]),
            output([0xBC, 2, 63]),
            output([0xBC, 0, 63]),
            feedback([0x8F, 0x72, 127]),
        ]
    );
}

#[test]
fn release_is_taken_and_ignored() {
    let mut filter = FilterEncoder::default();
    let mut out = Outbox::new();
    for note in [0x29u8, 0x2A, 0x28] {
        assert!(filter.toggle(note, false, &mut out));
    }
    assert_eq!(filter, FilterEncoder::default());
    assert_eq!(out.len(), 0);
}

#[test]
fn other_notes_are_not_handled() {
    let mut filter = FilterEncoder::default();
    let mut out = Outbox::new();
    for note in [0u8, 0x23, 0x27, 0x2B, 0x71, 255] {
        assert!(!filter.toggle(note, true, &mut out));
        assert!(!filter.toggle(note, false, &mut out));
    }
    assert_eq!(filter, FilterEncoder::default());
    assert_eq!(out.len(), 0);
}

#[test]
fn even_number_of_presses_returns_to_disabled() {
    for note in [0x29u8, 0x2A, 0x28] {
        let mut filter = FilterEncoder::default();
        let mut out = Outbox::new();
        for count in 1..=10u32 {
            filter.toggle(note, true, &mut out);
            filter.toggle(note, false, &mut out);
            let on = match note {
                0x29 => filter.deck1,
                0x2A => filter.deck2,
                _ => filter.deck3,
            };
            assert_eq!(on, count % 2 == 1);
            if count % 2 == 0 {
                assert_eq!(filter, FilterEncoder::default());
            }
        }
    }
}

#[test]
fn decks_are_switched_independently() {
    let mut filter = FilterEncoder::default();
    let mut out = Outbox::new();
    filter.toggle(0x28, true, &mut out);
    assert_eq!((filter.deck1, filter.deck2, filter.deck3), (false, false, true));
    filter.toggle(0x29, true, &mut out);
    assert_eq!((filter.deck1, filter.deck2, filter.deck3), (true, false, true));
    filter.toggle(0x28, true, &mut out);
    assert_eq!((filter.deck1, filter.deck2, filter.deck3), (true, false, false));
    assert_eq!(out.emissions[8], output([0xBC, 1, 63]));
    assert_eq!(out.emissions[11], feedback([0x8F, 0x70, 127]));
}

#[test]
fn disabled_deck_is_held_at_the_midpoint() {
    let mut filter = FilterEncoder::default();
    for position in [0u8, 1, 62, 63, 64, 100, 127] {
        let mut out = Outbox::new();
        filter.adjust(position, &mut out);
        assert_eq!(filter.state, position);
        assert_eq!(
            out.emissions,
            vec![output([0xBC, 1, 63]), output([0xBC, 2, 63]), output([0xBC, 0, 63])]
        );
    }
}

#[test]
fn enabled_deck_follows_the_shared_position() {
    let mut filter = FilterEncoder { deck2: true, deck3: true, ..FilterEncoder::default() };
    let mut out = Outbox::new();
    filter.adjust(17, &mut out);
    assert_eq!(filter, FilterEncoder { deck1: false, deck2: true, deck3: true, state: 17 });
    assert_eq!(
        out.emissions,
        vec![output([0xBC, 1, 63]), output([0xBC, 2, 17]), output([0xBC, 0, 17])]
    );
}

#[test]
fn send_changes_nothing_and_appends() {
    let filter = FilterEncoder { deck1: true, deck2: false, deck3: true, state: 5 };
    let mut out = Outbox::new();
    out.send(Sink::Feedback, vec![9]);
    filter.send(&mut out);
    assert_eq!(out.len(), 4);
    assert_eq!(out.emissions[0], Emission { sink: Sink::Feedback, bytes: vec![9] });
    assert_eq!(out.emissions[1], output([0xBC, 1, 5]));
    assert_eq!(out.emissions[2], output([0xBC, 2, 63]));
    assert_eq!(out.emissions[3], output([0xBC, 0, 5]));
}
