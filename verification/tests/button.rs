use party_saver::button::{handle_button, handle_fake_button};
use party_saver::outbox::{Emission, Outbox, Sink};

#[test]
fn button_is_relayed_as_note_on() {
    let mut out = Outbox::new();
    handle_button(0x10, 127, &mut out);
    handle_button(0x10, 0, &mut out);
    assert_eq!(
        out.emissions,
        vec![
            Emission { sink: Sink::Output, bytes: vec![0x9F, 0x10, 127] },
            Emission { sink: Sink::Output, bytes: vec![0x9F, 0x10, 0] },
        ]
    );
}

#[test]
fn up_tick_is_a_note_on_the_up_channel() {
    let mut out = Outbox::new();
    handle_fake_button(1, 1, &mut out);
    assert_eq!(out.emissions, vec![Emission { sink: Sink::Output, bytes: vec![0x9E, 1, 127] }]);
}

#[test]
fn down_tick_is_a_note_on_the_down_channel() {
    let mut out = Outbox::new();
    handle_fake_button(2, 127, &mut out);
    assert_eq!(out.emissions, vec![Emission { sink: Sink::Output, bytes: vec![0x9D, 2, 127] }]);
}

#[test]
fn unknown_tick_is_dropped() {
    let mut out = Outbox::new();
    for data in [0u8, 2, 63, 126, 128, 255] {
        handle_fake_button(0, data, &mut out);
    }
    assert_eq!(out.len(), 0);
}
