use party_saver::outbox::{Emission, Outbox, Sink};
use party_saver::pot::FakePotEncoder;

#[test]
fn pot_starts_at_the_midpoint() {
    assert_eq!(FakePotEncoder::default().value, 63);
}

#[test]
fn tick_up_adds_three() {
    let mut pot = FakePotEncoder::default();
    pot.add(1);
    assert_eq!(pot.value, 66);
    pot.add(1);
    assert_eq!(pot.value, 69);
}

#[test]
fn tick_down_subtracts_three() {
    let mut pot = FakePotEncoder::default();
    pot.add(127);
    assert_eq!(pot.value, 60);
    pot.add(127);
    assert_eq!(pot.value, 57);
}

#[test]
fn pot_stops_at_the_top() {
    let mut pot = FakePotEncoder { value: 124 };
    pot.add(1);
    assert_eq!(pot.value, 127);
    pot.add(1);
    assert_eq!(pot.value, 127);
    let mut pot = FakePotEncoder { value: 126 };
    pot.add(1);
    assert_eq!(pot.value, 127);
}

#[test]
fn pot_stops_at_the_bottom() {
    let mut pot = FakePotEncoder { value: 3 };
    pot.add(127);
    assert_eq!(pot.value, 0);
    pot.add(127);
    assert_eq!(pot.value, 0);
    let mut pot = FakePotEncoder { value: 2 };
    pot.add(127);
    assert_eq!(pot.value, 0);
}

#[test]
fn unknown_code_moves_nothing() {
    for code in [0u8, 2, 3, 64, 126, 128, 255] {
        let mut pot = FakePotEncoder { value: 40 };
        pot.add(code);
        assert_eq!(pot.value, 40);
    }
}

#[test]
fn position_above_the_range_is_brought_back() {
    let mut pot = FakePotEncoder { value: 200 };
    pot.add(5);
    assert_eq!(pot.value, 127);
    let mut pot = FakePotEncoder { value: 255 };
    pot.add(1);
    assert_eq!(pot.value, 127);
    let mut pot = FakePotEncoder { value: 129 };
    pot.add(127);
    assert_eq!(pot.value, 126);
}

#[test]
fn ticks_follow_the_net_sum_until_clamped() {
    let codes = [1u8, 1, 127, 1, 1, 1, 127, 127, 127, 127, 127, 1];
    let mut pot = FakePotEncoder::default();
    let mut net: i32 = 63;
    for code in codes {
        pot.add(code);
        net += if code == 1 { 3 } else { -3 };
        assert!(pot.value <= 127);
        assert_eq!(i32::from(pot.value), net);
    }
    assert_eq!(pot.value, 63);
}

#[test]
fn position_stays_in_range_on_any_run() {
    let mut pot = FakePotEncoder::default();
    for i in 0..200u32 {
        pot.add(1);
        assert!(pot.value <= 127);
        if i >= 22 {
            assert_eq!(pot.value, 127);
        }
    }
    for i in 0..200u32 {
        pot.add(127);
        assert!(pot.value <= 127);
        if i >= 43 {
            assert_eq!(pot.value, 0);
        }
    }
    pot.add(1);
    assert_eq!(pot.value, 3);
}

#[test]
fn lower_start_never_ends_higher() {
    let codes = [127u8, 127, 1, 1, 1, 9, 127];
    for low in [0u8, 1, 5, 63, 120] {
        for high in [low, low + 1, low + 7] {
            let mut a = FakePotEncoder { value: low };
            let mut b = FakePotEncoder { value: high };
            for code in codes {
                a.add(code);
                b.add(code);
                assert!(a.value <= b.value);
            }
        }
    }
}

#[test]
fn pot_sends_its_position_on_the_device_channel() {
    let mut out = Outbox::new();
    let mut pot = FakePotEncoder::default();
    pot.add(1);
    pot.send(20, &mut out);
    assert_eq!(pot.value, 66);
    assert_eq!(out.emissions, vec![Emission { sink: Sink::Output, bytes: vec![0xBF, 20, 66] }]);
}
