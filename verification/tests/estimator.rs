use hcsr04::estimator::{ticks_to_cm, HcSr04Measure, Phase, SequencingFault};

fn armed(first_edge: u16, last_distance: Option<u16>) -> HcSr04Measure {
    HcSr04Measure { first_edge: Some(first_edge), closing_edge: None, last_distance }
}

#[test]
fn new_state_is_idle_and_empty() {
    let state = HcSr04Measure::new();
    assert_eq!(state.first_edge, None);
    assert_eq!(state.closing_edge, None);
    assert_eq!(state.get_distance(), None);
    assert_eq!(state.current_phase(), Phase::Idle);
}

#[test]
fn first_edge_arms_and_keeps_distance() {
    let mut state = HcSr04Measure::new();
    assert_eq!(state.save_measure(1000), Ok(()));
    assert_eq!(state.current_phase(), Phase::Armed);
    assert_eq!(state.first_edge, Some(1000));
    assert_eq!(state.get_distance(), None);

    let mut seen = HcSr04Measure { first_edge: None, closing_edge: None, last_distance: Some(42) };
    assert_eq!(seen.save_measure(1000), Ok(()));
    assert_eq!(seen.current_phase(), Phase::Armed);
    assert_eq!(seen.first_edge, Some(1000));
    assert_eq!(seen.get_distance(), Some(42));
}

#[test]
fn pairing_edge_resolves_with_distance() {
    let mut state = armed(1000, None);
    assert_eq!(state.save_measure(1100), Ok(()));
    assert_eq!(state.get_distance(), Some(1));
    assert_eq!(state.first_edge, None);
    assert_eq!(state.closing_edge, Some(1100));
    assert_eq!(state.current_phase(), Phase::Resolved);
}

#[test]
fn ten_centimetres_take_about_588_ticks() {
    assert_eq!(ticks_to_cm(588), 9);
    assert_eq!(ticks_to_cm(589), 10);
    let mut state = armed(0, None);
    assert_eq!(state.save_measure(589), Ok(()));
    assert_eq!(state.get_distance(), Some(10));
}

#[test]
fn ticks_to_cm_exact_values() {
    assert_eq!(ticks_to_cm(0), 0);
    assert_eq!(ticks_to_cm(58), 0);
    assert_eq!(ticks_to_cm(59), 1);
    assert_eq!(ticks_to_cm(100), 1);
    assert_eq!(ticks_to_cm(1000), 17);
    assert_eq!(ticks_to_cm(3999), 67);
    assert_eq!(ticks_to_cm(4000), 68);
    assert_eq!(ticks_to_cm(65535), 1114);
}

#[test]
fn distance_never_decreases_with_the_echo() {
    let mut previous: u16 = 0;
    let mut delta: u16 = 0;
    while delta < 4000 {
        let cm = ticks_to_cm(delta);
        assert!(cm >= previous);
        if delta >= 59 {
            assert!(cm > ticks_to_cm(delta - 59));
        }
        let by_datasheet = delta / 58;
        assert!(cm == by_datasheet || cm + 1 == by_datasheet);
        previous = cm;
        delta += 1;
    }
}

#[test]
fn idle_ignores_edge_at_the_ceiling() {
    let mut state = HcSr04Measure { first_edge: None, closing_edge: None, last_distance: Some(5) };
    let before = state;
    assert_eq!(state.save_measure(4000), Ok(()));
    assert_eq!(state, before);
    assert_eq!(state.save_measure(65535), Ok(()));
    assert_eq!(state, before);
    assert_eq!(state.save_measure(3999), Ok(()));
    assert_eq!(state.first_edge, Some(3999));
    assert_eq!(state.current_phase(), Phase::Armed);
}

#[test]
fn armed_drops_pair_when_echo_is_too_long() {
    let mut state = armed(1000, Some(12));
    assert_eq!(state.save_measure(6000), Ok(()));
    assert_eq!(state.current_phase(), Phase::Idle);
    assert_eq!(state.first_edge, None);
    assert_eq!(state.closing_edge, None);
    assert_eq!(state.get_distance(), Some(12));

    let mut edge = armed(1000, Some(12));
    assert_eq!(edge.save_measure(5000), Ok(()));
    assert_eq!(edge.current_phase(), Phase::Idle);
    assert_eq!(edge.get_distance(), Some(12));

    let mut longest = armed(1000, Some(12));
    assert_eq!(longest.save_measure(4999), Ok(()));
    assert_eq!(longest.current_phase(), Phase::Resolved);
    assert_eq!(longest.get_distance(), Some(67));
}

#[test]
fn armed_judges_the_echo_not_the_timestamp() {
    let mut state = armed(3900, None);
    assert_eq!(state.save_measure(4100), Ok(()));
    assert_eq!(state.current_phase(), Phase::Resolved);
    assert_eq!(state.get_distance(), Some(3));
}

#[test]
fn echo_is_measured_across_the_counter_wrap() {
    let mut state = armed(65000, None);
    assert_eq!(state.save_measure(464), Ok(()));
    assert_eq!(state.get_distance(), Some(17));
    assert_eq!(state.current_phase(), Phase::Resolved);

    let mut backwards = armed(1000, Some(3));
    assert_eq!(backwards.save_measure(999), Ok(()));
    assert_eq!(backwards.current_phase(), Phase::Idle);
    assert_eq!(backwards.get_distance(), Some(3));
}

#[test]
fn equal_timestamps_give_zero_distance() {
    let mut state = armed(2000, Some(9));
    assert_eq!(state.save_measure(2000), Ok(()));
    assert_eq!(state.get_distance(), Some(0));
    assert_eq!(state.current_phase(), Phase::Resolved);
}

#[test]
fn resolved_opens_the_next_pair_like_idle() {
    let mut state = HcSr04Measure::new();
    assert_eq!(state.save_measure(100), Ok(()));
    assert_eq!(state.save_measure(1100), Ok(()));
    assert_eq!(state.current_phase(), Phase::Resolved);
    assert_eq!(state.get_distance(), Some(17));

    let resolved = state;
    assert_eq!(state.save_measure(4500), Ok(()));
    assert_eq!(state, resolved);

    assert_eq!(state.save_measure(2000), Ok(()));
    assert_eq!(state.current_phase(), Phase::Armed);
    assert_eq!(state.first_edge, Some(2000));
    assert_eq!(state.closing_edge, None);
    assert_eq!(state.get_distance(), Some(17));

    assert_eq!(state.save_measure(2589), Ok(()));
    assert_eq!(state.current_phase(), Phase::Resolved);
    assert_eq!(state.get_distance(), Some(10));
}

#[test]
fn two_edges_in_a_row_complete_at_most_one_pair() {
    let mut state = armed(1000, None);
    assert_eq!(state.save_measure(1100), Ok(()));
    assert_eq!(state.get_distance(), Some(1));
    assert_eq!(state.save_measure(1700), Ok(()));
    assert_eq!(state.current_phase(), Phase::Armed);
    assert_eq!(state.get_distance(), Some(1));
    assert_eq!(state.save_measure(2700), Ok(()));
    assert_eq!(state.current_phase(), Phase::Resolved);
    assert_eq!(state.get_distance(), Some(17));
}

#[test]
fn edge_with_both_slots_filled_is_a_fault() {
    let mut state = HcSr04Measure {
        first_edge: Some(10),
        closing_edge: Some(20),
        last_distance: Some(7),
    };
    let before = state;
    assert_eq!(state.current_phase(), Phase::Faulted);
    assert_eq!(
        state.save_measure(30),
        Err(SequencingFault { first_edge: 10, closing_edge: 20 })
    );
    assert_eq!(state, before);
    assert_eq!(
        state.save_measure(5000),
        Err(SequencingFault { first_edge: 10, closing_edge: 20 })
    );
    assert_eq!(state, before);
}

#[test]
fn edges_from_an_empty_state_never_fault() {
    let mut state = HcSr04Measure::new();
    let mut edge: u16 = 0;
    let mut fed: u32 = 0;
    while fed < 20000 {
        assert_eq!(state.save_measure(edge), Ok(()));
        assert!(state.current_phase() != Phase::Faulted);
        edge = edge.wrapping_mul(31).wrapping_add(977);
        fed += 1;
    }
}

#[test]
fn get_distance_reads_without_changing() {
    let state = HcSr04Measure { first_edge: Some(5), closing_edge: None, last_distance: Some(33) };
    let copy = state;
    assert_eq!(state.get_distance(), Some(33));
    assert_eq!(state.get_distance(), Some(33));
    assert_eq!(state, copy);
}
