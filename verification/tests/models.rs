//! State document model tests.

use vmix_rs::commands::TallyData;
use vmix_rs::models::{
    Audio, Boolean, Dynamic, Input, Inputs, Master, Overlays, State, Transitions, Vmix,
};

fn sample_input(number: &str) -> Input {
    Input {
        key: format!("key-{}", number),
        number: number.to_string(),
        input_type: "Colour".to_string(),
        title: format!("Input {}", number),
        short_title: format!("In{}", number),
        state: State::default(),
        position: "0".to_string(),
        duration: "0".to_string(),
        input_loop: Boolean::False,
        muted: None,
        volume: None,
        balance: None,
        solo: None,
        meter_f1: None,
        meter_f2: None,
        gain_db: None,
        list: None,
        selected_index: None,
        image: Vec::new(),
        replay: None,
    }
}

fn sample_vmix(active: &str, preview: &str, numbers: &[&str]) -> Vmix {
    Vmix {
        version: "28.0.0.39".to_string(),
        edition: "4K".to_string(),
        preset: "".to_string(),
        inputs: Inputs { input: numbers.iter().map(|n| sample_input(n)).collect() },
        overlays: Overlays { overlay: Vec::new() },
        preview: preview.to_string(),
        active: active.to_string(),
        fade_to_black: Boolean::False,
        transitions: Transitions { transition: Vec::new() },
        recording: Boolean::False,
        external: Boolean::False,
        streaming: Boolean::True,
        play_list: Boolean::False,
        multi_corder: Boolean::False,
        fullscreen: Boolean::False,
        audio: Audio {
            master: Master {
                volume: "100".to_string(),
                muted: Boolean::False,
                meter_f1: "0".to_string(),
                meter_f2: "0".to_string(),
                headphones_volume: "100".to_string(),
            },
        },
        dynamic: Dynamic {
            input1: "".to_string(),
            input2: "".to_string(),
            input3: "".to_string(),
            input4: "".to_string(),
            value1: "".to_string(),
            value2: "".to_string(),
            value3: "".to_string(),
            value4: "".to_string(),
        },
    }
}

#[test]
fn test_state_enum_variants() {
    // Test all State enum variants
    assert_eq!(State::default(), State::Unknown);

    // Test that all variants are available
    let _running = State::Running;
    let _paused = State::Paused;
    let _completed = State::Completed;
    let _unknown = State::Unknown;

    println!("✅ State enum variant tests completed");
}

#[test]
fn boolean_as_bool() {
    assert!(Boolean::True.as_bool());
    assert!(!Boolean::False.as_bool());
}

#[test]
fn active_and_preview_numbers() {
    let v = sample_vmix("2", "3", &["1", "2", "3"]);
    assert_eq!(v.active_number(), 2);
    assert_eq!(v.preview_number(), 3);
    // a malformed field falls back to 0
    let bad = sample_vmix("", "x", &[]);
    assert_eq!(bad.active_number(), 0);
    assert_eq!(bad.preview_number(), 0);
}

#[test]
fn input_numbers_in_document_order() {
    let v = sample_vmix("1", "2", &["4", "1", "9"]);
    assert_eq!(v.input_numbers(), vec![4, 1, 9]);
}

#[test]
fn tally_map_from_snapshot() {
    let v = sample_vmix("2", "3", &["1", "2", "3", "4"]);
    let m = v.tally_map();
    assert_eq!(m.len(), 4);
    assert_eq!(m[&1], TallyData::OFF);
    assert_eq!(m[&2], TallyData::PROGRAM);
    assert_eq!(m[&3], TallyData::PREVIEW);
    assert_eq!(m[&4], TallyData::OFF);
    assert!(!m.contains_key(&5));
}
