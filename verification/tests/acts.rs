//! Activator decoder tests.

use vmix_rs::acts::{
    create_input_bool_variant, create_single_bool_variant, create_single_float_variant,
    ActivatorsData,
};
use vmix_rs::error::DecodeError;
use vmix_rs::text::{is_active, parse_input_number};

fn toks(parts: &[&str]) -> Vec<String> {
    parts.iter().map(|p| p.to_string()).collect()
}

#[test]
fn master_volume_level() {
    match ActivatorsData::decode(&toks(&["MasterVolume", "82.5"])) {
        Ok(ActivatorsData::MasterVolume(level)) => {
            assert_eq!(level, "82.5");
            // the level text is the wire form of the floating-point value
            assert_eq!(level.parse::<f32>().unwrap(), 82.5);
        },
        other => panic!("expected a master volume level, got {:?}", other),
    }
}

#[test]
fn input_on_program() {
    match ActivatorsData::decode(&toks(&["Input", "3", "1"])) {
        Ok(ActivatorsData::Input(num, active)) => {
            assert_eq!(num, 3);
            assert!(active);
        },
        other => panic!("expected an input flag, got {:?}", other),
    }
}

#[test]
fn bus_a_audio_off() {
    match ActivatorsData::decode(&toks(&["BusAAudio", "0"])) {
        Ok(ActivatorsData::BusAAudio(active)) => assert!(!active),
        other => panic!("expected a bus audio flag, got {:?}", other),
    }
}

#[test]
fn unknown_keyword_is_an_error() {
    assert!(matches!(
        ActivatorsData::decode(&toks(&["UnknownThing"])),
        Err(DecodeError::UnknownActivator)
    ));
}

#[test]
fn too_few_values_is_an_error() {
    assert!(matches!(
        ActivatorsData::decode(&toks(&["Input", "3"])),
        Err(DecodeError::MissingArgument)
    ));
    assert!(matches!(
        ActivatorsData::decode(&toks(&["MasterVolume"])),
        Err(DecodeError::MissingArgument)
    ));
    assert!(matches!(
        ActivatorsData::decode(&toks(&[])),
        Err(DecodeError::MissingArgument)
    ));
}

#[test]
fn input_volume_level() {
    match ActivatorsData::decode(&toks(&["InputVolume", "2", "0.25"])) {
        Ok(ActivatorsData::InputVolume(num, level)) => {
            assert_eq!(num, 2);
            assert_eq!(level, "0.25");
        },
        other => panic!("expected an input volume level, got {:?}", other),
    }
}

#[test]
fn overlay_and_replay_variants() {
    assert!(matches!(
        ActivatorsData::decode(&toks(&["Overlay2", "5", "1"])),
        Ok(ActivatorsData::Overlay2(5, true))
    ));
    assert!(matches!(
        ActivatorsData::decode(&toks(&["ReplayPlaying", "1"])),
        Ok(ActivatorsData::ReplayPlaying(true))
    ));
    assert!(matches!(
        ActivatorsData::decode(&toks(&["Recording", "0"])),
        Ok(ActivatorsData::Recording(false))
    ));
}

#[test]
fn malformed_input_number_falls_back_to_zero() {
    match ActivatorsData::decode(&toks(&["Input", "abc", "1"])) {
        Ok(ActivatorsData::Input(num, active)) => {
            assert_eq!(num, 0);
            assert!(active);
        },
        other => panic!("expected an input flag, got {:?}", other),
    }
}

#[test]
fn flag_is_on_only_for_literal_one() {
    assert!(is_active("1"));
    assert!(!is_active("0"));
    assert!(!is_active("true"));
    assert!(!is_active(""));
}

#[test]
fn input_number_parsing() {
    assert_eq!(parse_input_number("0"), 0);
    assert_eq!(parse_input_number("42"), 42);
    assert_eq!(parse_input_number("65535"), 65535);
    // out of range or malformed falls back to 0
    assert_eq!(parse_input_number("65536"), 0);
    assert_eq!(parse_input_number("-1"), 0);
    assert_eq!(parse_input_number("abc"), 0);
}

#[test]
fn helpers_match_the_dispatcher() {
    let v = toks(&["InputPreviewMix4", "9", "1"]);
    assert!(matches!(
        create_input_bool_variant(&v, 1),
        Ok(ActivatorsData::InputPreviewMix4(9, true))
    ));
    let v = toks(&["BusGSolo", "1"]);
    assert!(matches!(
        create_single_bool_variant(&v, 1),
        Ok(ActivatorsData::BusGSolo(true))
    ));
    let v = toks(&["BusBVolume", "12.75"]);
    match create_single_float_variant(&v, 1) {
        Ok(ActivatorsData::BusBVolume(level)) => assert_eq!(level, "12.75"),
        other => panic!("expected a bus volume level, got {:?}", other),
    }
}
