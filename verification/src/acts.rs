//! The activator decoder: server-pushed notifications that one piece of
//! live-production state changed (tally, volume, recording flags, ...).
//!
//! Each notification is a keyword plus one or two positional values.  The
//! keyword selects one of four parameter shapes: input number plus on/off
//! flag, input number plus level, on/off flag alone, or level alone.
//! Levels travel on the wire as decimal text (for example `"82.5"`); the
//! decoder hands the text on unparsed, since interpreting it as floating
//! point is the caller's concern.  On/off flags are `"1"` for on, anything
//! else for off.  Malformed input numbers fall back to 0 rather than
//! failing, so one garbled notification never costs the connection.

use vstd::prelude::*;

use crate::error::DecodeError;
use crate::text::{is_active, parse_input_number, spec_input_number, str_eq};
use crate::InputNumber;

verus! {

/// One decoded activator notification.
#[derive(Debug, Clone, PartialEq)]
pub enum ActivatorsData {
    Input(InputNumber, bool),
    InputMix2(InputNumber, bool),
    InputMix3(InputNumber, bool),
    InputMix4(InputNumber, bool),
    InputMix5(InputNumber, bool),
    InputMix6(InputNumber, bool),
    InputMix7(InputNumber, bool),
    InputMix8(InputNumber, bool),
    InputMix9(InputNumber, bool),
    InputMix10(InputNumber, bool),
    InputMix11(InputNumber, bool),
    InputMix12(InputNumber, bool),
    InputMix13(InputNumber, bool),
    InputMix14(InputNumber, bool),
    InputMix15(InputNumber, bool),
    InputMix16(InputNumber, bool),
    InputPreview(InputNumber, bool),
    InputPreviewMix2(InputNumber, bool),
    InputPreviewMix3(InputNumber, bool),
    InputPreviewMix4(InputNumber, bool),
    InputPreviewMix5(InputNumber, bool),
    InputPreviewMix6(InputNumber, bool),
    InputPreviewMix7(InputNumber, bool),
    InputPreviewMix8(InputNumber, bool),
    InputPreviewMix9(InputNumber, bool),
    InputPreviewMix10(InputNumber, bool),
    InputPreviewMix11(InputNumber, bool),
    InputPreviewMix12(InputNumber, bool),
    InputPreviewMix13(InputNumber, bool),
    InputPreviewMix14(InputNumber, bool),
    InputPreviewMix15(InputNumber, bool),
    InputPreviewMix16(InputNumber, bool),
    InputPlaying(InputNumber, bool),
    InputAudio(InputNumber, bool),
    InputSolo(InputNumber, bool),
    InputBusAAudio(InputNumber, bool),
    InputBusBAudio(InputNumber, bool),
    InputBusCAudio(InputNumber, bool),
    InputBusDAudio(InputNumber, bool),
    InputBusEAudio(InputNumber, bool),
    InputBusFAudio(InputNumber, bool),
    InputBusGAudio(InputNumber, bool),
    InputMasterAudio(InputNumber, bool),
    Overlay1(InputNumber, bool),
    Overlay2(InputNumber, bool),
    Overlay3(InputNumber, bool),
    Overlay4(InputNumber, bool),
    InputVolume(InputNumber, String),
    InputHeadphones(InputNumber, String),
    MasterVolume(String),
    MasterHeadphones(String),
    BusAVolume(String),
    BusBVolume(String),
    BusCVolume(String),
    BusDVolume(String),
    BusEVolume(String),
    BusFVolume(String),
    BusGVolume(String),
    MasterAudio(bool),
    BusAAudio(bool),
    BusBAudio(bool),
    BusCAudio(bool),
    BusDAudio(bool),
    BusEAudio(bool),
    BusFAudio(bool),
    BusGAudio(bool),
    BusASolo(bool),
    BusBSolo(bool),
    BusCSolo(bool),
    BusDSolo(bool),
    BusESolo(bool),
    BusFSolo(bool),
    BusGSolo(bool),
    FadeToBlack(bool),
    Recording(bool),
    Streaming(bool),
    External(bool),
    Fullscreen(bool),
    ReplayPlaying(bool),
}

/// The token views of a list of tokens.
pub open spec fn token_views(vs: Seq<String>) -> Seq<Seq<char>> {
    vs.map_values(|s: String| s@)
}

pub open spec fn is_input_bool_keyword(k: Seq<char>) -> bool {
    k == "Input"@ || k == "InputMix2"@ || k == "InputMix3"@ || k == "InputMix4"@
        || k == "InputMix5"@ || k == "InputMix6"@ || k == "InputMix7"@ || k == "InputMix8"@
        || k == "InputMix9"@ || k == "InputMix10"@ || k == "InputMix11"@ || k == "InputMix12"@
        || k == "InputMix13"@ || k == "InputMix14"@ || k == "InputMix15"@ || k == "InputMix16"@
        || k == "InputPreview"@ || k == "InputPreviewMix2"@ || k == "InputPreviewMix3"@
        || k == "InputPreviewMix4"@ || k == "InputPreviewMix5"@ || k == "InputPreviewMix6"@
        || k == "InputPreviewMix7"@ || k == "InputPreviewMix8"@ || k == "InputPreviewMix9"@
        || k == "InputPreviewMix10"@ || k == "InputPreviewMix11"@ || k == "InputPreviewMix12"@
        || k == "InputPreviewMix13"@ || k == "InputPreviewMix14"@ || k == "InputPreviewMix15"@
        || k == "InputPreviewMix16"@ || k == "InputPlaying"@ || k == "InputAudio"@
        || k == "InputSolo"@ || k == "InputBusAAudio"@ || k == "InputBusBAudio"@
        || k == "InputBusCAudio"@ || k == "InputBusDAudio"@ || k == "InputBusEAudio"@
        || k == "InputBusFAudio"@ || k == "InputBusGAudio"@ || k == "InputMasterAudio"@
        || k == "Overlay1"@ || k == "Overlay2"@ || k == "Overlay3"@ || k == "Overlay4"@
}

pub open spec fn is_input_float_keyword(k: Seq<char>) -> bool {
    k == "InputVolume"@ || k == "InputHeadphones"@
}

pub open spec fn is_single_float_keyword(k: Seq<char>) -> bool {
    k == "MasterVolume"@ || k == "MasterHeadphones"@ || k == "BusAVolume"@ || k == "BusBVolume"@
        || k == "BusCVolume"@ || k == "BusDVolume"@ || k == "BusEVolume"@ || k == "BusFVolume"@
        || k == "BusGVolume"@
}

pub open spec fn is_single_bool_keyword(k: Seq<char>) -> bool {
    k == "MasterAudio"@ || k == "BusAAudio"@ || k == "BusBAudio"@ || k == "BusCAudio"@
        || k == "BusDAudio"@ || k == "BusEAudio"@ || k == "BusFAudio"@ || k == "BusGAudio"@
        || k == "BusASolo"@ || k == "BusBSolo"@ || k == "BusCSolo"@ || k == "BusDSolo"@
        || k == "BusESolo"@ || k == "BusFSolo"@ || k == "BusGSolo"@ || k == "FadeToBlack"@
        || k == "Recording"@ || k == "Streaming"@ || k == "External"@ || k == "Fullscreen"@
        || k == "ReplayPlaying"@
}

pub open spec fn is_known_activator(k: Seq<char>) -> bool {
    is_input_bool_keyword(k) || is_input_float_keyword(k) || is_single_float_keyword(k)
        || is_single_bool_keyword(k)
}

/// The keyword, input number and flag that an input/flag variant carries.
pub open spec fn input_bool_variant(
    kw: Seq<char>,
    num: u16,
    act: bool,
    d: ActivatorsData,
) -> bool {
    match d {
        ActivatorsData::Input(n, a) => kw == "Input"@ && n == num && a == act,
        ActivatorsData::InputMix2(n, a) => kw == "InputMix2"@ && n == num && a == act,
        ActivatorsData::InputMix3(n, a) => kw == "InputMix3"@ && n == num && a == act,
        ActivatorsData::InputMix4(n, a) => kw == "InputMix4"@ && n == num && a == act,
        ActivatorsData::InputMix5(n, a) => kw == "InputMix5"@ && n == num && a == act,
        ActivatorsData::InputMix6(n, a) => kw == "InputMix6"@ && n == num && a == act,
        ActivatorsData::InputMix7(n, a) => kw == "InputMix7"@ && n == num && a == act,
        ActivatorsData::InputMix8(n, a) => kw == "InputMix8"@ && n == num && a == act,
        ActivatorsData::InputMix9(n, a) => kw == "InputMix9"@ && n == num && a == act,
        ActivatorsData::InputMix10(n, a) => kw == "InputMix10"@ && n == num && a == act,
        ActivatorsData::InputMix11(n, a) => kw == "InputMix11"@ && n == num && a == act,
        ActivatorsData::InputMix12(n, a) => kw == "InputMix12"@ && n == num && a == act,
        ActivatorsData::InputMix13(n, a) => kw == "InputMix13"@ && n == num && a == act,
        ActivatorsData::InputMix14(n, a) => kw == "InputMix14"@ && n == num && a == act,
        ActivatorsData::InputMix15(n, a) => kw == "InputMix15"@ && n == num && a == act,
        ActivatorsData::InputMix16(n, a) => kw == "InputMix16"@ && n == num && a == act,
        ActivatorsData::InputPreview(n, a) => kw == "InputPreview"@ && n == num && a == act,
        ActivatorsData::InputPreviewMix2(n, a) => kw == "InputPreviewMix2"@ && n == num && a == act,
        ActivatorsData::InputPreviewMix3(n, a) => kw == "InputPreviewMix3"@ && n == num && a == act,
        ActivatorsData::InputPreviewMix4(n, a) => kw == "InputPreviewMix4"@ && n == num && a == act,
        ActivatorsData::InputPreviewMix5(n, a) => kw == "InputPreviewMix5"@ && n == num && a == act,
        ActivatorsData::InputPreviewMix6(n, a) => kw == "InputPreviewMix6"@ && n == num && a == act,
        ActivatorsData::InputPreviewMix7(n, a) => kw == "InputPreviewMix7"@ && n == num && a == act,
        ActivatorsData::InputPreviewMix8(n, a) => kw == "InputPreviewMix8"@ && n == num && a == act,
        ActivatorsData::InputPreviewMix9(n, a) => kw == "InputPreviewMix9"@ && n == num && a == act,
        ActivatorsData::InputPreviewMix10(n, a) => kw == "InputPreviewMix10"@ && n == num && a == act,
        ActivatorsData::InputPreviewMix11(n, a) => kw == "InputPreviewMix11"@ && n == num && a == act,
        ActivatorsData::InputPreviewMix12(n, a) => kw == "InputPreviewMix12"@ && n == num && a == act,
        ActivatorsData::InputPreviewMix13(n, a) => kw == "InputPreviewMix13"@ && n == num && a == act,
        ActivatorsData::InputPreviewMix14(n, a) => kw == "InputPreviewMix14"@ && n == num && a == act,
        ActivatorsData::InputPreviewMix15(n, a) => kw == "InputPreviewMix15"@ && n == num && a == act,
        ActivatorsData::InputPreviewMix16(n, a) => kw == "InputPreviewMix16"@ && n == num && a == act,
        ActivatorsData::InputPlaying(n, a) => kw == "InputPlaying"@ && n == num && a == act,
        ActivatorsData::InputAudio(n, a) => kw == "InputAudio"@ && n == num && a == act,
        ActivatorsData::InputSolo(n, a) => kw == "InputSolo"@ && n == num && a == act,
        ActivatorsData::InputBusAAudio(n, a) => kw == "InputBusAAudio"@ && n == num && a == act,
        ActivatorsData::InputBusBAudio(n, a) => kw == "InputBusBAudio"@ && n == num && a == act,
        ActivatorsData::InputBusCAudio(n, a) => kw == "InputBusCAudio"@ && n == num && a == act,
        ActivatorsData::InputBusDAudio(n, a) => kw == "InputBusDAudio"@ && n == num && a == act,
        ActivatorsData::InputBusEAudio(n, a) => kw == "InputBusEAudio"@ && n == num && a == act,
        ActivatorsData::InputBusFAudio(n, a) => kw == "InputBusFAudio"@ && n == num && a == act,
        ActivatorsData::InputBusGAudio(n, a) => kw == "InputBusGAudio"@ && n == num && a == act,
        ActivatorsData::InputMasterAudio(n, a) => kw == "InputMasterAudio"@ && n == num && a == act,
        ActivatorsData::Overlay1(n, a) => kw == "Overlay1"@ && n == num && a == act,
        ActivatorsData::Overlay2(n, a) => kw == "Overlay2"@ && n == num && a == act,
        ActivatorsData::Overlay3(n, a) => kw == "Overlay3"@ && n == num && a == act,
        ActivatorsData::Overlay4(n, a) => kw == "Overlay4"@ && n == num && a == act,
        _ => false,
    }
}

/// The keyword, input number and level text that an input/level variant carries.
pub open spec fn input_float_variant(
    kw: Seq<char>,
    num: u16,
    level: Seq<char>,
    d: ActivatorsData,
) -> bool {
    match d {
        ActivatorsData::InputVolume(n, v) => kw == "InputVolume"@ && n == num && v@ == level,
        ActivatorsData::InputHeadphones(n, v) => kw == "InputHeadphones"@ && n == num && v@ == level,
        _ => false,
    }
}

/// The keyword and level text that a bare level variant carries.
pub open spec fn single_float_variant(kw: Seq<char>, level: Seq<char>, d: ActivatorsData) -> bool {
    match d {
        ActivatorsData::MasterVolume(v) => kw == "MasterVolume"@ && v@ == level,
        ActivatorsData::MasterHeadphones(v) => kw == "MasterHeadphones"@ && v@ == level,
        ActivatorsData::BusAVolume(v) => kw == "BusAVolume"@ && v@ == level,
        ActivatorsData::BusBVolume(v) => kw == "BusBVolume"@ && v@ == level,
        ActivatorsData::BusCVolume(v) => kw == "BusCVolume"@ && v@ == level,
        ActivatorsData::BusDVolume(v) => kw == "BusDVolume"@ && v@ == level,
        ActivatorsData::BusEVolume(v) => kw == "BusEVolume"@ && v@ == level,
        ActivatorsData::BusFVolume(v) => kw == "BusFVolume"@ && v@ == level,
        ActivatorsData::BusGVolume(v) => kw == "BusGVolume"@ && v@ == level,
        _ => false,
    }
}

/// The keyword and flag that a bare flag variant carries.
pub open spec fn single_bool_variant(kw: Seq<char>, act: bool, d: ActivatorsData) -> bool {
    match d {
        ActivatorsData::MasterAudio(a) => kw == "MasterAudio"@ && a == act,
        ActivatorsData::BusAAudio(a) => kw == "BusAAudio"@ && a == act,
        ActivatorsData::BusBAudio(a) => kw == "BusBAudio"@ && a == act,
        ActivatorsData::BusCAudio(a) => kw == "BusCAudio"@ && a == act,
        ActivatorsData::BusDAudio(a) => kw == "BusDAudio"@ && a == act,
        ActivatorsData::BusEAudio(a) => kw == "BusEAudio"@ && a == act,
        ActivatorsData::BusFAudio(a) => kw == "BusFAudio"@ && a == act,
        ActivatorsData::BusGAudio(a) => kw == "BusGAudio"@ && a == act,
        ActivatorsData::BusASolo(a) => kw == "BusASolo"@ && a == act,
        ActivatorsData::BusBSolo(a) => kw == "BusBSolo"@ && a == act,
        ActivatorsData::BusCSolo(a) => kw == "BusCSolo"@ && a == act,
        ActivatorsData::BusDSolo(a) => kw == "BusDSolo"@ && a == act,
        ActivatorsData::BusESolo(a) => kw == "BusESolo"@ && a == act,
        ActivatorsData::BusFSolo(a) => kw == "BusFSolo"@ && a == act,
        ActivatorsData::BusGSolo(a) => kw == "BusGSolo"@ && a == act,
        ActivatorsData::FadeToBlack(a) => kw == "FadeToBlack"@ && a == act,
        ActivatorsData::Recording(a) => kw == "Recording"@ && a == act,
        ActivatorsData::Streaming(a) => kw == "Streaming"@ && a == act,
        ActivatorsData::External(a) => kw == "External"@ && a == act,
        ActivatorsData::Fullscreen(a) => kw == "Fullscreen"@ && a == act,
        ActivatorsData::ReplayPlaying(a) => kw == "ReplayPlaying"@ && a == act,
        _ => false,
    }
}

/// Whether an activator token list decodes successfully: a known keyword
/// followed by enough value tokens for its shape.
pub open spec fn acts_decodes(args: Seq<Seq<char>>) -> bool {
    args.len() > 0 && {
        let k = args[0];
        if is_input_bool_keyword(k) || is_input_float_keyword(k) {
            args.len() >= 3
        } else if is_single_float_keyword(k) || is_single_bool_keyword(k) {
            args.len() >= 2
        } else {
            false
        }
    }
}

/// The decoded value that an activator token list denotes.
pub open spec fn acts_value_matches(args: Seq<Seq<char>>, d: ActivatorsData) -> bool {
    args.len() > 0 && {
        let k = args[0];
        if is_input_bool_keyword(k) {
            args.len() >= 3 && input_bool_variant(k, spec_input_number(args[1]), args[2] == "1"@, d)
        } else if is_input_float_keyword(k) {
            args.len() >= 3 && input_float_variant(k, spec_input_number(args[1]), args[2], d)
        } else if is_single_float_keyword(k) {
            args.len() >= 2 && single_float_variant(k, args[1], d)
        } else if is_single_bool_keyword(k) {
            args.len() >= 2 && single_bool_variant(k, args[1] == "1"@, d)
        } else {
            false
        }
    }
}

/// Which error a failing activator token list produces.
pub open spec fn acts_error_matches(args: Seq<Seq<char>>, e: DecodeError) -> bool {
    match e {
        DecodeError::UnknownActivator => args.len() > 0 && !is_known_activator(args[0]),
        DecodeError::MissingArgument => args.len() == 0 || (is_known_activator(args[0])
            && !acts_decodes(args)),
        _ => false,
    }
}

fn input_bool_keyword(kw: &str) -> (r: bool)
    ensures
        r == is_input_bool_keyword(kw@),
{
    str_eq(kw, "Input")
        || str_eq(kw, "InputMix2")
        || str_eq(kw, "InputMix3")
        || str_eq(kw, "InputMix4")
        || str_eq(kw, "InputMix5")
        || str_eq(kw, "InputMix6")
        || str_eq(kw, "InputMix7")
        || str_eq(kw, "InputMix8")
        || str_eq(kw, "InputMix9")
        || str_eq(kw, "InputMix10")
        || str_eq(kw, "InputMix11")
        || str_eq(kw, "InputMix12")
        || str_eq(kw, "InputMix13")
        || str_eq(kw, "InputMix14")
        || str_eq(kw, "InputMix15")
        || str_eq(kw, "InputMix16")
        || str_eq(kw, "InputPreview")
        || str_eq(kw, "InputPreviewMix2")
        || str_eq(kw, "InputPreviewMix3")
        || str_eq(kw, "InputPreviewMix4")
        || str_eq(kw, "InputPreviewMix5")
        || str_eq(kw, "InputPreviewMix6")
        || str_eq(kw, "InputPreviewMix7")
        || str_eq(kw, "InputPreviewMix8")
        || str_eq(kw, "InputPreviewMix9")
        || str_eq(kw, "InputPreviewMix10")
        || str_eq(kw, "InputPreviewMix11")
        || str_eq(kw, "InputPreviewMix12")
        || str_eq(kw, "InputPreviewMix13")
        || str_eq(kw, "InputPreviewMix14")
        || str_eq(kw, "InputPreviewMix15")
        || str_eq(kw, "InputPreviewMix16")
        || str_eq(kw, "InputPlaying")
        || str_eq(kw, "InputAudio")
        || str_eq(kw, "InputSolo")
        || str_eq(kw, "InputBusAAudio")
        || str_eq(kw, "InputBusBAudio")
        || str_eq(kw, "InputBusCAudio")
        || str_eq(kw, "InputBusDAudio")
        || str_eq(kw, "InputBusEAudio")
        || str_eq(kw, "InputBusFAudio")
        || str_eq(kw, "InputBusGAudio")
        || str_eq(kw, "InputMasterAudio")
        || str_eq(kw, "Overlay1")
        || str_eq(kw, "Overlay2")
        || str_eq(kw, "Overlay3")
        || str_eq(kw, "Overlay4")
}

fn input_float_keyword(kw: &str) -> (r: bool)
    ensures
        r == is_input_float_keyword(kw@),
{
    str_eq(kw, "InputVolume")
        || str_eq(kw, "InputHeadphones")
}

fn single_float_keyword(kw: &str) -> (r: bool)
    ensures
        r == is_single_float_keyword(kw@),
{
    str_eq(kw, "MasterVolume")
        || str_eq(kw, "MasterHeadphones")
        || str_eq(kw, "BusAVolume")
        || str_eq(kw, "BusBVolume")
        || str_eq(kw, "BusCVolume")
        || str_eq(kw, "BusDVolume")
        || str_eq(kw, "BusEVolume")
        || str_eq(kw, "BusFVolume")
        || str_eq(kw, "BusGVolume")
}

fn single_bool_keyword(kw: &str) -> (r: bool)
    ensures
        r == is_single_bool_keyword(kw@),
{
    str_eq(kw, "MasterAudio")
        || str_eq(kw, "BusAAudio")
        || str_eq(kw, "BusBAudio")
        || str_eq(kw, "BusCAudio")
        || str_eq(kw, "BusDAudio")
        || str_eq(kw, "BusEAudio")
        || str_eq(kw, "BusFAudio")
        || str_eq(kw, "BusGAudio")
        || str_eq(kw, "BusASolo")
        || str_eq(kw, "BusBSolo")
        || str_eq(kw, "BusCSolo")
        || str_eq(kw, "BusDSolo")
        || str_eq(kw, "BusESolo")
        || str_eq(kw, "BusFSolo")
        || str_eq(kw, "BusGSolo")
        || str_eq(kw, "FadeToBlack")
        || str_eq(kw, "Recording")
        || str_eq(kw, "Streaming")
        || str_eq(kw, "External")
        || str_eq(kw, "Fullscreen")
        || str_eq(kw, "ReplayPlaying")
}

/// Decode a variant that carries an input number and an on/off flag: the
/// number stands at `idx`, the flag one past it.
pub fn create_input_bool_variant(values: &Vec<String>, idx: usize) -> (r: Result<
    ActivatorsData,
    DecodeError,
>)
    requires
        idx < usize::MAX,
    ensures
        ({
            let tv = token_views(values@);
            match r {
                Ok(d) => tv.len() > idx + 1 && input_bool_variant(
                    tv[0],
                    spec_input_number(tv[idx as int]),
                    tv[idx + 1] == "1"@,
                    d,
                ),
                Err(DecodeError::MissingArgument) => tv.len() <= idx + 1,
                Err(DecodeError::UnknownActivator) => tv.len() > idx + 1 && !is_input_bool_keyword(
                    tv[0],
                ),
                Err(_) => false,
            }
        }),
{
    if values.len() <= idx + 1 {
        return Err(DecodeError::MissingArgument);
    }
    let input_num = parse_input_number(values[idx].as_str());
    let act = is_active(values[idx + 1].as_str());
    let kw = values[0].as_str();
    if str_eq(kw, "Input") {
        Ok(ActivatorsData::Input(input_num, act))
    } else if str_eq(kw, "InputMix2") {
        Ok(ActivatorsData::InputMix2(input_num, act))
    } else if str_eq(kw, "InputMix3") {
        Ok(ActivatorsData::InputMix3(input_num, act))
    } else if str_eq(kw, "InputMix4") {
        Ok(ActivatorsData::InputMix4(input_num, act))
    } else if str_eq(kw, "InputMix5") {
        Ok(ActivatorsData::InputMix5(input_num, act))
    } else if str_eq(kw, "InputMix6") {
        Ok(ActivatorsData::InputMix6(input_num, act))
    } else if str_eq(kw, "InputMix7") {
        Ok(ActivatorsData::InputMix7(input_num, act))
    } else if str_eq(kw, "InputMix8") {
        Ok(ActivatorsData::InputMix8(input_num, act))
    } else if str_eq(kw, "InputMix9") {
        Ok(ActivatorsData::InputMix9(input_num, act))
    } else if str_eq(kw, "InputMix10") {
        Ok(ActivatorsData::InputMix10(input_num, act))
    } else if str_eq(kw, "InputMix11") {
        Ok(ActivatorsData::InputMix11(input_num, act))
    } else if str_eq(kw, "InputMix12") {
        Ok(ActivatorsData::InputMix12(input_num, act))
    } else if str_eq(kw, "InputMix13") {
        Ok(ActivatorsData::InputMix13(input_num, act))
    } else if str_eq(kw, "InputMix14") {
        Ok(ActivatorsData::InputMix14(input_num, act))
    } else if str_eq(kw, "InputMix15") {
        Ok(ActivatorsData::InputMix15(input_num, act))
    } else if str_eq(kw, "InputMix16") {
        Ok(ActivatorsData::InputMix16(input_num, act))
    } else if str_eq(kw, "InputPreview") {
        Ok(ActivatorsData::InputPreview(input_num, act))
    } else if str_eq(kw, "InputPreviewMix2") {
        Ok(ActivatorsData::InputPreviewMix2(input_num, act))
    } else if str_eq(kw, "InputPreviewMix3") {
        Ok(ActivatorsData::InputPreviewMix3(input_num, act))
    } else if str_eq(kw, "InputPreviewMix4") {
        Ok(ActivatorsData::InputPreviewMix4(input_num, act))
    } else if str_eq(kw, "InputPreviewMix5") {
        Ok(ActivatorsData::InputPreviewMix5(input_num, act))
    } else if str_eq(kw, "InputPreviewMix6") {
        Ok(ActivatorsData::InputPreviewMix6(input_num, act))
    } else if str_eq(kw, "InputPreviewMix7") {
        Ok(ActivatorsData::InputPreviewMix7(input_num, act))
    } else if str_eq(kw, "InputPreviewMix8") {
        Ok(ActivatorsData::InputPreviewMix8(input_num, act))
    } else if str_eq(kw, "InputPreviewMix9") {
        Ok(ActivatorsData::InputPreviewMix9(input_num, act))
    } else if str_eq(kw, "InputPreviewMix10") {
        Ok(ActivatorsData::InputPreviewMix10(input_num, act))
    } else if str_eq(kw, "InputPreviewMix11") {
        Ok(ActivatorsData::InputPreviewMix11(input_num, act))
    } else if str_eq(kw, "InputPreviewMix12") {
        Ok(ActivatorsData::InputPreviewMix12(input_num, act))
    } else if str_eq(kw, "InputPreviewMix13") {
        Ok(ActivatorsData::InputPreviewMix13(input_num, act))
    } else if str_eq(kw, "InputPreviewMix14") {
        Ok(ActivatorsData::InputPreviewMix14(input_num, act))
    } else if str_eq(kw, "InputPreviewMix15") {
        Ok(ActivatorsData::InputPreviewMix15(input_num, act))
    } else if str_eq(kw, "InputPreviewMix16") {
        Ok(ActivatorsData::InputPreviewMix16(input_num, act))
    } else if str_eq(kw, "InputPlaying") {
        Ok(ActivatorsData::InputPlaying(input_num, act))
    } else if str_eq(kw, "InputAudio") {
        Ok(ActivatorsData::InputAudio(input_num, act))
    } else if str_eq(kw, "InputSolo") {
        Ok(ActivatorsData::InputSolo(input_num, act))
    } else if str_eq(kw, "InputBusAAudio") {
        Ok(ActivatorsData::InputBusAAudio(input_num, act))
    } else if str_eq(kw, "InputBusBAudio") {
        Ok(ActivatorsData::InputBusBAudio(input_num, act))
    } else if str_eq(kw, "InputBusCAudio") {
        Ok(ActivatorsData::InputBusCAudio(input_num, act))
    } else if str_eq(kw, "InputBusDAudio") {
        Ok(ActivatorsData::InputBusDAudio(input_num, act))
    } else if str_eq(kw, "InputBusEAudio") {
        Ok(ActivatorsData::InputBusEAudio(input_num, act))
    } else if str_eq(kw, "InputBusFAudio") {
        Ok(ActivatorsData::InputBusFAudio(input_num, act))
    } else if str_eq(kw, "InputBusGAudio") {
        Ok(ActivatorsData::InputBusGAudio(input_num, act))
    } else if str_eq(kw, "InputMasterAudio") {
        Ok(ActivatorsData::InputMasterAudio(input_num, act))
    } else if str_eq(kw, "Overlay1") {
        Ok(ActivatorsData::Overlay1(input_num, act))
    } else if str_eq(kw, "Overlay2") {
        Ok(ActivatorsData::Overlay2(input_num, act))
    } else if str_eq(kw, "Overlay3") {
        Ok(ActivatorsData::Overlay3(input_num, act))
    } else if str_eq(kw, "Overlay4") {
        Ok(ActivatorsData::Overlay4(input_num, act))
    } else {
        Err(DecodeError::UnknownActivator)
    }
}

/// Decode a variant that carries an input number and a level: the number
/// stands at `idx`, the level text one past it.
pub fn create_input_float_variant(values: &Vec<String>, idx: usize) -> (r: Result<
    ActivatorsData,
    DecodeError,
>)
    requires
        idx < usize::MAX,
    ensures
        ({
            let tv = token_views(values@);
            match r {
                Ok(d) => tv.len() > idx + 1 && input_float_variant(
                    tv[0],
                    spec_input_number(tv[idx as int]),
                    tv[idx + 1],
                    d,
                ),
                Err(DecodeError::MissingArgument) => tv.len() <= idx + 1,
                Err(DecodeError::UnknownActivator) => tv.len() > idx + 1 && !is_input_float_keyword(
                    tv[0],
                ),
                Err(_) => false,
            }
        }),
{
    if values.len() <= idx + 1 {
        return Err(DecodeError::MissingArgument);
    }
    let input_num = parse_input_number(values[idx].as_str());
    let level = values[idx + 1].clone();
    let kw = values[0].as_str();
    if str_eq(kw, "InputVolume") {
        Ok(ActivatorsData::InputVolume(input_num, level))
    } else if str_eq(kw, "InputHeadphones") {
        Ok(ActivatorsData::InputHeadphones(input_num, level))
    } else {
        Err(DecodeError::UnknownActivator)
    }
}

/// Decode a variant that carries a level alone, standing at `idx`.
pub fn create_single_float_variant(values: &Vec<String>, idx: usize) -> (r: Result<
    ActivatorsData,
    DecodeError,
>)
    ensures
        ({
            let tv = token_views(values@);
            match r {
                Ok(d) => tv.len() > idx && single_float_variant(tv[0], tv[idx as int], d),
                Err(DecodeError::MissingArgument) => tv.len() <= idx,
                Err(DecodeError::UnknownActivator) => tv.len() > idx && !is_single_float_keyword(
                    tv[0],
                ),
                Err(_) => false,
            }
        }),
{
    if values.len() <= idx {
        return Err(DecodeError::MissingArgument);
    }
    let level = values[idx].clone();
    let kw = values[0].as_str();
    if str_eq(kw, "MasterVolume") {
        Ok(ActivatorsData::MasterVolume(level))
    } else if str_eq(kw, "MasterHeadphones") {
        Ok(ActivatorsData::MasterHeadphones(level))
    } else if str_eq(kw, "BusAVolume") {
        Ok(ActivatorsData::BusAVolume(level))
    } else if str_eq(kw, "BusBVolume") {
        Ok(ActivatorsData::BusBVolume(level))
    } else if str_eq(kw, "BusCVolume") {
        Ok(ActivatorsData::BusCVolume(level))
    } else if str_eq(kw, "BusDVolume") {
        Ok(ActivatorsData::BusDVolume(level))
    } else if str_eq(kw, "BusEVolume") {
        Ok(ActivatorsData::BusEVolume(level))
    } else if str_eq(kw, "BusFVolume") {
        Ok(ActivatorsData::BusFVolume(level))
    } else if str_eq(kw, "BusGVolume") {
        Ok(ActivatorsData::BusGVolume(level))
    } else {
        Err(DecodeError::UnknownActivator)
    }
}

/// Decode a variant that carries an on/off flag alone, standing at `idx`.
pub fn create_single_bool_variant(values: &Vec<String>, idx: usize) -> (r: Result<
    ActivatorsData,
    DecodeError,
>)
    ensures
        ({
            let tv = token_views(values@);
            match r {
                Ok(d) => tv.len() > idx && single_bool_variant(tv[0], tv[idx as int] == "1"@, d),
                Err(DecodeError::MissingArgument) => tv.len() <= idx,
                Err(DecodeError::UnknownActivator) => tv.len() > idx && !is_single_bool_keyword(
                    tv[0],
                ),
                Err(_) => false,
            }
        }),
{
    if values.len() <= idx {
        return Err(DecodeError::MissingArgument);
    }
    let act = is_active(values[idx].as_str());
    let kw = values[0].as_str();
    if str_eq(kw, "MasterAudio") {
        Ok(ActivatorsData::MasterAudio(act))
    } else if str_eq(kw, "BusAAudio") {
        Ok(ActivatorsData::BusAAudio(act))
    } else if str_eq(kw, "BusBAudio") {
        Ok(ActivatorsData::BusBAudio(act))
    } else if str_eq(kw, "BusCAudio") {
        Ok(ActivatorsData::BusCAudio(act))
    } else if str_eq(kw, "BusDAudio") {
        Ok(ActivatorsData::BusDAudio(act))
    } else if str_eq(kw, "BusEAudio") {
        Ok(ActivatorsData::BusEAudio(act))
    } else if str_eq(kw, "BusFAudio") {
        Ok(ActivatorsData::BusFAudio(act))
    } else if str_eq(kw, "BusGAudio") {
        Ok(ActivatorsData::BusGAudio(act))
    } else if str_eq(kw, "BusASolo") {
        Ok(ActivatorsData::BusASolo(act))
    } else if str_eq(kw, "BusBSolo") {
        Ok(ActivatorsData::BusBSolo(act))
    } else if str_eq(kw, "BusCSolo") {
        Ok(ActivatorsData::BusCSolo(act))
    } else if str_eq(kw, "BusDSolo") {
        Ok(ActivatorsData::BusDSolo(act))
    } else if str_eq(kw, "BusESolo") {
        Ok(ActivatorsData::BusESolo(act))
    } else if str_eq(kw, "BusFSolo") {
        Ok(ActivatorsData::BusFSolo(act))
    } else if str_eq(kw, "BusGSolo") {
        Ok(ActivatorsData::BusGSolo(act))
    } else if str_eq(kw, "FadeToBlack") {
        Ok(ActivatorsData::FadeToBlack(act))
    } else if str_eq(kw, "Recording") {
        Ok(ActivatorsData::Recording(act))
    } else if str_eq(kw, "Streaming") {
        Ok(ActivatorsData::Streaming(act))
    } else if str_eq(kw, "External") {
        Ok(ActivatorsData::External(act))
    } else if str_eq(kw, "Fullscreen") {
        Ok(ActivatorsData::Fullscreen(act))
    } else if str_eq(kw, "ReplayPlaying") {
        Ok(ActivatorsData::ReplayPlaying(act))
    } else {
        Err(DecodeError::UnknownActivator)
    }
}

impl ActivatorsData {
    /// Decode an activator notification from its value tokens, keyword
    /// first.  Succeeds exactly on a known keyword with enough values for
    /// its shape; an unknown keyword or a short list is a frame-recoverable
    /// error that leaves the connection untouched.
    pub fn decode(values: &Vec<String>) -> (r: Result<ActivatorsData, DecodeError>)
        ensures
            ({
                let tv = token_views(values@);
                match r {
                    Ok(d) => acts_decodes(tv) && acts_value_matches(tv, d),
                    Err(e) => !acts_decodes(tv) && acts_error_matches(tv, e),
                }
            }),
    {
        if values.len() == 0 {
            return Err(DecodeError::MissingArgument);
        }
        let kw = values[0].as_str();
        if input_bool_keyword(kw) {
            create_input_bool_variant(values, 1)
        } else if input_float_keyword(kw) {
            create_input_float_variant(values, 1)
        } else if single_float_keyword(kw) {
            create_single_float_variant(values, 1)
        } else if single_bool_keyword(kw) {
            create_single_bool_variant(values, 1)
        } else {
            Err(DecodeError::UnknownActivator)
        }
    }
}

} // verus!
