//! The state document model: a read-mostly snapshot of the production
//! tool's configuration, mirrored from its XML form.
//!
//! This is a passive data schema; several fields are carried as opaque
//! strings, and round-tripping through XML is not guaranteed.  The XML
//! reading and writing itself lives outside the library; what the library
//! computes from a snapshot — input numbers, tally state — is here.

use vstd::prelude::*;

use std::collections::HashMap;

use crate::commands::TallyData;
use crate::http::{derive_tally, tally_for};
use crate::text::{parse_input_number, spec_input_number};
use crate::InputNumber;

verus! {

/// The document's boolean fields, serialized as `"True"` / `"False"`.
#[derive(Debug, Clone, Copy, PartialEq, Eq, Structural)]
pub enum Boolean {
    False,
    True,
}

impl Boolean {
    pub fn as_bool(&self) -> (r: bool)
        ensures
            r == (*self == Boolean::True),
    {
        match self {
            Boolean::True => true,
            Boolean::False => false,
        }
    }
}

/// The audio buses an input can be routed to.
#[derive(Debug, Clone, Copy, PartialEq, Eq, Structural)]
pub enum Audiobusses {
    M,
    A,
    B,
}

/// The playback state of an input.
#[derive(Debug, Clone, Copy, PartialEq, Eq, Structural)]
pub enum State {
    Paused,
    Running,
    Completed,
    Unknown,
}

impl Default for State {
    /// An input whose document entry carries no state is `Unknown`.
    fn default() -> (r: Self)
        ensures
            r == State::Unknown,
    {
        State::Unknown
    }
}

#[derive(Debug, Clone)]
pub struct Image {
    pub index: String,
    pub name: String,
}

#[derive(Debug, Clone)]
pub struct ListItem {
    pub enabled: Option<String>,
    pub selected: Option<String>,
    pub index: Option<String>,
    pub text: Option<String>,
}

#[derive(Debug, Clone)]
pub struct List {
    pub item: Vec<ListItem>,
}

#[derive(Debug, Clone)]
pub struct ItemClass {
    pub selected: String,
}

#[derive(Debug, Clone)]
pub struct FluffyOverlay {
    pub index: String,
    pub key: String,
}

#[derive(Debug, Clone)]
pub struct Replay {
    pub timecode: String,
    pub timecode_a: String,
    pub timecode_b: String,
    pub live: Boolean,
    pub recording: Boolean,
    pub channel_mode: String,
    pub events: String,
    pub events_a: String,
    pub events_b: String,
    pub camera_a: String,
    pub camera_b: String,
    pub speed: String,
    pub speed_a: String,
    pub speed_b: String,
}

/// One input of the production tool.
#[derive(Debug, Clone)]
pub struct Input {
    pub key: String,
    pub number: String,
    pub input_type: String,
    pub title: String,
    pub short_title: String,
    pub state: State,
    pub position: String,
    pub duration: String,
    pub input_loop: Boolean,
    pub muted: Option<Boolean>,
    pub volume: Option<String>,
    pub balance: Option<String>,
    pub solo: Option<Boolean>,
    pub meter_f1: Option<String>,
    pub meter_f2: Option<String>,
    pub gain_db: Option<String>,
    pub list: Option<List>,
    pub selected_index: Option<String>,
    pub image: Vec<Image>,
    pub replay: Option<Replay>,
}

impl Input {
    /// The input's number; 0 when the field is malformed.
    pub fn input_number(&self) -> (r: InputNumber)
        ensures
            r == spec_input_number(self.number@),
    {
        parse_input_number(self.number.as_str())
    }
}

#[derive(Debug, Clone)]
pub struct Inputs {
    pub input: Vec<Input>,
}

#[derive(Debug, Clone)]
pub struct Master {
    pub volume: String,
    pub muted: Boolean,
    pub meter_f1: String,
    pub meter_f2: String,
    pub headphones_volume: String,
}

#[derive(Debug, Clone)]
pub struct Audio {
    pub master: Master,
}

#[derive(Debug, Clone)]
pub struct Dynamic {
    pub input1: String,
    pub input2: String,
    pub input3: String,
    pub input4: String,
    pub value1: String,
    pub value2: String,
    pub value3: String,
    pub value4: String,
}

#[derive(Debug, Clone)]
pub struct OverlaysOverlay {
    pub number: String,
}

#[derive(Debug, Clone)]
pub struct Overlays {
    pub overlay: Vec<OverlaysOverlay>,
}

#[derive(Debug, Clone)]
pub struct Transition {
    pub number: String,
    pub effect: String,
    pub duration: String,
}

#[derive(Debug, Clone)]
pub struct Transitions {
    pub transition: Vec<Transition>,
}

/// The whole configuration snapshot.
#[derive(Debug, Clone)]
pub struct Vmix {
    pub version: String,
    pub edition: String,
    pub preset: String,
    pub inputs: Inputs,
    pub overlays: Overlays,
    pub preview: String,
    pub active: String,
    pub fade_to_black: Boolean,
    pub transitions: Transitions,
    pub recording: Boolean,
    pub external: Boolean,
    pub streaming: Boolean,
    pub play_list: Boolean,
    pub multi_corder: Boolean,
    pub fullscreen: Boolean,
    pub audio: Audio,
    pub dynamic: Dynamic,
}

impl Vmix {
    /// The active (program) input number; 0 when the field is malformed.
    pub fn active_number(&self) -> (r: InputNumber)
        ensures
            r == spec_input_number(self.active@),
    {
        parse_input_number(self.active.as_str())
    }

    /// The preview input number; 0 when the field is malformed.
    pub fn preview_number(&self) -> (r: InputNumber)
        ensures
            r == spec_input_number(self.preview@),
    {
        parse_input_number(self.preview.as_str())
    }

    /// The numbers of all listed inputs, in document order.
    pub fn input_numbers(&self) -> (r: Vec<InputNumber>)
        ensures
            r@.len() == self.inputs.input@.len(),
            forall|i: int|
                0 <= i < r@.len() ==> #[trigger] r@[i] == spec_input_number(
                    self.inputs.input@[i].number@,
                ),
    {
        let mut r: Vec<InputNumber> = Vec::new();
        let n = self.inputs.input.len();
        let mut i: usize = 0;
        while i < n
            invariant
                i <= n,
                n == self.inputs.input@.len(),
                r@.len() == i,
                forall|j: int|
                    0 <= j < i ==> #[trigger] r@[j] == spec_input_number(
                        self.inputs.input@[j].number@,
                    ),
            decreases n - i,
        {
            r.push(self.inputs.input[i].input_number());
            i += 1;
        }
        r
    }

    /// The tally mapping derived from the snapshot: the active input is
    /// on program, the preview input on preview, every other listed
    /// input off.
    pub fn tally_map(&self) -> (m: HashMap<InputNumber, TallyData>)
        ensures
            forall|k: InputNumber| #[trigger]
                m@.contains_key(k) <==> (exists|i: int|
                    0 <= i < self.inputs.input@.len() && k == spec_input_number(
                        #[trigger] self.inputs.input@[i].number@,
                    )),
            forall|k: InputNumber| #[trigger]
                m@.contains_key(k) ==> m@[k] == tally_for(
                    k,
                    spec_input_number(self.active@),
                    spec_input_number(self.preview@),
                ),
    {
        let active = self.active_number();
        let preview = self.preview_number();
        let numbers = self.input_numbers();
        let m = derive_tally(active, preview, &numbers);
        proof {
            assert forall|k: InputNumber| #[trigger] m@.contains_key(k) implies (exists|i: int|
                0 <= i < self.inputs.input@.len() && k == spec_input_number(
                    #[trigger] self.inputs.input@[i].number@,
                )) by {
                let w = choose|w: int| 0 <= w < numbers@.len() && numbers@[w] == k;
                assert(numbers@[w] == spec_input_number(self.inputs.input@[w].number@));
            }
            assert forall|k: InputNumber| (exists|i: int|
                0 <= i < self.inputs.input@.len() && k == spec_input_number(
                    #[trigger] self.inputs.input@[i].number@,
                )) implies #[trigger] m@.contains_key(k) by {
                let w = choose|w: int|
                    0 <= w < self.inputs.input@.len() && k == spec_input_number(
                        self.inputs.input@[w].number@,
                    );
                assert(numbers@[w] == k);
                assert(numbers@.contains(k));
            }
        }
        m
    }
}

} // verus!
