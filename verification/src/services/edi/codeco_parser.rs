//! CODECO: the container gate-in and gate-out report.

use crate::models::edi::{CodecoDataText, CodecoMovementText, ParsedCodecoData, ParsedCodecoMovement};
use crate::services::edi::tokenizer::{
    components, count_opening, first_component, lemma_tags_differ, opens_container,
    segments_view, split_components, tokenize, tokenize_spec, Segment,
};
use crate::text::{contains_seq, contains_text, string_of, text_is, uppercase, uppercase_of};
use vstd::prelude::*;

verus! {

/// The state of a CODECO parse: its gate, the movements already closed, and
/// the fields of the movement that is still open.
pub struct CodecoState {
    pub gate: Option<Seq<char>>,
    pub movements: Seq<CodecoMovementText>,
    pub current_container_id: Option<Seq<char>>,
    pub current_movement_type: Option<Seq<char>>,
    pub current_truck_plate: Option<Seq<char>>,
    pub current_iso_type: Option<Seq<char>>,
}

/// The state before the first segment.
pub open spec fn codeco_initial() -> CodecoState {
    CodecoState {
        gate: None,
        movements: Seq::empty(),
        current_container_id: None,
        current_movement_type: None,
        current_truck_plate: None,
        current_iso_type: None,
    }
}

/// The direction of passage that an upper-case text names: `IN` if it holds
/// `GATE-IN` or `GATE IN`, else `OUT` if it holds `GATE-OUT` or `GATE OUT`.
pub open spec fn codeco_movement_in(upper: Seq<char>) -> Option<Seq<char>> {
    if contains_seq(upper, "GATE-IN"@) || contains_seq(upper, "GATE IN"@) {
        Some("IN"@)
    } else if contains_seq(upper, "GATE-OUT"@) || contains_seq(upper, "GATE OUT"@) {
        Some("OUT"@)
    } else {
        None
    }
}

/// The direction of passage that a text names, whatever its letter case.
pub open spec fn codeco_movement_of(text: Seq<char>) -> Option<Seq<char>> {
    codeco_movement_in(uppercase_of(text))
}

/// The direction of passage of a handling code: `2` and `5` are `IN`, `3` and `6`
/// are `OUT`.
pub open spec fn codeco_handling(code: Seq<char>) -> Option<Seq<char>> {
    if code == "2"@ || code == "5"@ {
        Some("IN"@)
    } else if code == "3"@ || code == "6"@ {
        Some("OUT"@)
    } else {
        None
    }
}

/// The open slot is closed and a fresh one takes its place: if the slot has
/// a container id, it goes to the movements with the fields set for it;
/// without a container id it is dropped. The fresh slot has no field set.
pub open spec fn codeco_flush(st: CodecoState) -> CodecoState {
    CodecoState {
        movements: match st.current_container_id {
            Some(container_id) => st.movements.push(
                CodecoMovementText {
                    container_id,
                    movement_type: st.current_movement_type,
                    truck_license_plate: st.current_truck_plate,
                    iso_container_type: st.current_iso_type,
                },
            ),
            None => st.movements,
        },
        current_container_id: None,
        current_movement_type: None,
        current_truck_plate: None,
        current_iso_type: None,
        ..st
    }
}

/// Whether a segment is a `LOC` that names a gate: qualifier `9` or `11`,
/// with a location field.
pub open spec fn is_gate_loc(seg: Seq<Seq<char>>) -> bool {
    seg.len() > 2 && seg[0] == "LOC"@ && (seg[1] == "9"@ || seg[1] == "11"@)
}

/// `LOC` with qualifier `9` or `11`: the first sub-component of field 2 is
/// taken as gate, unless one is already set.
pub open spec fn codeco_on_loc(st: CodecoState, seg: Seq<Seq<char>>) -> CodecoState {
    if seg.len() > 2 && (seg[1] == "9"@ || seg[1] == "11"@) && st.gate is None {
        CodecoState { gate: Some(components(seg[2])[0]), ..st }
    } else {
        st
    }
}

/// `EQD`: closes the open slot and opens a new one, with field 2 as its
/// container id if that field is not empty, and the first sub-component of
/// field 3 as its ISO type if that field is not empty. Nothing that was set
/// before the `EQD` passes to the new slot.
pub open spec fn codeco_on_eqd(st: CodecoState, seg: Seq<Seq<char>>) -> CodecoState {
    let flushed = codeco_flush(st);
    if seg.len() > 2 {
        CodecoState {
            current_container_id: if seg[2].len() > 0 {
                Some(seg[2])
            } else {
                None
            },
            current_iso_type: if seg.len() > 3 && seg[3].len() > 0 {
                Some(components(seg[3])[0])
            } else {
                None
            },
            ..flushed
        }
    } else {
        flushed
    }
}

/// `TDT` with transport stage `1` or `3`: the first sub-component of field 8
/// is the truck's licence plate.
pub open spec fn codeco_on_tdt(st: CodecoState, seg: Seq<Seq<char>>) -> CodecoState {
    if seg.len() > 8 && (seg[1] == "1"@ || seg[1] == "3"@) {
        CodecoState { current_truck_plate: Some(components(seg[8])[0]), ..st }
    } else {
        st
    }
}

/// `RFF` with qualifier `CN` or `TN`: while no licence plate is set, the
/// reference value is taken for it.
pub open spec fn codeco_on_rff(st: CodecoState, seg: Seq<Seq<char>>) -> CodecoState {
    if seg.len() > 1 && (components(seg[1])[0] == "CN"@ || components(seg[1])[0] == "TN"@)
        && components(seg[1]).len() > 1 && st.current_truck_plate is None {
        CodecoState { current_truck_plate: Some(components(seg[1])[1]), ..st }
    } else {
        st
    }
}

/// `HAN`: the first sub-component of field 1 is the handling code.
pub open spec fn codeco_on_han(st: CodecoState, seg: Seq<Seq<char>>) -> CodecoState {
    if seg.len() > 1 {
        match codeco_handling(components(seg[1])[0]) {
            Some(movement_type) => CodecoState { current_movement_type: Some(movement_type), ..st },
            None => st,
        }
    } else {
        st
    }
}

/// `FTX`: while no movement type is set, the free text of field 3 may name it.
pub open spec fn codeco_on_ftx(st: CodecoState, seg: Seq<Seq<char>>) -> CodecoState {
    if seg.len() > 3 && st.current_movement_type is None {
        match codeco_movement_of(seg[3]) {
            Some(movement_type) => CodecoState { current_movement_type: Some(movement_type), ..st },
            None => st,
        }
    } else {
        st
    }
}

/// The state after one more segment. Segments with other tags change nothing.
pub open spec fn codeco_step(st: CodecoState, seg: Seq<Seq<char>>) -> CodecoState {
    if seg.len() == 0 {
        st
    } else if seg[0] == "LOC"@ {
        codeco_on_loc(st, seg)
    } else if seg[0] == "EQD"@ {
        codeco_on_eqd(st, seg)
    } else if seg[0] == "TDT"@ {
        codeco_on_tdt(st, seg)
    } else if seg[0] == "RFF"@ {
        codeco_on_rff(st, seg)
    } else if seg[0] == "HAN"@ {
        codeco_on_han(st, seg)
    } else if seg[0] == "FTX"@ {
        codeco_on_ftx(st, seg)
    } else {
        st
    }
}

/// The state after a run of segments, taken in order.
pub open spec fn codeco_run(st: CodecoState, segs: Seq<Seq<Seq<char>>>) -> CodecoState
    decreases segs.len(),
{
    if segs.len() == 0 {
        st
    } else {
        codeco_step(codeco_run(st, segs.drop_last()), segs.last())
    }
}

/// What a parse yields at the end of the stream: its gate and every
/// movement, the open one included if it has a container id.
pub open spec fn codeco_finish(st: CodecoState) -> CodecoDataText {
    CodecoDataText { gate: st.gate, movements: codeco_flush(st).movements }
}

/// The content of a CODECO message text.
pub open spec fn parse_codeco_spec(content: Seq<char>) -> CodecoDataText {
    codeco_finish(codeco_run(codeco_initial(), tokenize_spec(content)))
}

/// The direction of passage named by a text that is already in upper case.
pub fn classify_codeco_movement(upper: &Vec<char>) -> (movement_type: Option<String>)
    ensures
        movement_type.deep_view() == codeco_movement_in(upper@),
{
    if contains_text(upper, "GATE-IN") || contains_text(upper, "GATE IN") {
        Some("IN".to_owned())
    } else if contains_text(upper, "GATE-OUT") || contains_text(upper, "GATE OUT") {
        Some("OUT".to_owned())
    } else {
        None
    }
}

/// The direction of passage named by a text, whatever its letter case.
pub fn detect_codeco_movement(text: &Vec<char>) -> (movement_type: Option<String>)
    ensures
        movement_type.deep_view() == codeco_movement_of(text@),
{
    let upper = uppercase(text);
    classify_codeco_movement(&upper)
}

/// The direction of passage of a handling code.
pub fn handling_direction(code: &Vec<char>) -> (movement_type: Option<String>)
    ensures
        movement_type.deep_view() == codeco_handling(code@),
{
    if text_is(code, "2") || text_is(code, "5") {
        Some("IN".to_owned())
    } else if text_is(code, "3") || text_is(code, "6") {
        Some("OUT".to_owned())
    } else {
        None
    }
}

/// A CODECO parse in progress. Segments are fed one by one; `finish` closes
/// the stream.
pub struct CodecoParser {
    pub gate: Option<String>,
    pub movements: Vec<ParsedCodecoMovement>,
    pub current_container_id: Option<String>,
    pub current_movement_type: Option<String>,
    pub current_truck_plate: Option<String>,
    pub current_iso_type: Option<String>,
}

impl View for CodecoParser {
    type V = CodecoState;

    open spec fn view(&self) -> CodecoState {
        CodecoState {
            gate: self.gate.deep_view(),
            movements: self.movements@.map_values(|m: ParsedCodecoMovement| m@),
            current_container_id: self.current_container_id.deep_view(),
            current_movement_type: self.current_movement_type.deep_view(),
            current_truck_plate: self.current_truck_plate.deep_view(),
            current_iso_type: self.current_iso_type.deep_view(),
        }
    }
}

impl CodecoParser {
    /// A parser that has seen no segment.
    pub fn new() -> (parser: CodecoParser)
        ensures
            parser@ == codeco_initial(),
    {
        let parser = CodecoParser {
            gate: None,
            movements: Vec::new(),
            current_container_id: None,
            current_movement_type: None,
            current_truck_plate: None,
            current_iso_type: None,
        };
        assert(parser@.movements =~= Seq::empty());
        parser
    }

    /// Closes the open slot and opens a fresh one.
    pub fn flush(&mut self)
        ensures
            final(self)@ == codeco_flush(old(self)@),
    {
        let movement_type = self.current_movement_type.take();
        let truck_license_plate = self.current_truck_plate.take();
        let iso_container_type = self.current_iso_type.take();
        match self.current_container_id.take() {
            Some(container_id) => {
                let ghost before = self@.movements;
                let movement = ParsedCodecoMovement {
                    container_id,
                    movement_type,
                    truck_license_plate,
                    iso_container_type,
                };
                self.movements.push(movement);
                assert(self@.movements =~= before.push(movement@));
            },
            None => {},
        }
    }

    /// Takes one segment into the parse.
    pub fn feed(&mut self, segment: &Segment)
        ensures
            final(self)@ == codeco_step(old(self)@, segment@),
    {
        let fields = &segment.fields;
        let n = fields.len();
        if n == 0 {
            return ;
        }
        let tag = &fields[0];
        if text_is(tag, "LOC") {
            if n > 2 && (text_is(&fields[1], "9") || text_is(&fields[1], "11"))
                && self.gate.is_none() {
                let gate = first_component(&fields[2]);
                self.gate = Some(string_of(&gate));
            }
        } else if text_is(tag, "EQD") {
            self.flush();
            if n > 2 {
                if fields[2].len() > 0 {
                    self.current_container_id = Some(string_of(&fields[2]));
                }
                if n > 3 && fields[3].len() > 0 {
                    let iso = first_component(&fields[3]);
                    self.current_iso_type = Some(string_of(&iso));
                }
            }
        } else if text_is(tag, "TDT") {
            if n > 8 && (text_is(&fields[1], "1") || text_is(&fields[1], "3")) {
                let plate = first_component(&fields[8]);
                self.current_truck_plate = Some(string_of(&plate));
            }
        } else if text_is(tag, "RFF") {
            if n > 1 {
                let parts = split_components(&fields[1]);
                if (text_is(&parts[0], "CN") || text_is(&parts[0], "TN")) && parts.len() > 1
                    && self.current_truck_plate.is_none() {
                    self.current_truck_plate = Some(string_of(&parts[1]));
                }
            }
        } else if text_is(tag, "HAN") {
            if n > 1 {
                let code = first_component(&fields[1]);
                match handling_direction(&code) {
                    Some(movement_type) => {
                        self.current_movement_type = Some(movement_type);
                    },
                    None => {},
                }
            }
        } else if text_is(tag, "FTX") {
            if n > 3 && self.current_movement_type.is_none() {
                match detect_codeco_movement(&fields[3]) {
                    Some(movement_type) => {
                        self.current_movement_type = Some(movement_type);
                    },
                    None => {},
                }
            }
        }
    }

    /// Closes the stream and hands out what was parsed.
    pub fn finish(self) -> (data: ParsedCodecoData)
        ensures
            data@ == codeco_finish(self@),
    {
        let mut parser = self;
        parser.flush();
        ParsedCodecoData { gate: parser.gate, movements: parser.movements }
    }
}

/// Parses a CODECO message. Every text parses: what cannot be read is left
/// out of the result.
pub fn parse_codeco(content: &str) -> (result: Result<ParsedCodecoData, String>)
    ensures
        result is Ok,
        result->Ok_0@ == parse_codeco_spec(content@),
{
    let segments = tokenize(content);
    let mut parser = CodecoParser::new();
    let mut i: usize = 0;
    while i < segments.len()
        invariant
            i <= segments.len(),
            parser@ == codeco_run(codeco_initial(), segments_view(segments@).take(i as int)),
        decreases segments.len() - i,
    {
        proof {
            assert(segments_view(segments@).take(i + 1).drop_last() =~= segments_view(
                segments@,
            ).take(i as int));
        }
        parser.feed(&segments[i]);
        i += 1;
    }
    assert(segments_view(segments@).take(segments.len() as int) =~= segments_view(segments@));
    Ok(parser.finish())
}

/// The movements closed so far, and one more if a movement is open.
pub open spec fn codeco_opened(st: CodecoState) -> nat {
    st.movements.len() + if st.current_container_id is Some {
        1nat
    } else {
        0nat
    }
}

/// One segment opens one more movement exactly if it is an `EQD` with a
/// container id.
pub proof fn lemma_codeco_step_opens(st: CodecoState, seg: Seq<Seq<char>>)
    ensures
        codeco_opened(codeco_step(st, seg)) == codeco_opened(st) + if opens_container(seg) {
            1nat
        } else {
            0nat
        },
{
    lemma_tags_differ();
}

/// After any run of segments from the start, the movements closed or open
/// are as many as the `EQD` segments with a container id.
pub proof fn lemma_codeco_run_opens(segs: Seq<Seq<Seq<char>>>)
    ensures
        codeco_opened(codeco_run(codeco_initial(), segs)) == count_opening(segs),
    decreases segs.len(),
{
    if segs.len() > 0 {
        lemma_codeco_run_opens(segs.drop_last());
        lemma_codeco_step_opens(codeco_run(codeco_initial(), segs.drop_last()), segs.last());
    }
}

/// A CODECO message yields exactly one movement for each `EQD` segment
/// whose field 2 is not empty.
pub proof fn lemma_codeco_movement_count(content: Seq<char>)
    ensures
        parse_codeco_spec(content).movements.len() == count_opening(tokenize_spec(content)),
{
    lemma_codeco_run_opens(tokenize_spec(content));
}

/// A segment changes a gate only if none is set and the segment names one.
pub proof fn lemma_codeco_step_gate(st: CodecoState, seg: Seq<Seq<char>>)
    ensures
        codeco_step(st, seg).gate == if st.gate is None && is_gate_loc(seg) {
            Some(components(seg[2])[0])
        } else {
            st.gate
        },
{
    lemma_tags_differ();
}

/// The first `LOC` segment with qualifier `9` or `11` decides which gate is kept: no
/// later segment changes it.
pub proof fn lemma_codeco_first_gate_wins(segs: Seq<Seq<Seq<char>>>, first: int)
    requires
        0 <= first < segs.len(),
        is_gate_loc(segs[first]),
        forall|j: int| 0 <= j < first ==> !is_gate_loc(segs[j]),
    ensures
        codeco_run(codeco_initial(), segs).gate == Some(components(segs[first][2])[0]),
    decreases segs.len(),
{
    let before = segs.drop_last();
    lemma_codeco_step_gate(codeco_run(codeco_initial(), before), segs.last());
    if first < before.len() {
        lemma_codeco_first_gate_wins(before, first);
    } else {
        lemma_codeco_no_gate(before);
    }
}

/// Without a `LOC` segment with qualifier `9` or `11` there is no gate.
pub proof fn lemma_codeco_no_gate(segs: Seq<Seq<Seq<char>>>)
    requires
        forall|j: int| 0 <= j < segs.len() ==> !is_gate_loc(segs[j]),
    ensures
        codeco_run(codeco_initial(), segs).gate is None,
    decreases segs.len(),
{
    if segs.len() > 0 {
        lemma_codeco_no_gate(segs.drop_last());
        lemma_codeco_step_gate(codeco_run(codeco_initial(), segs.drop_last()), segs.last());
    }
}

/// Two texts with the same upper-case form name the same direction:
/// detection does not depend on letter case.
pub proof fn lemma_codeco_detection_ignores_case(a: Seq<char>, b: Seq<char>)
    requires
        uppercase_of(a) == uppercase_of(b),
    ensures
        codeco_movement_of(a) == codeco_movement_of(b),
{
}

} // verus!
