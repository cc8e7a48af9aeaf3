//! COARRI: the container discharge and loading report.

use crate::models::edi::{CoarriDataText, CoarriMovementText, ParsedCoarriData, ParsedCoarriMovement};
use crate::services::edi::tokenizer::{
    components, count_opening, first_component, lemma_tags_differ, opens_container,
    segments_view, split_components, tokenize, tokenize_spec, Segment,
};
use crate::text::{contains_seq, contains_text, string_of, text_is, uppercase, uppercase_of};
use vstd::prelude::*;

verus! {

/// The state of a COARRI parse: the header fields found so far, the movements
/// already closed, and the fields of the movement that is still open.
pub struct CoarriState {
    pub vessel_name: Option<Seq<char>>,
    pub voyage_number: Option<Seq<char>>,
    pub movements: Seq<CoarriMovementText>,
    pub current_container_id: Option<Seq<char>>,
    pub current_movement_type: Option<Seq<char>>,
    pub current_stowage: Option<Seq<char>>,
    pub current_iso_type: Option<Seq<char>>,
}

/// The state before the first segment.
pub open spec fn coarri_initial() -> CoarriState {
    CoarriState {
        vessel_name: None,
        voyage_number: None,
        movements: Seq::empty(),
        current_container_id: None,
        current_movement_type: None,
        current_stowage: None,
        current_iso_type: None,
    }
}

/// The movement type that an upper-case text names: `LOAD` if it holds
/// `LOAD`, else `DISCHARGE` if it holds `DISCH`, else `SHIFT` if it holds
/// `SHIFT`.
pub open spec fn coarri_movement_in(upper: Seq<char>) -> Option<Seq<char>> {
    if contains_seq(upper, "LOAD"@) {
        Some("LOAD"@)
    } else if contains_seq(upper, "DISCH"@) {
        Some("DISCHARGE"@)
    } else if contains_seq(upper, "SHIFT"@) {
        Some("SHIFT"@)
    } else {
        None
    }
}

/// The movement type that a text names, whatever its letter case.
pub open spec fn coarri_movement_of(text: Seq<char>) -> Option<Seq<char>> {
    coarri_movement_in(uppercase_of(text))
}

/// The open slot is closed and a fresh one takes its place: if the slot has
/// a container id, it goes to the movements with the fields set for it;
/// without a container id it is dropped. The fresh slot has no field set.
pub open spec fn coarri_flush(st: CoarriState) -> CoarriState {
    CoarriState {
        movements: match st.current_container_id {
            Some(container_id) => st.movements.push(
                CoarriMovementText {
                    container_id,
                    movement_type: st.current_movement_type,
                    stowage_location: st.current_stowage,
                    iso_container_type: st.current_iso_type,
                },
            ),
            None => st.movements,
        },
        current_container_id: None,
        current_movement_type: None,
        current_stowage: None,
        current_iso_type: None,
        ..st
    }
}

/// `TDT`: field 2 is the voyage, the first sub-component of field 8 the
/// vessel; an empty field leaves what was there.
pub open spec fn coarri_on_tdt(st: CoarriState, seg: Seq<Seq<char>>) -> CoarriState {
    if seg.len() > 8 {
        CoarriState {
            voyage_number: if seg[2].len() > 0 {
                Some(seg[2])
            } else {
                st.voyage_number
            },
            vessel_name: if seg[8].len() > 0 {
                Some(components(seg[8])[0])
            } else {
                st.vessel_name
            },
            ..st
        }
    } else {
        st
    }
}

/// `EQD`: closes the open slot and opens a new one, with field 2 as its
/// container id if that field is not empty, and the first sub-component of
/// field 3 as its ISO type if that field is not empty. Nothing that was set
/// before the `EQD` passes to the new slot.
pub open spec fn coarri_on_eqd(st: CoarriState, seg: Seq<Seq<char>>) -> CoarriState {
    let flushed = coarri_flush(st);
    if seg.len() > 2 {
        CoarriState {
            current_container_id: if seg[2].len() > 0 {
                Some(seg[2])
            } else {
                None
            },
            current_iso_type: if seg.len() > 3 && seg[3].len() > 0 {
                Some(components(seg[3])[0])
            } else {
                None
            },
            ..flushed
        }
    } else {
        flushed
    }
}

/// `RFF` with qualifier `BM` or `ABO`: the reference value may name the
/// movement type.
pub open spec fn coarri_on_rff(st: CoarriState, seg: Seq<Seq<char>>) -> CoarriState {
    if seg.len() > 1 && (components(seg[1])[0] == "BM"@ || components(seg[1])[0] == "ABO"@)
        && components(seg[1]).len() > 1 {
        match coarri_movement_of(components(seg[1])[1]) {
            Some(movement_type) => CoarriState { current_movement_type: Some(movement_type), ..st },
            None => st,
        }
    } else {
        st
    }
}

/// `FTX`: while no movement type is set, the free text of field 3 may name it.
pub open spec fn coarri_on_ftx(st: CoarriState, seg: Seq<Seq<char>>) -> CoarriState {
    if seg.len() > 3 && st.current_movement_type is None {
        match coarri_movement_of(seg[3]) {
            Some(movement_type) => CoarriState { current_movement_type: Some(movement_type), ..st },
            None => st,
        }
    } else {
        st
    }
}

/// `LOC` with qualifier `147` or `7`: the first sub-component of field 2 is
/// the stowage location.
pub open spec fn coarri_on_loc(st: CoarriState, seg: Seq<Seq<char>>) -> CoarriState {
    if seg.len() > 2 && (seg[1] == "147"@ || seg[1] == "7"@) {
        CoarriState { current_stowage: Some(components(seg[2])[0]), ..st }
    } else {
        st
    }
}

/// The state after one more segment. Segments with other tags change nothing.
pub open spec fn coarri_step(st: CoarriState, seg: Seq<Seq<char>>) -> CoarriState {
    if seg.len() == 0 {
        st
    } else if seg[0] == "TDT"@ {
        coarri_on_tdt(st, seg)
    } else if seg[0] == "EQD"@ {
        coarri_on_eqd(st, seg)
    } else if seg[0] == "RFF"@ {
        coarri_on_rff(st, seg)
    } else if seg[0] == "FTX"@ {
        coarri_on_ftx(st, seg)
    } else if seg[0] == "LOC"@ {
        coarri_on_loc(st, seg)
    } else {
        st
    }
}

/// The state after a run of segments, taken in order.
pub open spec fn coarri_run(st: CoarriState, segs: Seq<Seq<Seq<char>>>) -> CoarriState
    decreases segs.len(),
{
    if segs.len() == 0 {
        st
    } else {
        coarri_step(coarri_run(st, segs.drop_last()), segs.last())
    }
}

/// What a parse yields at the end of the stream: the header and every
/// movement, the open one included if it has a container id.
pub open spec fn coarri_finish(st: CoarriState) -> CoarriDataText {
    CoarriDataText {
        vessel_name: st.vessel_name,
        voyage_number: st.voyage_number,
        movements: coarri_flush(st).movements,
    }
}

/// The content of a COARRI message text.
pub open spec fn parse_coarri_spec(content: Seq<char>) -> CoarriDataText {
    coarri_finish(coarri_run(coarri_initial(), tokenize_spec(content)))
}

/// The movement type named by a text that is already in upper case.
pub fn classify_coarri_movement(upper: &Vec<char>) -> (movement_type: Option<String>)
    ensures
        movement_type.deep_view() == coarri_movement_in(upper@),
{
    if contains_text(upper, "LOAD") {
        Some("LOAD".to_owned())
    } else if contains_text(upper, "DISCH") {
        Some("DISCHARGE".to_owned())
    } else if contains_text(upper, "SHIFT") {
        Some("SHIFT".to_owned())
    } else {
        None
    }
}

/// The movement type named by a text, whatever its letter case.
pub fn detect_coarri_movement(text: &Vec<char>) -> (movement_type: Option<String>)
    ensures
        movement_type.deep_view() == coarri_movement_of(text@),
{
    let upper = uppercase(text);
    classify_coarri_movement(&upper)
}

/// A COARRI parse in progress. Segments are fed one by one; `finish` closes
/// the stream.
pub struct CoarriParser {
    pub vessel_name: Option<String>,
    pub voyage_number: Option<String>,
    pub movements: Vec<ParsedCoarriMovement>,
    pub current_container_id: Option<String>,
    pub current_movement_type: Option<String>,
    pub current_stowage: Option<String>,
    pub current_iso_type: Option<String>,
}

impl View for CoarriParser {
    type V = CoarriState;

    open spec fn view(&self) -> CoarriState {
        CoarriState {
            vessel_name: self.vessel_name.deep_view(),
            voyage_number: self.voyage_number.deep_view(),
            movements: self.movements@.map_values(|m: ParsedCoarriMovement| m@),
            current_container_id: self.current_container_id.deep_view(),
            current_movement_type: self.current_movement_type.deep_view(),
            current_stowage: self.current_stowage.deep_view(),
            current_iso_type: self.current_iso_type.deep_view(),
        }
    }
}

impl CoarriParser {
    /// A parser that has seen no segment.
    pub fn new() -> (parser: CoarriParser)
        ensures
            parser@ == coarri_initial(),
    {
        let parser = CoarriParser {
            vessel_name: None,
            voyage_number: None,
            movements: Vec::new(),
            current_container_id: None,
            current_movement_type: None,
            current_stowage: None,
            current_iso_type: None,
        };
        assert(parser@.movements =~= Seq::empty());
        parser
    }

    /// Closes the open slot and opens a fresh one.
    pub fn flush(&mut self)
        ensures
            final(self)@ == coarri_flush(old(self)@),
    {
        let movement_type = self.current_movement_type.take();
        let stowage_location = self.current_stowage.take();
        let iso_container_type = self.current_iso_type.take();
        match self.current_container_id.take() {
            Some(container_id) => {
                let ghost before = self@.movements;
                let movement = ParsedCoarriMovement {
                    container_id,
                    movement_type,
                    stowage_location,
                    iso_container_type,
                };
                self.movements.push(movement);
                assert(self@.movements =~= before.push(movement@));
            },
            None => {},
        }
    }

    /// Takes one segment into the parse.
    pub fn feed(&mut self, segment: &Segment)
        ensures
            final(self)@ == coarri_step(old(self)@, segment@),
    {
        let fields = &segment.fields;
        let n = fields.len();
        if n == 0 {
            return ;
        }
        let tag = &fields[0];
        if text_is(tag, "TDT") {
            if n > 8 {
                if fields[2].len() > 0 {
                    self.voyage_number = Some(string_of(&fields[2]));
                }
                if fields[8].len() > 0 {
                    let vessel = first_component(&fields[8]);
                    self.vessel_name = Some(string_of(&vessel));
                }
            }
        } else if text_is(tag, "EQD") {
            self.flush();
            if n > 2 {
                if fields[2].len() > 0 {
                    self.current_container_id = Some(string_of(&fields[2]));
                }
                if n > 3 && fields[3].len() > 0 {
                    let iso = first_component(&fields[3]);
                    self.current_iso_type = Some(string_of(&iso));
                }
            }
        } else if text_is(tag, "RFF") {
            if n > 1 {
                let parts = split_components(&fields[1]);
                if (text_is(&parts[0], "BM") || text_is(&parts[0], "ABO")) && parts.len() > 1 {
                    match detect_coarri_movement(&parts[1]) {
                        Some(movement_type) => {
                            self.current_movement_type = Some(movement_type);
                        },
                        None => {},
                    }
                }
            }
        } else if text_is(tag, "FTX") {
            if n > 3 && self.current_movement_type.is_none() {
                match detect_coarri_movement(&fields[3]) {
                    Some(movement_type) => {
                        self.current_movement_type = Some(movement_type);
                    },
                    None => {},
                }
            }
        } else if text_is(tag, "LOC") {
            if n > 2 && (text_is(&fields[1], "147") || text_is(&fields[1], "7")) {
                let stowage = first_component(&fields[2]);
                self.current_stowage = Some(string_of(&stowage));
            }
        }
    }

    /// Closes the stream and hands out what was parsed.
    pub fn finish(self) -> (data: ParsedCoarriData)
        ensures
            data@ == coarri_finish(self@),
    {
        let mut parser = self;
        parser.flush();
        ParsedCoarriData {
            vessel_name: parser.vessel_name,
            voyage_number: parser.voyage_number,
            movements: parser.movements,
        }
    }
}

/// Parses a COARRI message. Every text parses: what cannot be read is left
/// out of the result.
pub fn parse_coarri(content: &str) -> (result: Result<ParsedCoarriData, String>)
    ensures
        result is Ok,
        result->Ok_0@ == parse_coarri_spec(content@),
{
    let segments = tokenize(content);
    let mut parser = CoarriParser::new();
    let mut i: usize = 0;
    while i < segments.len()
        invariant
            i <= segments.len(),
            parser@ == coarri_run(coarri_initial(), segments_view(segments@).take(i as int)),
        decreases segments.len() - i,
    {
        proof {
            assert(segments_view(segments@).take(i + 1).drop_last() =~= segments_view(
                segments@,
            ).take(i as int));
        }
        parser.feed(&segments[i]);
        i += 1;
    }
    assert(segments_view(segments@).take(segments.len() as int) =~= segments_view(segments@));
    Ok(parser.finish())
}

/// The movements closed so far, and one more if a movement is open.
pub open spec fn coarri_opened(st: CoarriState) -> nat {
    st.movements.len() + if st.current_container_id is Some {
        1nat
    } else {
        0nat
    }
}

/// One segment opens one more movement exactly if it is an `EQD` with a
/// container id.
pub proof fn lemma_coarri_step_opens(st: CoarriState, seg: Seq<Seq<char>>)
    ensures
        coarri_opened(coarri_step(st, seg)) == coarri_opened(st) + if opens_container(seg) {
            1nat
        } else {
            0nat
        },
{
    lemma_tags_differ();
}

/// After any run of segments from the start, the movements closed or open
/// are as many as the `EQD` segments with a container id.
pub proof fn lemma_coarri_run_opens(segs: Seq<Seq<Seq<char>>>)
    ensures
        coarri_opened(coarri_run(coarri_initial(), segs)) == count_opening(segs),
    decreases segs.len(),
{
    if segs.len() > 0 {
        lemma_coarri_run_opens(segs.drop_last());
        lemma_coarri_step_opens(coarri_run(coarri_initial(), segs.drop_last()), segs.last());
    }
}

/// A COARRI message yields exactly one movement for each `EQD` segment
/// whose field 2 is not empty.
pub proof fn lemma_coarri_movement_count(content: Seq<char>)
    ensures
        parse_coarri_spec(content).movements.len() == count_opening(tokenize_spec(content)),
{
    lemma_coarri_run_opens(tokenize_spec(content));
}

/// Two texts with the same upper-case form name the same movement type:
/// detection does not depend on letter case.
pub proof fn lemma_coarri_detection_ignores_case(a: Seq<char>, b: Seq<char>)
    requires
        uppercase_of(a) == uppercase_of(b),
    ensures
        coarri_movement_of(a) == coarri_movement_of(b),
{
}

} // verus!
