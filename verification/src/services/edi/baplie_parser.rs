//! BAPLIE: the bay plan of occupied and empty stowage locations.

use crate::decimal::{is_non_negative_decimal, non_negative_decimal};
use crate::models::edi::{BaplieContainerText, BaplieDataText, ParsedBaplieContainer, ParsedBaplieData};
use crate::services::edi::tokenizer::{
    components, count_opening, first_component, last_component, lemma_tags_differ,
    opens_container, segments_view, split_components, tokenize, tokenize_spec, Segment,
};
use crate::text::{copy_range, string_of, text_is, texts};
use vstd::prelude::*;

verus! {

/// The state of a BAPLIE parse: the header fields found so far, the
/// containers already closed, and the fields of the container that is still
/// open.
pub struct BaplieState {
    pub vessel_name: Option<Seq<char>>,
    pub voyage_number: Option<Seq<char>>,
    pub port_of_loading: Option<Seq<char>>,
    pub port_of_discharge: Option<Seq<char>>,
    pub containers: Seq<BaplieContainerText>,
    pub current_container_id: Option<Seq<char>>,
    pub current_bay: Option<Seq<char>>,
    pub current_row: Option<Seq<char>>,
    pub current_tier: Option<Seq<char>>,
    pub current_size: Option<Seq<char>>,
    pub current_type: Option<Seq<char>>,
    pub current_weight: Option<Seq<char>>,
}

/// The state before the first segment.
pub open spec fn baplie_initial() -> BaplieState {
    BaplieState {
        vessel_name: None,
        voyage_number: None,
        port_of_loading: None,
        port_of_discharge: None,
        containers: Seq::empty(),
        current_container_id: None,
        current_bay: None,
        current_row: None,
        current_tier: None,
        current_size: None,
        current_type: None,
        current_weight: None,
    }
}

/// The open slot is closed and a fresh one takes its place: if the slot has
/// a container id, it goes to the containers with the fields set for it;
/// without a container id it is dropped. The fresh slot has no field set.
pub open spec fn baplie_flush(st: BaplieState) -> BaplieState {
    BaplieState {
        containers: match st.current_container_id {
            Some(container_id) => st.containers.push(
                BaplieContainerText {
                    container_id,
                    bay: st.current_bay,
                    row: st.current_row,
                    tier: st.current_tier,
                    size: st.current_size,
                    container_type: st.current_type,
                    weight: st.current_weight,
                },
            ),
            None => st.containers,
        },
        current_container_id: None,
        current_bay: None,
        current_row: None,
        current_tier: None,
        current_size: None,
        current_type: None,
        current_weight: None,
        ..st
    }
}

/// `TDT`: field 2 is the voyage, the first sub-component of field 8 the
/// vessel; an empty field leaves what was there.
pub open spec fn baplie_on_tdt(st: BaplieState, seg: Seq<Seq<char>>) -> BaplieState {
    if seg.len() > 8 {
        BaplieState {
            voyage_number: if seg[2].len() > 0 {
                Some(seg[2])
            } else {
                st.voyage_number
            },
            vessel_name: if seg[8].len() > 0 {
                Some(components(seg[8])[0])
            } else {
                st.vessel_name
            },
            ..st
        }
    } else {
        st
    }
}

/// Whether a segment is a `LOC` that gives a stowage cell: qualifier `147`
/// and at least three sub-components in field 2.
pub open spec fn is_stowage_loc(seg: Seq<Seq<char>>) -> bool {
    seg.len() > 2 && seg[0] == "LOC"@ && seg[1] == "147"@ && components(seg[2]).len() >= 3
}

/// `LOC`: qualifier `5` names the port of loading, `61` or `7` the port of
/// discharge, each by the first sub-component of field 2 and only if that
/// field is not empty; qualifier `147` gives bay, row and tier of the open
/// container as the first three sub-components of field 2, if there are
/// that many.
pub open spec fn baplie_on_loc(st: BaplieState, seg: Seq<Seq<char>>) -> BaplieState {
    if seg.len() > 2 {
        let parts = components(seg[2]);
        if seg[1] == "5"@ {
            if seg[2].len() > 0 {
                BaplieState { port_of_loading: Some(parts[0]), ..st }
            } else {
                st
            }
        } else if seg[1] == "61"@ || seg[1] == "7"@ {
            if seg[2].len() > 0 {
                BaplieState { port_of_discharge: Some(parts[0]), ..st }
            } else {
                st
            }
        } else if seg[1] == "147"@ {
            if parts.len() >= 3 {
                BaplieState {
                    current_bay: Some(parts[0]),
                    current_row: Some(parts[1]),
                    current_tier: Some(parts[2]),
                    ..st
                }
            } else {
                st
            }
        } else {
            st
        }
    } else {
        st
    }
}

/// `EQD`: closes the open slot and opens a new one, with field 2 as its
/// container id if that field is not empty. The first sub-component of
/// field 3 is the size and type code: if it has two characters or more, the
/// first two are the size and the whole code is the type. Nothing that was
/// set before the `EQD` passes to the new slot.
pub open spec fn baplie_on_eqd(st: BaplieState, seg: Seq<Seq<char>>) -> BaplieState {
    let flushed = baplie_flush(st);
    if seg.len() > 2 {
        let coded = seg.len() > 3 && components(seg[3])[0].len() >= 2;
        BaplieState {
            current_container_id: if seg[2].len() > 0 {
                Some(seg[2])
            } else {
                None
            },
            current_size: if coded {
                Some(components(seg[3])[0].take(2))
            } else {
                None
            },
            current_type: if coded {
                Some(components(seg[3])[0])
            } else {
                None
            },
            ..flushed
        }
    } else {
        flushed
    }
}

/// `MEA` with qualifier `AAE` or `VGM`: the last sub-component of field 3
/// is the weight, if it writes a non-negative decimal number. Any other text
/// there, a negative number among them, leaves the state as it was.
pub open spec fn baplie_on_mea(st: BaplieState, seg: Seq<Seq<char>>) -> BaplieState {
    if seg.len() > 3 && (seg[1] == "AAE"@ || seg[1] == "VGM"@) && is_non_negative_decimal(
        components(seg[3]).last(),
    ) {
        BaplieState { current_weight: Some(components(seg[3]).last()), ..st }
    } else {
        st
    }
}

/// The state after one more segment. Segments with other tags change nothing.
pub open spec fn baplie_step(st: BaplieState, seg: Seq<Seq<char>>) -> BaplieState {
    if seg.len() == 0 {
        st
    } else if seg[0] == "TDT"@ {
        baplie_on_tdt(st, seg)
    } else if seg[0] == "LOC"@ {
        baplie_on_loc(st, seg)
    } else if seg[0] == "EQD"@ {
        baplie_on_eqd(st, seg)
    } else if seg[0] == "MEA"@ {
        baplie_on_mea(st, seg)
    } else {
        st
    }
}

/// The state after a run of segments, taken in order.
pub open spec fn baplie_run(st: BaplieState, segs: Seq<Seq<Seq<char>>>) -> BaplieState
    decreases segs.len(),
{
    if segs.len() == 0 {
        st
    } else {
        baplie_step(baplie_run(st, segs.drop_last()), segs.last())
    }
}

/// What a parse yields at the end of the stream: the header and every
/// container, the open one included if it has a container id.
pub open spec fn baplie_finish(st: BaplieState) -> BaplieDataText {
    BaplieDataText {
        vessel_name: st.vessel_name,
        voyage_number: st.voyage_number,
        port_of_loading: st.port_of_loading,
        port_of_discharge: st.port_of_discharge,
        containers: baplie_flush(st).containers,
    }
}

/// The content of a BAPLIE message text.
pub open spec fn parse_baplie_spec(content: Seq<char>) -> BaplieDataText {
    baplie_finish(baplie_run(baplie_initial(), tokenize_spec(content)))
}

/// A BAPLIE parse in progress. Segments are fed one by one; `finish` closes
/// the stream.
pub struct BaplieParser {
    pub vessel_name: Option<String>,
    pub voyage_number: Option<String>,
    pub port_of_loading: Option<String>,
    pub port_of_discharge: Option<String>,
    pub containers: Vec<ParsedBaplieContainer>,
    pub current_container_id: Option<String>,
    pub current_bay: Option<String>,
    pub current_row: Option<String>,
    pub current_tier: Option<String>,
    pub current_size: Option<String>,
    pub current_type: Option<String>,
    pub current_weight: Option<String>,
}

impl View for BaplieParser {
    type V = BaplieState;

    open spec fn view(&self) -> BaplieState {
        BaplieState {
            vessel_name: self.vessel_name.deep_view(),
            voyage_number: self.voyage_number.deep_view(),
            port_of_loading: self.port_of_loading.deep_view(),
            port_of_discharge: self.port_of_discharge.deep_view(),
            containers: self.containers@.map_values(|c: ParsedBaplieContainer| c@),
            current_container_id: self.current_container_id.deep_view(),
            current_bay: self.current_bay.deep_view(),
            current_row: self.current_row.deep_view(),
            current_tier: self.current_tier.deep_view(),
            current_size: self.current_size.deep_view(),
            current_type: self.current_type.deep_view(),
            current_weight: self.current_weight.deep_view(),
        }
    }
}

impl BaplieParser {
    /// A parser that has seen no segment.
    pub fn new() -> (parser: BaplieParser)
        ensures
            parser@ == baplie_initial(),
    {
        let parser = BaplieParser {
            vessel_name: None,
            voyage_number: None,
            port_of_loading: None,
            port_of_discharge: None,
            containers: Vec::new(),
            current_container_id: None,
            current_bay: None,
            current_row: None,
            current_tier: None,
            current_size: None,
            current_type: None,
            current_weight: None,
        };
        assert(parser@.containers =~= Seq::empty());
        parser
    }

    /// Closes the open slot and opens a fresh one.
    pub fn flush(&mut self)
        ensures
            final(self)@ == baplie_flush(old(self)@),
    {
        let bay = self.current_bay.take();
        let row = self.current_row.take();
        let tier = self.current_tier.take();
        let size = self.current_size.take();
        let container_type = self.current_type.take();
        let weight = self.current_weight.take();
        match self.current_container_id.take() {
            Some(container_id) => {
                let ghost before = self@.containers;
                let container = ParsedBaplieContainer {
                    container_id,
                    bay,
                    row,
                    tier,
                    size,
                    container_type,
                    weight,
                };
                self.containers.push(container);
                assert(self@.containers =~= before.push(container@));
            },
            None => {},
        }
    }

    /// Takes a `TDT` segment into the parse.
    fn feed_tdt(&mut self, fields: &Vec<Vec<char>>)
        ensures
            final(self)@ == baplie_on_tdt(old(self)@, texts(fields@)),
    {
        if fields.len() > 8 {
            if fields[2].len() > 0 {
                self.voyage_number = Some(string_of(&fields[2]));
            }
            if fields[8].len() > 0 {
                let vessel = first_component(&fields[8]);
                self.vessel_name = Some(string_of(&vessel));
            }
        }
    }

    /// Takes a `LOC` segment into the parse.
    fn feed_loc(&mut self, fields: &Vec<Vec<char>>)
        ensures
            final(self)@ == baplie_on_loc(old(self)@, texts(fields@)),
    {
        if fields.len() > 2 {
            let qualifier = &fields[1];
            let location = &fields[2];
            if text_is(qualifier, "5") {
                if location.len() > 0 {
                    let port = first_component(location);
                    self.port_of_loading = Some(string_of(&port));
                }
            } else if text_is(qualifier, "61") || text_is(qualifier, "7") {
                if location.len() > 0 {
                    let port = first_component(location);
                    self.port_of_discharge = Some(string_of(&port));
                }
            } else if text_is(qualifier, "147") {
                let parts = split_components(location);
                if parts.len() >= 3 {
                    self.current_bay = Some(string_of(&parts[0]));
                    self.current_row = Some(string_of(&parts[1]));
                    self.current_tier = Some(string_of(&parts[2]));
                }
            }
        }
    }

    /// Takes an `EQD` segment into the parse.
    fn feed_eqd(&mut self, fields: &Vec<Vec<char>>)
        ensures
            final(self)@ == baplie_on_eqd(old(self)@, texts(fields@)),
    {
        self.flush();
        if fields.len() > 2 {
            if fields[2].len() > 0 {
                self.current_container_id = Some(string_of(&fields[2]));
            }
            if fields.len() > 3 {
                let code = first_component(&fields[3]);
                if code.len() >= 2 {
                    let size = copy_range(&code, 0, 2);
                    assert(size@ =~= code@.take(2));
                    self.current_size = Some(string_of(&size));
                    self.current_type = Some(string_of(&code));
                }
            }
        }
    }

    /// Takes a `MEA` segment into the parse.
    fn feed_mea(&mut self, fields: &Vec<Vec<char>>)
        ensures
            final(self)@ == baplie_on_mea(old(self)@, texts(fields@)),
    {
        if fields.len() > 3 && (text_is(&fields[1], "AAE") || text_is(&fields[1], "VGM")) {
            let weight = last_component(&fields[3]);
            if non_negative_decimal(&weight) {
                self.current_weight = Some(string_of(&weight));
            }
        }
    }

    /// Takes one segment into the parse.
    pub fn feed(&mut self, segment: &Segment)
        ensures
            final(self)@ == baplie_step(old(self)@, segment@),
    {
        let fields = &segment.fields;
        if fields.len() == 0 {
            return ;
        }
        let tag = &fields[0];
        if text_is(tag, "TDT") {
            self.feed_tdt(fields);
        } else if text_is(tag, "LOC") {
            self.feed_loc(fields);
        } else if text_is(tag, "EQD") {
            self.feed_eqd(fields);
        } else if text_is(tag, "MEA") {
            self.feed_mea(fields);
        }
    }

    /// Closes the stream and hands out what was parsed.
    pub fn finish(self) -> (data: ParsedBaplieData)
        ensures
            data@ == baplie_finish(self@),
    {
        let mut parser = self;
        parser.flush();
        ParsedBaplieData {
            vessel_name: parser.vessel_name,
            voyage_number: parser.voyage_number,
            port_of_loading: parser.port_of_loading,
            port_of_discharge: parser.port_of_discharge,
            containers: parser.containers,
        }
    }
}

/// Parses a BAPLIE message. Every text parses: what cannot be read is left
/// out of the result.
pub fn parse_baplie(content: &str) -> (result: Result<ParsedBaplieData, String>)
    ensures
        result is Ok,
        result->Ok_0@ == parse_baplie_spec(content@),
        forall|i: int|
            0 <= i < result->Ok_0@.containers.len() ==> weight_ok(
                #[trigger] result->Ok_0@.containers[i].weight,
            ),
{
    proof {
        lemma_baplie_weights_non_negative(content@);
    }
    let segments = tokenize(content);
    let mut parser = BaplieParser::new();
    let mut i: usize = 0;
    while i < segments.len()
        invariant
            i <= segments.len(),
            parser@ == baplie_run(baplie_initial(), segments_view(segments@).take(i as int)),
        decreases segments.len() - i,
    {
        proof {
            assert(segments_view(segments@).take(i + 1).drop_last() =~= segments_view(
                segments@,
            ).take(i as int));
        }
        parser.feed(&segments[i]);
        i += 1;
    }
    assert(segments_view(segments@).take(segments.len() as int) =~= segments_view(segments@));
    Ok(parser.finish())
}

/// The containers closed so far, and one more if a container is open.
pub open spec fn baplie_opened(st: BaplieState) -> nat {
    st.containers.len() + if st.current_container_id is Some {
        1nat
    } else {
        0nat
    }
}

/// One segment opens one more container exactly if it is an `EQD` with a
/// container id.
pub proof fn lemma_baplie_step_opens(st: BaplieState, seg: Seq<Seq<char>>)
    ensures
        baplie_opened(baplie_step(st, seg)) == baplie_opened(st) + if opens_container(seg) {
            1nat
        } else {
            0nat
        },
{
    lemma_tags_differ();
}

/// After any run of segments from the start, the containers closed or open
/// are as many as the `EQD` segments with a container id.
pub proof fn lemma_baplie_run_opens(segs: Seq<Seq<Seq<char>>>)
    ensures
        baplie_opened(baplie_run(baplie_initial(), segs)) == count_opening(segs),
    decreases segs.len(),
{
    if segs.len() > 0 {
        lemma_baplie_run_opens(segs.drop_last());
        lemma_baplie_step_opens(baplie_run(baplie_initial(), segs.drop_last()), segs.last());
    }
}

/// A BAPLIE message yields exactly one container for each `EQD` segment
/// whose field 2 is not empty.
pub proof fn lemma_baplie_container_count(content: Seq<char>)
    ensures
        parse_baplie_spec(content).containers.len() == count_opening(tokenize_spec(content)),
{
    lemma_baplie_run_opens(tokenize_spec(content));
}

/// Whether a segment leaves the stowage cell and the id of the open
/// container as they are: it is neither an `EQD` nor a `LOC` that gives a
/// stowage cell.
pub open spec fn keeps_cell(seg: Seq<Seq<char>>) -> bool {
    !(seg.len() > 0 && seg[0] == "EQD"@) && !is_stowage_loc(seg)
}

/// A run of segments that keep the cell leaves bay, row, tier, the
/// container id and the closed containers as they were.
pub proof fn lemma_baplie_cell_kept(st: BaplieState, segs: Seq<Seq<Seq<char>>>)
    requires
        forall|i: int| 0 <= i < segs.len() ==> keeps_cell(#[trigger] segs[i]),
    ensures
        baplie_run(st, segs).current_bay == st.current_bay,
        baplie_run(st, segs).current_row == st.current_row,
        baplie_run(st, segs).current_tier == st.current_tier,
        baplie_run(st, segs).current_container_id == st.current_container_id,
        baplie_run(st, segs).containers == st.containers,
    decreases segs.len(),
{
    if segs.len() > 0 {
        lemma_baplie_cell_kept(st, segs.drop_last());
        lemma_tags_differ();
        assert(keeps_cell(segs.last()));
    }
}

/// The last stowage cell given for a container is the one it is stored
/// with: whatever was set before, after a `LOC` with qualifier `147` and
/// three sub-components, and any segments that give no further cell, the
/// next `EQD` closes the open container with the bay, row and tier of that
/// `LOC`.
pub proof fn lemma_baplie_last_stowage_wins(
    st: BaplieState,
    cell: Seq<Seq<char>>,
    rest: Seq<Seq<Seq<char>>>,
    close: Seq<Seq<char>>,
)
    requires
        st.current_container_id is Some,
        is_stowage_loc(cell),
        forall|i: int| 0 <= i < rest.len() ==> keeps_cell(#[trigger] rest[i]),
        close.len() > 0,
        close[0] == "EQD"@,
    ensures
        ({
            let end = baplie_step(baplie_run(baplie_step(st, cell), rest), close);
            &&& end.containers.len() == st.containers.len() + 1
            &&& end.containers.drop_last() == st.containers
            &&& end.containers.last().container_id == st.current_container_id->0
            &&& end.containers.last().bay == Some(components(cell[2])[0])
            &&& end.containers.last().row == Some(components(cell[2])[1])
            &&& end.containers.last().tier == Some(components(cell[2])[2])
        }),
{
    lemma_tags_differ();
    reveal_strlit("147");
    reveal_strlit("5");
    reveal_strlit("61");
    reveal_strlit("7");
    assert("147"@.len() == 3 && "5"@.len() == 1 && "61"@.len() == 2 && "7"@.len() == 1);
    let set = baplie_step(st, cell);
    assert(set.current_bay == Some(components(cell[2])[0]));
    lemma_baplie_cell_kept(set, rest);
    let open = baplie_run(set, rest);
    let end = baplie_step(open, close);
    assert(end.containers == baplie_flush(open).containers);
    assert(end.containers.drop_last() =~= st.containers);
}

/// Whether a weight is absent or writes a non-negative decimal number.
pub open spec fn weight_ok(weight: Option<Seq<char>>) -> bool {
    match weight {
        Some(text) => is_non_negative_decimal(text),
        None => true,
    }
}

/// Whether every weight of a state, that of the open slot and those of the
/// closed containers, is absent or a non-negative decimal number.
pub open spec fn weights_ok(st: BaplieState) -> bool {
    &&& weight_ok(st.current_weight)
    &&& forall|i: int|
        0 <= i < st.containers.len() ==> weight_ok(#[trigger] st.containers[i].weight)
}

/// No segment brings a weight into the state that is not a non-negative
/// decimal number.
pub proof fn lemma_baplie_step_weights(st: BaplieState, seg: Seq<Seq<char>>)
    requires
        weights_ok(st),
    ensures
        weights_ok(baplie_step(st, seg)),
        weights_ok(baplie_flush(st)),
{
    let flushed = baplie_flush(st);
    assert forall|i: int| 0 <= i < flushed.containers.len() implies weight_ok(
        #[trigger] flushed.containers[i].weight,
    ) by {
        if i < st.containers.len() {
            assert(flushed.containers[i] == st.containers[i]);
        }
    }
}

/// After any run of segments from the start, every weight is absent or a
/// non-negative decimal number.
pub proof fn lemma_baplie_run_weights(segs: Seq<Seq<Seq<char>>>)
    ensures
        weights_ok(baplie_run(baplie_initial(), segs)),
    decreases segs.len(),
{
    if segs.len() > 0 {
        lemma_baplie_run_weights(segs.drop_last());
        lemma_baplie_step_weights(baplie_run(baplie_initial(), segs.drop_last()), segs.last());
    }
}

/// Every container of a BAPLIE message has no weight or a weight that
/// writes a non-negative decimal number: an optional plus sign and digits
/// with at most one decimal point. No weight is negative, and none is a
/// word such as `inf` or `nan`.
pub proof fn lemma_baplie_weights_non_negative(content: Seq<char>)
    ensures
        forall|i: int|
            0 <= i < parse_baplie_spec(content).containers.len() ==> weight_ok(
                #[trigger] parse_baplie_spec(content).containers[i].weight,
            ),
{
    let end = baplie_run(baplie_initial(), tokenize_spec(content));
    lemma_baplie_run_weights(tokenize_spec(content));
    lemma_baplie_step_weights(end, Seq::empty());
}

} // verus!
