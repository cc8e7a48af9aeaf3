//! Splits raw message text into segments of composite fields.

use crate::text::{chars_of, lines_of, lines_seq, lemma_split_nonempty, split_chars, split_seq, texts};
use vstd::prelude::*;

verus! {

/// One segment of a message: its composite fields, the tag first.
#[derive(Debug, Clone)]
pub struct Segment {
    pub fields: Vec<Vec<char>>,
}

impl View for Segment {
    type V = Seq<Seq<char>>;

    open spec fn view(&self) -> Seq<Seq<char>> {
        texts(self.fields@)
    }
}

/// The fields of the segment written on `line`.
pub open spec fn fields_of(line: Seq<char>) -> Seq<Seq<char>> {
    split_seq(line, '+')
}

/// The sub-components of a composite field.
pub open spec fn components(field: Seq<char>) -> Seq<Seq<char>> {
    split_seq(field, ':')
}

/// The segments written on `lines`: one per non-empty line, in order.
pub open spec fn segments_of(lines: Seq<Seq<char>>) -> Seq<Seq<Seq<char>>>
    decreases lines.len(),
{
    if lines.len() == 0 {
        Seq::empty()
    } else {
        let before = segments_of(lines.drop_last());
        if lines.last().len() == 0 {
            before
        } else {
            before.push(fields_of(lines.last()))
        }
    }
}

/// The segments of a whole message text.
pub open spec fn tokenize_spec(content: Seq<char>) -> Seq<Seq<Seq<char>>> {
    segments_of(lines_seq(content))
}

/// The field lists held by a list of segments.
pub open spec fn segments_view(segments: Seq<Segment>) -> Seq<Seq<Seq<char>>> {
    segments.map_values(|segment: Segment| segment@)
}

/// Every segment that the tokenizer yields has at least its tag field.
pub proof fn lemma_segments_have_tag(lines: Seq<Seq<char>>, i: int)
    requires
        0 <= i < segments_of(lines).len(),
    ensures
        segments_of(lines)[i].len() >= 1,
    decreases lines.len(),
{
    if lines.len() > 0 {
        let before = segments_of(lines.drop_last());
        if i < before.len() {
            lemma_segments_have_tag(lines.drop_last(), i);
        } else {
            lemma_split_nonempty(lines.last(), '+');
        }
    }
}

/// Splits a composite field into its sub-components.
pub fn split_components(field: &Vec<char>) -> (parts: Vec<Vec<char>>)
    ensures
        texts(parts@) == components(field@),
        parts.len() >= 1,
{
    proof {
        lemma_split_nonempty(field@, ':');
    }
    split_chars(field, ':')
}

/// The first sub-component of a composite field.
pub fn first_component(field: &Vec<char>) -> (first: Vec<char>)
    ensures
        first@ == components(field@)[0],
{
    let mut parts = split_components(field);
    parts.swap_remove(0)
}

/// The last sub-component of a composite field.
pub fn last_component(field: &Vec<char>) -> (last: Vec<char>)
    ensures
        last@ == components(field@).last(),
{
    let mut parts = split_components(field);
    parts.pop().unwrap()
}

/// Splits a message text into its segments. Empty lines yield no segment;
/// nothing else is dropped or checked.
pub fn tokenize(content: &str) -> (segments: Vec<Segment>)
    ensures
        segments_view(segments@) == tokenize_spec(content@),
{
    let chars = chars_of(content);
    let lines = lines_of(&chars);
    let mut segments: Vec<Segment> = Vec::new();
    let mut i: usize = 0;
    while i < lines.len()
        invariant
            i <= lines.len(),
            segments_view(segments@) == segments_of(texts(lines@).take(i as int)),
        decreases lines.len() - i,
    {
        let line = &lines[i];
        proof {
            assert(texts(lines@).take(i + 1).drop_last() =~= texts(lines@).take(i as int));
            assert(texts(lines@).take(i + 1).last() == line@);
        }
        if line.len() > 0 {
            let ghost before = segments_view(segments@);
            let segment = Segment { fields: split_chars(line, '+') };
            segments.push(segment);
            assert(segments_view(segments@) =~= before.push(fields_of(line@)));
        }
        i += 1;
    }
    assert(texts(lines@).take(lines.len() as int) =~= texts(lines@));
    segments
}

/// Whether a segment opens a container: an `EQD` with a container id in
/// field 2.
pub open spec fn opens_container(seg: Seq<Seq<char>>) -> bool {
    seg.len() > 2 && seg[0] == "EQD"@ && seg[2].len() > 0
}

/// How many of the segments open a container.
pub open spec fn count_opening(segs: Seq<Seq<Seq<char>>>) -> nat
    decreases segs.len(),
{
    if segs.len() == 0 {
        0
    } else {
        count_opening(segs.drop_last()) + if opens_container(segs.last()) {
            1nat
        } else {
            0nat
        }
    }
}

/// The segment tags that the parsers read are six different texts.
pub proof fn lemma_tags_differ()
    ensures
        "EQD"@ != "TDT"@,
        "EQD"@ != "LOC"@,
        "EQD"@ != "MEA"@,
        "EQD"@ != "RFF"@,
        "EQD"@ != "FTX"@,
        "EQD"@ != "HAN"@,
        "LOC"@ != "TDT"@,
{
    reveal_strlit("EQD");
    reveal_strlit("TDT");
    reveal_strlit("LOC");
    reveal_strlit("MEA");
    reveal_strlit("RFF");
    reveal_strlit("FTX");
    reveal_strlit("HAN");
    assert("EQD"@[0] == 'E');
    assert("TDT"@[0] == 'T');
    assert("LOC"@[0] == 'L');
    assert("MEA"@[0] == 'M');
    assert("RFF"@[0] == 'R');
    assert("FTX"@[0] == 'F');
    assert("HAN"@[0] == 'H');
}

} // verus!
