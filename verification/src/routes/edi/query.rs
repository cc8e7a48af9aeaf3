//! Reading stored messages back, each with what was parsed from it.

use crate::models::edi::{
    BaplieContainer, BaplieContainerRow, BaplieMessageText, BaplieMessageWithContainers,
    BaplieProjection, CoarriMessageText, CoarriMessageWithMovements, CoarriMovement,
    CoarriMovementRow, CoarriProjection, CodecoMessageText, CodecoMessageWithMovements,
    CodecoMovement, CodecoMovementRow, CodecoProjection, EdiMessage, EdiMessageResponse,
    EdiMessageText, EdiResponseText,
};
use crate::services::edi::ingestion::{kind_of, message_kind, MessageKind};
use crate::store::{MemoryStore, TablesText};
use crate::text::clone_text;
use crate::validation::same_text;
use vstd::prelude::*;

verus! {

/// The first of the rows from index `from` on that is wanted, if there is one.
pub open spec fn first_match<T>(rows: Seq<T>, wanted: spec_fn(T) -> bool, from: int) -> Option<T>
    decreases rows.len() - from,
{
    if from < 0 || from >= rows.len() {
        None
    } else if wanted(rows[from]) {
        Some(rows[from])
    } else {
        first_match(rows, wanted, from + 1)
    }
}

/// The rows that are wanted, in the order they are stored in.
pub open spec fn matching<T>(rows: Seq<T>, wanted: spec_fn(T) -> bool) -> Seq<T>
    decreases rows.len(),
{
    if rows.len() == 0 {
        Seq::empty()
    } else {
        let before = matching(rows.drop_last(), wanted);
        if wanted(rows.last()) {
            before.push(rows.last())
        } else {
            before
        }
    }
}

/// Messages sent for the container `scope`.
pub open spec fn in_scope(scope: Seq<char>) -> spec_fn(EdiMessageText) -> bool {
    |m: EdiMessageText| m.container_id == Some(scope)
}

/// BAPLIE headers of the message `edi_message_id`.
pub open spec fn baplie_of(edi_message_id: i64) -> spec_fn(BaplieMessageText) -> bool {
    |r: BaplieMessageText| r.edi_message_id == edi_message_id
}

/// Containers of the BAPLIE header `parent`.
pub open spec fn containers_of(parent: i64) -> spec_fn(BaplieContainerRow) -> bool {
    |r: BaplieContainerRow| r.baplie_message_id == parent
}

/// COARRI headers of the message `edi_message_id`.
pub open spec fn coarri_of(edi_message_id: i64) -> spec_fn(CoarriMessageText) -> bool {
    |r: CoarriMessageText| r.edi_message_id == edi_message_id
}

/// Movements of the COARRI header `parent`.
pub open spec fn coarri_movements_of(parent: i64) -> spec_fn(CoarriMovementRow) -> bool {
    |r: CoarriMovementRow| r.coarri_message_id == parent
}

/// CODECO headers of the message `edi_message_id`.
pub open spec fn codeco_of(edi_message_id: i64) -> spec_fn(CodecoMessageText) -> bool {
    |r: CodecoMessageText| r.edi_message_id == edi_message_id
}

/// Movements of the CODECO header `parent`.
pub open spec fn codeco_movements_of(parent: i64) -> spec_fn(CodecoMovementRow) -> bool {
    |r: CodecoMovementRow| r.codeco_message_id == parent
}

/// What the store holds of a BAPLIE message: its first header with the
/// containers of that header, in the order they were stored in.
pub open spec fn baplie_projection(tables: TablesText, edi_message_id: i64) -> Option<
    BaplieProjection,
> {
    match first_match(tables.baplie_messages, baplie_of(edi_message_id), 0) {
        Some(header) => Some(
            BaplieProjection {
                header,
                containers: matching(tables.baplie_containers, containers_of(header.id)),
            },
        ),
        None => None,
    }
}

/// What the store holds of a COARRI message: its first header with the
/// movements of that header, in the order they were stored in.
pub open spec fn coarri_projection(tables: TablesText, edi_message_id: i64) -> Option<
    CoarriProjection,
> {
    match first_match(tables.coarri_messages, coarri_of(edi_message_id), 0) {
        Some(header) => Some(
            CoarriProjection {
                header,
                movements: matching(tables.coarri_movements, coarri_movements_of(header.id)),
            },
        ),
        None => None,
    }
}

/// What the store holds of a CODECO message: its first header with the
/// movements of that header, in the order they were stored in.
pub open spec fn codeco_projection(tables: TablesText, edi_message_id: i64) -> Option<
    CodecoProjection,
> {
    match first_match(tables.codeco_messages, codeco_of(edi_message_id), 0) {
        Some(header) => Some(
            CodecoProjection {
                header,
                movements: matching(tables.codeco_movements, codeco_movements_of(header.id)),
            },
        ),
        None => None,
    }
}

/// A stored message with what the store holds of its own type: one typed
/// part at most, and none where the type is unknown or the header missing.
pub open spec fn response_of(tables: TablesText, message: EdiMessageText) -> EdiResponseText {
    let kind = kind_of(message.message_type);
    EdiResponseText {
        message,
        baplie_message: if kind == Some(MessageKind::Baplie) {
            baplie_projection(tables, message.id)
        } else {
            None
        },
        coarri_message: if kind == Some(MessageKind::Coarri) {
            coarri_projection(tables, message.id)
        } else {
            None
        },
        codeco_message: if kind == Some(MessageKind::Codeco) {
            codeco_projection(tables, message.id)
        } else {
            None
        },
    }
}

/// The stored messages of a container, each with what was parsed from it.
pub open spec fn responses_in(tables: TablesText, scope: Seq<char>) -> Seq<EdiResponseText> {
    matching(tables.edi_messages, in_scope(scope)).map_values(
        |m: EdiMessageText| response_of(tables, m),
    )
}

/// The containers stored under the BAPLIE header `parent`.
pub fn fetch_baplie_containers(store: &MemoryStore, parent: i64) -> (found: Vec<BaplieContainer>)
    ensures
        found@.map_values(|r: BaplieContainer| r@) == matching(
            store.tables@.baplie_containers,
            containers_of(parent),
        ),
{
    let rows = &store.tables.baplie_containers;
    let ghost all = store.tables@.baplie_containers;
    let mut found: Vec<BaplieContainer> = Vec::new();
    let mut i: usize = 0;
    while i < rows.len()
        invariant
            i <= rows.len(),
            all == store.tables@.baplie_containers,
            rows == store.tables.baplie_containers,
            found@.map_values(|r: BaplieContainer| r@) == matching(
                all.take(i as int),
                containers_of(parent),
            ),
        decreases rows.len() - i,
    {
        assert(all.take(i + 1).drop_last() =~= all.take(i as int));
        if rows[i].baplie_message_id == parent {
            let ghost before = found@.map_values(|r: BaplieContainer| r@);
            let row = rows[i].copy();
            found.push(row);
            assert(found@.map_values(|r: BaplieContainer| r@) =~= before.push(row@));
        }
        i += 1;
    }
    assert(all.take(rows.len() as int) =~= all);
    found
}

/// The movements stored under the COARRI header `parent`.
pub fn fetch_coarri_movements(store: &MemoryStore, parent: i64) -> (found: Vec<CoarriMovement>)
    ensures
        found@.map_values(|r: CoarriMovement| r@) == matching(
            store.tables@.coarri_movements,
            coarri_movements_of(parent),
        ),
{
    let rows = &store.tables.coarri_movements;
    let ghost all = store.tables@.coarri_movements;
    let mut found: Vec<CoarriMovement> = Vec::new();
    let mut i: usize = 0;
    while i < rows.len()
        invariant
            i <= rows.len(),
            all == store.tables@.coarri_movements,
            rows == store.tables.coarri_movements,
            found@.map_values(|r: CoarriMovement| r@) == matching(
                all.take(i as int),
                coarri_movements_of(parent),
            ),
        decreases rows.len() - i,
    {
        assert(all.take(i + 1).drop_last() =~= all.take(i as int));
        if rows[i].coarri_message_id == parent {
            let ghost before = found@.map_values(|r: CoarriMovement| r@);
            let row = rows[i].copy();
            found.push(row);
            assert(found@.map_values(|r: CoarriMovement| r@) =~= before.push(row@));
        }
        i += 1;
    }
    assert(all.take(rows.len() as int) =~= all);
    found
}

/// The movements stored under the CODECO header `parent`.
pub fn fetch_codeco_movements(store: &MemoryStore, parent: i64) -> (found: Vec<CodecoMovement>)
    ensures
        found@.map_values(|r: CodecoMovement| r@) == matching(
            store.tables@.codeco_movements,
            codeco_movements_of(parent),
        ),
{
    let rows = &store.tables.codeco_movements;
    let ghost all = store.tables@.codeco_movements;
    let mut found: Vec<CodecoMovement> = Vec::new();
    let mut i: usize = 0;
    while i < rows.len()
        invariant
            i <= rows.len(),
            all == store.tables@.codeco_movements,
            rows == store.tables.codeco_movements,
            found@.map_values(|r: CodecoMovement| r@) == matching(
                all.take(i as int),
                codeco_movements_of(parent),
            ),
        decreases rows.len() - i,
    {
        assert(all.take(i + 1).drop_last() =~= all.take(i as int));
        if rows[i].codeco_message_id == parent {
            let ghost before = found@.map_values(|r: CodecoMovement| r@);
            let row = rows[i].copy();
            found.push(row);
            assert(found@.map_values(|r: CodecoMovement| r@) =~= before.push(row@));
        }
        i += 1;
    }
    assert(all.take(rows.len() as int) =~= all);
    found
}

/// The view of an optional BAPLIE part.
pub open spec fn baplie_part(part: Option<BaplieMessageWithContainers>) -> Option<
    BaplieProjection,
> {
    match part {
        Some(p) => Some(p@),
        None => None,
    }
}

/// The view of an optional COARRI part.
pub open spec fn coarri_part(part: Option<CoarriMessageWithMovements>) -> Option<
    CoarriProjection,
> {
    match part {
        Some(p) => Some(p@),
        None => None,
    }
}

/// The view of an optional CODECO part.
pub open spec fn codeco_part(part: Option<CodecoMessageWithMovements>) -> Option<
    CodecoProjection,
> {
    match part {
        Some(p) => Some(p@),
        None => None,
    }
}

/// Reads what the store holds of a BAPLIE message.
pub fn fetch_baplie_with_containers(store: &MemoryStore, edi_message_id: i64) -> (found: Option<
    BaplieMessageWithContainers,
>)
    ensures
        baplie_part(found) == baplie_projection(store.tables@, edi_message_id),
{
    let rows = &store.tables.baplie_messages;
    let ghost all = store.tables@.baplie_messages;
    let mut i: usize = 0;
    while i < rows.len()
        invariant
            i <= rows.len(),
            all == store.tables@.baplie_messages,
            rows == store.tables.baplie_messages,
            first_match(all, baplie_of(edi_message_id), 0) == first_match(
                all,
                baplie_of(edi_message_id),
                i as int,
            ),
        decreases rows.len() - i,
    {
        let msg = &rows[i];
        if msg.edi_message_id == edi_message_id {
            let containers = fetch_baplie_containers(store, msg.id);
            proof {
                assert(all[i as int] == msg@);
                assert(first_match(all, baplie_of(edi_message_id), i as int) == Some(msg@));
            }
            let ghost rows_found = containers@.map_values(|r: BaplieContainer| r@);
            let part = BaplieMessageWithContainers {
                id: msg.id,
                edi_message_id: msg.edi_message_id,
                vessel_name: clone_text(&msg.vessel_name),
                voyage_number: clone_text(&msg.voyage_number),
                port_of_loading: clone_text(&msg.port_of_loading),
                port_of_discharge: clone_text(&msg.port_of_discharge),
                containers,
            };
            assert(part@.containers =~= rows_found);
            assert(part@.header == msg@);
            assert(part@.containers == matching(
                store.tables@.baplie_containers,
                containers_of(msg.id),
            ));
            assert(first_match(store.tables@.baplie_messages, baplie_of(edi_message_id), 0)
                == Some(msg@));
            return Some(part);
        }
        i += 1;
    }
    None
}

/// Reads what the store holds of a COARRI message.
pub fn fetch_coarri_with_movements(store: &MemoryStore, edi_message_id: i64) -> (found: Option<
    CoarriMessageWithMovements,
>)
    ensures
        coarri_part(found) == coarri_projection(store.tables@, edi_message_id),
{
    let rows = &store.tables.coarri_messages;
    let ghost all = store.tables@.coarri_messages;
    let mut i: usize = 0;
    while i < rows.len()
        invariant
            i <= rows.len(),
            all == store.tables@.coarri_messages,
            rows == store.tables.coarri_messages,
            first_match(all, coarri_of(edi_message_id), 0) == first_match(
                all,
                coarri_of(edi_message_id),
                i as int,
            ),
        decreases rows.len() - i,
    {
        let msg = &rows[i];
        if msg.edi_message_id == edi_message_id {
            let movements = fetch_coarri_movements(store, msg.id);
            proof {
                assert(all[i as int] == msg@);
                assert(first_match(all, coarri_of(edi_message_id), i as int) == Some(msg@));
            }
            let ghost rows_found = movements@.map_values(|r: CoarriMovement| r@);
            let part = CoarriMessageWithMovements {
                id: msg.id,
                edi_message_id: msg.edi_message_id,
                vessel_name: clone_text(&msg.vessel_name),
                voyage_number: clone_text(&msg.voyage_number),
                movements,
            };
            assert(part@.movements =~= rows_found);
            assert(part@.header == msg@);
            assert(part@.movements == matching(
                store.tables@.coarri_movements,
                coarri_movements_of(msg.id),
            ));
            assert(first_match(store.tables@.coarri_messages, coarri_of(edi_message_id), 0)
                == Some(msg@));
            return Some(part);
        }
        i += 1;
    }
    None
}

/// Reads what the store holds of a CODECO message.
pub fn fetch_codeco_with_movements(store: &MemoryStore, edi_message_id: i64) -> (found: Option<
    CodecoMessageWithMovements,
>)
    ensures
        codeco_part(found) == codeco_projection(store.tables@, edi_message_id),
{
    let rows = &store.tables.codeco_messages;
    let ghost all = store.tables@.codeco_messages;
    let mut i: usize = 0;
    while i < rows.len()
        invariant
            i <= rows.len(),
            all == store.tables@.codeco_messages,
            rows == store.tables.codeco_messages,
            first_match(all, codeco_of(edi_message_id), 0) == first_match(
                all,
                codeco_of(edi_message_id),
                i as int,
            ),
        decreases rows.len() - i,
    {
        let msg = &rows[i];
        if msg.edi_message_id == edi_message_id {
            let movements = fetch_codeco_movements(store, msg.id);
            proof {
                assert(all[i as int] == msg@);
                assert(first_match(all, codeco_of(edi_message_id), i as int) == Some(msg@));
            }
            let ghost rows_found = movements@.map_values(|r: CodecoMovement| r@);
            let part = CodecoMessageWithMovements {
                id: msg.id,
                edi_message_id: msg.edi_message_id,
                gate: clone_text(&msg.gate),
                movements,
            };
            assert(part@.movements =~= rows_found);
            assert(part@.header == msg@);
            assert(part@.movements == matching(
                store.tables@.codeco_movements,
                codeco_movements_of(msg.id),
            ));
            assert(first_match(store.tables@.codeco_messages, codeco_of(edi_message_id), 0)
                == Some(msg@));
            return Some(part);
        }
        i += 1;
    }
    None
}

/// A stored message with what the store holds of its own type.
pub fn assemble(store: &MemoryStore, message: &EdiMessage) -> (response: EdiMessageResponse)
    ensures
        response@ == response_of(store.tables@, message@),
{
    let kind = message_kind(message.message_type.as_str());
    let baplie_message = match kind {
        Some(MessageKind::Baplie) => fetch_baplie_with_containers(store, message.id),
        _ => None,
    };
    let coarri_message = match kind {
        Some(MessageKind::Coarri) => fetch_coarri_with_movements(store, message.id),
        _ => None,
    };
    let codeco_message = match kind {
        Some(MessageKind::Codeco) => fetch_codeco_with_movements(store, message.id),
        _ => None,
    };
    EdiMessageResponse {
        id: message.id,
        message_type: message.message_type.clone(),
        content: message.content.clone(),
        container_id: clone_text(&message.container_id),
        created_at: message.created_at.clone(),
        baplie_message,
        coarri_message,
        codeco_message,
    }
}

/// Whether a message was sent for the container `scope`.
pub fn sent_for(message: &EdiMessage, scope: &str) -> (r: bool)
    ensures
        r == in_scope(scope@)(message@),
{
    match &message.container_id {
        Some(id) => same_text(id.as_str(), scope),
        None => false,
    }
}

/// The responses held by a list of responses.
pub open spec fn responses_view(list: Seq<EdiMessageResponse>) -> Seq<EdiResponseText> {
    list.map_values(|r: EdiMessageResponse| r@)
}

/// Lists the stored messages of a container, each with what was parsed
/// from it, in the order they were stored in.
pub fn get_edi_messages(store: &MemoryStore, container_id: &str) -> (responses: Vec<
    EdiMessageResponse,
>)
    ensures
        responses_view(responses@) == responses_in(store.tables@, container_id@),
{
    let rows = &store.tables.edi_messages;
    let ghost all = store.tables@.edi_messages;
    let ghost tables = store.tables@;
    let mut responses: Vec<EdiMessageResponse> = Vec::new();
    let mut i: usize = 0;
    while i < rows.len()
        invariant
            i <= rows.len(),
            tables == store.tables@,
            all == store.tables@.edi_messages,
            rows == store.tables.edi_messages,
            responses_view(responses@) == matching(
                all.take(i as int),
                in_scope(container_id@),
            ).map_values(|m: EdiMessageText| response_of(tables, m)),
        decreases rows.len() - i,
    {
        assert(all.take(i + 1).drop_last() =~= all.take(i as int));
        if sent_for(&rows[i], container_id) {
            let ghost before = responses_view(responses@);
            let response = assemble(store, &rows[i]);
            responses.push(response);
            assert(responses_view(responses@) =~= before.push(response@));
            assert(matching(all.take(i + 1), in_scope(container_id@)).map_values(
                |m: EdiMessageText| response_of(tables, m),
            ) =~= before.push(response_of(tables, rows[i as int]@)));
        }
        i += 1;
    }
    assert(all.take(rows.len() as int) =~= all);
    responses
}

/// Where none of the first rows is wanted, the first wanted row is found
/// among the rows that follow them.
pub proof fn lemma_first_match_skips<T>(
    first: Seq<T>,
    second: Seq<T>,
    wanted: spec_fn(T) -> bool,
    from: int,
)
    requires
        0 <= from <= first.len(),
        forall|i: int| 0 <= i < first.len() ==> !wanted(#[trigger] first[i]),
    ensures
        first_match(first + second, wanted, from) == first_match(second, wanted, 0),
    decreases first.len() - from,
{
    let all = first + second;
    if from < first.len() {
        assert(all[from] == first[from]);
        lemma_first_match_skips(first, second, wanted, from + 1);
    } else {
        lemma_first_match_shifted(first, second, wanted, 0);
    }
}

/// The first wanted row of a list is found at the same place when other
/// rows are put before the list.
pub proof fn lemma_first_match_shifted<T>(
    first: Seq<T>,
    second: Seq<T>,
    wanted: spec_fn(T) -> bool,
    from: int,
)
    requires
        0 <= from <= second.len(),
    ensures
        first_match(first + second, wanted, first.len() + from) == first_match(
            second,
            wanted,
            from,
        ),
    decreases second.len() - from,
{
    let all = first + second;
    if from < second.len() {
        assert(all[first.len() + from] == second[from]);
        lemma_first_match_shifted(first, second, wanted, from + 1);
    }
}

/// Where no row is wanted, none is selected.
pub proof fn lemma_matching_none<T>(rows: Seq<T>, wanted: spec_fn(T) -> bool)
    requires
        forall|i: int| 0 <= i < rows.len() ==> !wanted(#[trigger] rows[i]),
    ensures
        matching(rows, wanted) == Seq::<T>::empty(),
    decreases rows.len(),
{
    if rows.len() > 0 {
        lemma_matching_none(rows.drop_last(), wanted);
    }
}

/// Where every row is wanted, all are selected, in their order.
pub proof fn lemma_matching_all<T>(rows: Seq<T>, wanted: spec_fn(T) -> bool)
    requires
        forall|i: int| 0 <= i < rows.len() ==> wanted(#[trigger] rows[i]),
    ensures
        matching(rows, wanted) == rows,
    decreases rows.len(),
{
    if rows.len() > 0 {
        lemma_matching_all(rows.drop_last(), wanted);
        assert(rows.drop_last().push(rows.last()) =~= rows);
    } else {
        assert(rows =~= Seq::<T>::empty());
    }
}

/// Selecting from two lists joined selects from each, in order.
pub proof fn lemma_matching_joined<T>(first: Seq<T>, second: Seq<T>, wanted: spec_fn(T) -> bool)
    ensures
        matching(first + second, wanted) == matching(first, wanted) + matching(second, wanted),
    decreases second.len(),
{
    if second.len() == 0 {
        assert(first + second =~= first);
        assert(matching(first, wanted) + matching(second, wanted) =~= matching(first, wanted));
    } else {
        assert((first + second).drop_last() =~= first + second.drop_last());
        assert((first + second).last() == second.last());
        lemma_matching_joined(first, second.drop_last(), wanted);
        assert(matching(first, wanted) + matching(second.drop_last(), wanted).push(
            second.last(),
        ) =~= (matching(first, wanted) + matching(second.drop_last(), wanted)).push(
            second.last(),
        ));
    }
}

/// Rows put after a list do not change which row is the first wanted one,
/// if the list holds a wanted row.
pub proof fn lemma_first_match_kept<T>(
    first: Seq<T>,
    second: Seq<T>,
    wanted: spec_fn(T) -> bool,
    from: int,
)
    requires
        0 <= from,
        first_match(first, wanted, from) is Some,
    ensures
        first_match(first + second, wanted, from) == first_match(first, wanted, from),
    decreases first.len() - from,
{
    if from < first.len() {
        assert((first + second)[from] == first[from]);
        if !wanted(first[from]) {
            lemma_first_match_kept(first, second, wanted, from + 1);
        }
    }
}

/// The first wanted row, where there is one, is a row of the list.
pub proof fn lemma_first_match_is_row<T>(rows: Seq<T>, wanted: spec_fn(T) -> bool, from: int)
    requires
        0 <= from,
        first_match(rows, wanted, from) is Some,
    ensures
        exists|i: int| from <= i < rows.len() && rows[i] == first_match(rows, wanted, from)->0,
    decreases rows.len() - from,
{
    if from < rows.len() {
        if wanted(rows[from]) {
            assert(rows[from] == first_match(rows, wanted, from)->0);
        } else {
            lemma_first_match_is_row(rows, wanted, from + 1);
        }
    }
}

} // verus!
