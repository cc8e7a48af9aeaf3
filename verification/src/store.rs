//! The message store: one table per kind of row, filled by transactions
//! that are committed whole or not at all.

use crate::models::edi::{
    BaplieContainer, BaplieContainerRow, BaplieMessage, BaplieMessageText, CoarriMessage,
    CoarriMessageText, CoarriMovement, CoarriMovementRow, CodecoMessage, CodecoMessageText,
    CodecoMovement, CodecoMovementRow, EdiMessage, EdiMessageText, ParsedBaplieContainer,
    ParsedBaplieData, ParsedCoarriData, ParsedCoarriMovement, ParsedCodecoData,
    ParsedCodecoMovement,
};
use crate::text::clone_text;
use vstd::prelude::*;

verus! {

/// Why the store refused an operation.
#[derive(Debug, Clone, Copy, PartialEq, Eq, Structural)]
pub enum StorageError {
    /// The store was told to fail from this operation on.
    Fault,
    /// The row names an owner that does not exist.
    ForeignKey,
    /// The table has no id left to give.
    Exhausted,
    /// The store has changed since the transaction began.
    Conflict,
}

/// The greatest id a row can have.
pub const MAX_ID: u64 = 0x7fff_ffff_ffff_ffff;

/// The rows of the store, one list per table, each in the order of insertion.
pub struct Tables {
    pub edi_messages: Vec<EdiMessage>,
    pub baplie_messages: Vec<BaplieMessage>,
    pub baplie_containers: Vec<BaplieContainer>,
    pub coarri_messages: Vec<CoarriMessage>,
    pub coarri_movements: Vec<CoarriMovement>,
    pub codeco_messages: Vec<CodecoMessage>,
    pub codeco_movements: Vec<CodecoMovement>,
}

/// The text of a `Tables`.
pub struct TablesText {
    pub edi_messages: Seq<EdiMessageText>,
    pub baplie_messages: Seq<BaplieMessageText>,
    pub baplie_containers: Seq<BaplieContainerRow>,
    pub coarri_messages: Seq<CoarriMessageText>,
    pub coarri_movements: Seq<CoarriMovementRow>,
    pub codeco_messages: Seq<CodecoMessageText>,
    pub codeco_movements: Seq<CodecoMovementRow>,
}

impl View for Tables {
    type V = TablesText;

    open spec fn view(&self) -> TablesText {
        TablesText {
            edi_messages: self.edi_messages@.map_values(|r: EdiMessage| r@),
            baplie_messages: self.baplie_messages@.map_values(|r: BaplieMessage| r@),
            baplie_containers: self.baplie_containers@.map_values(|r: BaplieContainer| r@),
            coarri_messages: self.coarri_messages@.map_values(|r: CoarriMessage| r@),
            coarri_movements: self.coarri_movements@.map_values(|r: CoarriMovement| r@),
            codeco_messages: self.codeco_messages@.map_values(|r: CodecoMessage| r@),
            codeco_movements: self.codeco_movements@.map_values(|r: CodecoMovement| r@),
        }
    }
}

/// How many rows each table holds.
#[derive(Debug, Clone, Copy, PartialEq, Eq, Structural)]
pub struct RowCounts {
    pub edi_messages: usize,
    pub baplie_messages: usize,
    pub baplie_containers: usize,
    pub coarri_messages: usize,
    pub coarri_movements: usize,
    pub codeco_messages: usize,
    pub codeco_movements: usize,
}

/// Tables without rows.
pub open spec fn no_rows() -> TablesText {
    TablesText {
        edi_messages: Seq::empty(),
        baplie_messages: Seq::empty(),
        baplie_containers: Seq::empty(),
        coarri_messages: Seq::empty(),
        coarri_movements: Seq::empty(),
        codeco_messages: Seq::empty(),
        codeco_movements: Seq::empty(),
    }
}

/// The rows of `first` followed, table by table, by the rows of `second`.
pub open spec fn joined(first: TablesText, second: TablesText) -> TablesText {
    TablesText {
        edi_messages: first.edi_messages + second.edi_messages,
        baplie_messages: first.baplie_messages + second.baplie_messages,
        baplie_containers: first.baplie_containers + second.baplie_containers,
        coarri_messages: first.coarri_messages + second.coarri_messages,
        coarri_movements: first.coarri_movements + second.coarri_movements,
        codeco_messages: first.codeco_messages + second.codeco_messages,
        codeco_movements: first.codeco_movements + second.codeco_movements,
    }
}

/// Whether `counts` gives the number of rows in each table of `tables`.
pub open spec fn counted(tables: TablesText, counts: RowCounts) -> bool {
    &&& tables.edi_messages.len() == counts.edi_messages
    &&& tables.baplie_messages.len() == counts.baplie_messages
    &&& tables.baplie_containers.len() == counts.baplie_containers
    &&& tables.coarri_messages.len() == counts.coarri_messages
    &&& tables.coarri_movements.len() == counts.coarri_movements
    &&& tables.codeco_messages.len() == counts.codeco_messages
    &&& tables.codeco_movements.len() == counts.codeco_movements
}

/// Whether rows that follow `base` rows in each table are numbered on from
/// there and name owners that exist: the id of a row is its place in its
/// table, counted from 1, and the owner of a row is a row of the table it
/// belongs to.
pub open spec fn rows_follow(base: RowCounts, rows: TablesText) -> bool {
    &&& forall|i: int|
        0 <= i < rows.edi_messages.len() ==> (#[trigger] rows.edi_messages[i]).id
            == base.edi_messages + i + 1
    &&& forall|i: int|
        0 <= i < rows.baplie_messages.len() ==> {
            let r = #[trigger] rows.baplie_messages[i];
            r.id == base.baplie_messages + i + 1 && 1 <= r.edi_message_id <= base.edi_messages
                + rows.edi_messages.len()
        }
    &&& forall|i: int|
        0 <= i < rows.baplie_containers.len() ==> {
            let r = #[trigger] rows.baplie_containers[i];
            r.id == base.baplie_containers + i + 1 && 1 <= r.baplie_message_id
                <= base.baplie_messages + rows.baplie_messages.len()
        }
    &&& forall|i: int|
        0 <= i < rows.coarri_messages.len() ==> {
            let r = #[trigger] rows.coarri_messages[i];
            r.id == base.coarri_messages + i + 1 && 1 <= r.edi_message_id <= base.edi_messages
                + rows.edi_messages.len()
        }
    &&& forall|i: int|
        0 <= i < rows.coarri_movements.len() ==> {
            let r = #[trigger] rows.coarri_movements[i];
            r.id == base.coarri_movements + i + 1 && 1 <= r.coarri_message_id
                <= base.coarri_messages + rows.coarri_messages.len()
        }
    &&& forall|i: int|
        0 <= i < rows.codeco_messages.len() ==> {
            let r = #[trigger] rows.codeco_messages[i];
            r.id == base.codeco_messages + i + 1 && 1 <= r.edi_message_id <= base.edi_messages
                + rows.edi_messages.len()
        }
    &&& forall|i: int|
        0 <= i < rows.codeco_movements.len() ==> {
            let r = #[trigger] rows.codeco_movements[i];
            r.id == base.codeco_movements + i + 1 && 1 <= r.codeco_message_id
                <= base.codeco_messages + rows.codeco_messages.len()
        }
}

/// No rows at all.
pub open spec fn zero_counts() -> RowCounts {
    RowCounts {
        edi_messages: 0,
        baplie_messages: 0,
        baplie_containers: 0,
        coarri_messages: 0,
        coarri_movements: 0,
        codeco_messages: 0,
        codeco_movements: 0,
    }
}

/// Whether the rows of a whole store are numbered from 1 in each table and
/// name owners that exist.
pub open spec fn tables_wf(tables: TablesText) -> bool {
    rows_follow(zero_counts(), tables)
}

/// No table of a well-formed store holds more rows than there are ids.
pub proof fn lemma_wf_bounds(tables: TablesText)
    requires
        tables_wf(tables),
    ensures
        tables.edi_messages.len() <= MAX_ID,
        tables.baplie_messages.len() <= MAX_ID,
        tables.baplie_containers.len() <= MAX_ID,
        tables.coarri_messages.len() <= MAX_ID,
        tables.coarri_movements.len() <= MAX_ID,
        tables.codeco_messages.len() <= MAX_ID,
        tables.codeco_movements.len() <= MAX_ID,
{
    if tables.edi_messages.len() > 0 {
        let r = tables.edi_messages[tables.edi_messages.len() - 1];
    }
    if tables.baplie_messages.len() > 0 {
        let r = tables.baplie_messages[tables.baplie_messages.len() - 1];
    }
    if tables.baplie_containers.len() > 0 {
        let r = tables.baplie_containers[tables.baplie_containers.len() - 1];
    }
    if tables.coarri_messages.len() > 0 {
        let r = tables.coarri_messages[tables.coarri_messages.len() - 1];
    }
    if tables.coarri_movements.len() > 0 {
        let r = tables.coarri_movements[tables.coarri_movements.len() - 1];
    }
    if tables.codeco_messages.len() > 0 {
        let r = tables.codeco_messages[tables.codeco_messages.len() - 1];
    }
    if tables.codeco_movements.len() > 0 {
        let r = tables.codeco_movements[tables.codeco_movements.len() - 1];
    }
}

/// Rows that follow well-formed tables make well-formed tables with them.
pub proof fn lemma_joined_wf(tables: TablesText, base: RowCounts, rows: TablesText)
    requires
        tables_wf(tables),
        counted(tables, base),
        rows_follow(base, rows),
    ensures
        tables_wf(joined(tables, rows)),
{
    let all = joined(tables, rows);
    assert forall|i: int| 0 <= i < all.edi_messages.len() implies (
    #[trigger] all.edi_messages[i]).id == i + 1 by {
        if i >= tables.edi_messages.len() {
            assert(all.edi_messages[i] == rows.edi_messages[i - tables.edi_messages.len()]);
        }
    }
    assert forall|i: int| 0 <= i < all.baplie_messages.len() implies {
        let r = #[trigger] all.baplie_messages[i];
        r.id == i + 1 && 1 <= r.edi_message_id <= all.edi_messages.len()
    } by {
        if i >= tables.baplie_messages.len() {
            assert(all.baplie_messages[i] == rows.baplie_messages[i
                - tables.baplie_messages.len()]);
        }
    }
    assert forall|i: int| 0 <= i < all.baplie_containers.len() implies {
        let r = #[trigger] all.baplie_containers[i];
        r.id == i + 1 && 1 <= r.baplie_message_id <= all.baplie_messages.len()
    } by {
        if i >= tables.baplie_containers.len() {
            assert(all.baplie_containers[i] == rows.baplie_containers[i
                - tables.baplie_containers.len()]);
        }
    }
    assert forall|i: int| 0 <= i < all.coarri_messages.len() implies {
        let r = #[trigger] all.coarri_messages[i];
        r.id == i + 1 && 1 <= r.edi_message_id <= all.edi_messages.len()
    } by {
        if i >= tables.coarri_messages.len() {
            assert(all.coarri_messages[i] == rows.coarri_messages[i
                - tables.coarri_messages.len()]);
        }
    }
    assert forall|i: int| 0 <= i < all.coarri_movements.len() implies {
        let r = #[trigger] all.coarri_movements[i];
        r.id == i + 1 && 1 <= r.coarri_message_id <= all.coarri_messages.len()
    } by {
        if i >= tables.coarri_movements.len() {
            assert(all.coarri_movements[i] == rows.coarri_movements[i
                - tables.coarri_movements.len()]);
        }
    }
    assert forall|i: int| 0 <= i < all.codeco_messages.len() implies {
        let r = #[trigger] all.codeco_messages[i];
        r.id == i + 1 && 1 <= r.edi_message_id <= all.edi_messages.len()
    } by {
        if i >= tables.codeco_messages.len() {
            assert(all.codeco_messages[i] == rows.codeco_messages[i
                - tables.codeco_messages.len()]);
        }
    }
    assert forall|i: int| 0 <= i < all.codeco_movements.len() implies {
        let r = #[trigger] all.codeco_movements[i];
        r.id == i + 1 && 1 <= r.codeco_message_id <= all.codeco_messages.len()
    } by {
        if i >= tables.codeco_movements.len() {
            assert(all.codeco_movements[i] == rows.codeco_movements[i
                - tables.codeco_movements.len()]);
        }
    }
}

impl Tables {
    /// Tables without rows.
    pub fn new() -> (tables: Tables)
        ensures
            tables@ == no_rows(),
    {
        let tables = Tables {
            edi_messages: Vec::new(),
            baplie_messages: Vec::new(),
            baplie_containers: Vec::new(),
            coarri_messages: Vec::new(),
            coarri_movements: Vec::new(),
            codeco_messages: Vec::new(),
            codeco_movements: Vec::new(),
        };
        assert(tables@.edi_messages =~= Seq::empty());
        assert(tables@.baplie_messages =~= Seq::empty());
        assert(tables@.baplie_containers =~= Seq::empty());
        assert(tables@.coarri_messages =~= Seq::empty());
        assert(tables@.coarri_movements =~= Seq::empty());
        assert(tables@.codeco_messages =~= Seq::empty());
        assert(tables@.codeco_movements =~= Seq::empty());
        tables
    }

    /// How many rows each table holds.
    pub fn counts(&self) -> (counts: RowCounts)
        ensures
            counted(self@, counts),
    {
        RowCounts {
            edi_messages: self.edi_messages.len(),
            baplie_messages: self.baplie_messages.len(),
            baplie_containers: self.baplie_containers.len(),
            coarri_messages: self.coarri_messages.len(),
            coarri_movements: self.coarri_movements.len(),
            codeco_messages: self.codeco_messages.len(),
            codeco_movements: self.codeco_movements.len(),
        }
    }

    /// Moves every row of `rows` to the end of its table here.
    pub fn append(&mut self, rows: Tables)
        ensures
            final(self)@ == joined(old(self)@, rows@),
    {
        let ghost given = rows@;
        let mut rows = rows;
        self.edi_messages.append(&mut rows.edi_messages);
        self.baplie_messages.append(&mut rows.baplie_messages);
        self.baplie_containers.append(&mut rows.baplie_containers);
        self.coarri_messages.append(&mut rows.coarri_messages);
        self.coarri_movements.append(&mut rows.coarri_movements);
        self.codeco_messages.append(&mut rows.codeco_messages);
        self.codeco_movements.append(&mut rows.codeco_movements);
        assert(self@.edi_messages =~= joined(old(self)@, given).edi_messages);
        assert(self@.baplie_messages =~= joined(old(self)@, given).baplie_messages);
        assert(self@.baplie_containers =~= joined(old(self)@, given).baplie_containers);
        assert(self@.coarri_messages =~= joined(old(self)@, given).coarri_messages);
        assert(self@.coarri_movements =~= joined(old(self)@, given).coarri_movements);
        assert(self@.codeco_messages =~= joined(old(self)@, given).codeco_messages);
        assert(self@.codeco_movements =~= joined(old(self)@, given).codeco_movements);
    }
}

/// Why a write is refused, if it is: the store was told to fail, the row's
/// owner does not exist, or the table that already holds `rows` rows has no
/// id left.
pub open spec fn refusal(operations_left: Option<usize>, owned: bool, rows: int) -> Option<
    StorageError,
> {
    if operations_left == Some(0usize) {
        Some(StorageError::Fault)
    } else if !owned {
        Some(StorageError::ForeignKey)
    } else if rows >= MAX_ID {
        Some(StorageError::Exhausted)
    } else {
        None
    }
}

/// The operations that may still succeed after one more was asked for.
pub open spec fn after_operation(operations_left: Option<usize>) -> Option<usize> {
    match operations_left {
        Some(k) => if k > 0 {
            Some((k - 1) as usize)
        } else {
            Some(0usize)
        },
        None => None,
    }
}

/// The outcome of a write as its result: the refusal, or the id of the new
/// row, which is one more than the rows its table holds.
pub open spec fn write_result(operations_left: Option<usize>, owned: bool, rows: int) -> Result<
    i64,
    StorageError,
> {
    match refusal(operations_left, owned, rows) {
        Some(e) => Err(e),
        None => Ok((rows + 1) as i64),
    }
}

/// Counts one operation and decides whether a write may go ahead.
fn allow_write(operations_left: &mut Option<usize>, owned: bool, base: usize, staged: usize) -> (result:
    Result<i64, StorageError>)
    ensures
        *final(operations_left) == after_operation(*old(operations_left)),
        result == write_result(*old(operations_left), owned, base + staged),
{
    let before = *operations_left;
    match before {
        Some(k) => {
            if k == 0 {
                return Err(StorageError::Fault);
            }
            *operations_left = Some(k - 1);
        },
        None => {},
    }
    if !owned {
        return Err(StorageError::ForeignKey);
    }
    let rows: u128 = base as u128 + staged as u128;
    if rows >= MAX_ID as u128 {
        return Err(StorageError::Exhausted);
    }
    Ok((rows + 1) as i64)
}

/// Whether `id` is the id of one of the first `rows` rows of a table.
pub open spec fn is_row(id: i64, rows: int) -> bool {
    1 <= id <= rows
}

/// Whether `id` is the id of a row of a table that holds `base` rows and
/// `staged` more.
fn owned_by(id: i64, base: usize, staged: usize) -> (owned: bool)
    ensures
        owned == is_row(id, base + staged),
{
    id >= 1 && (id as u128) <= base as u128 + staged as u128
}

/// A transaction: the rows written since it began, which reach the store
/// only when it is committed. Dropping it rolls it back.
pub struct Transaction {
    pub base: RowCounts,
    pub staged: Tables,
    pub operations_left: Option<usize>,
}

impl Transaction {
    /// The staged rows are numbered on from the rows the store held when
    /// the transaction began, and name owners that exist.
    pub open spec fn wf(&self) -> bool {
        rows_follow(self.base, self.staged@)
    }

    /// Writes a message row.
    pub fn insert_envelope(
        &mut self,
        message_type: &str,
        content: &str,
        container_id: &str,
        created_at: &str,
    ) -> (result: Result<i64, StorageError>)
        requires
            old(self).wf(),
        ensures
            final(self).wf(),
            final(self).base == old(self).base,
            final(self).operations_left == after_operation(old(self).operations_left),
            result == write_result(
                old(self).operations_left,
                true,
                old(self).base.edi_messages + old(self).staged@.edi_messages.len(),
            ),
            final(self).staged@ == match result {
                Ok(id) => TablesText {
                    edi_messages: old(self).staged@.edi_messages.push(
                        EdiMessageText {
                            id,
                            message_type: message_type@,
                            content: content@,
                            container_id: Some(container_id@),
                            created_at: created_at@,
                        },
                    ),
                    ..old(self).staged@
                },
                Err(_) => old(self).staged@,
            },
    {
        let id = allow_write(
            &mut self.operations_left,
            true,
            self.base.edi_messages,
            self.staged.edi_messages.len(),
        )?;
        let row = EdiMessage {
            id,
            message_type: message_type.to_owned(),
            content: content.to_owned(),
            container_id: Some(container_id.to_owned()),
            created_at: created_at.to_owned(),
        };
        let ghost before = self.staged@;
        self.staged.edi_messages.push(row);
        assert(self.staged@.edi_messages =~= before.edi_messages.push(row@));
        Ok(id)
    }

    /// Writes the header of a BAPLIE message under its message row.
    pub fn insert_baplie_parent(&mut self, edi_message_id: i64, data: &ParsedBaplieData) -> (result:
        Result<i64, StorageError>)
        requires
            old(self).wf(),
        ensures
            final(self).wf(),
            final(self).base == old(self).base,
            final(self).operations_left == after_operation(old(self).operations_left),
            result == write_result(
                old(self).operations_left,
                is_row(
                    edi_message_id,
                    old(self).base.edi_messages + old(self).staged@.edi_messages.len(),
                ),
                old(self).base.baplie_messages + old(self).staged@.baplie_messages.len(),
            ),
            final(self).staged@ == match result {
                Ok(id) => TablesText {
                    baplie_messages: old(self).staged@.baplie_messages.push(
                        BaplieMessageText {
                            id,
                            edi_message_id,
                            vessel_name: data@.vessel_name,
                            voyage_number: data@.voyage_number,
                            port_of_loading: data@.port_of_loading,
                            port_of_discharge: data@.port_of_discharge,
                        },
                    ),
                    ..old(self).staged@
                },
                Err(_) => old(self).staged@,
            },
    {
        let owned = owned_by(
            edi_message_id,
            self.base.edi_messages,
            self.staged.edi_messages.len(),
        );
        let id = allow_write(
            &mut self.operations_left,
            owned,
            self.base.baplie_messages,
            self.staged.baplie_messages.len(),
        )?;
        let row = BaplieMessage {
            id,
            edi_message_id,
            vessel_name: clone_text(&data.vessel_name),
            voyage_number: clone_text(&data.voyage_number),
            port_of_loading: clone_text(&data.port_of_loading),
            port_of_discharge: clone_text(&data.port_of_discharge),
        };
        let ghost before = self.staged@;
        self.staged.baplie_messages.push(row);
        assert(self.staged@.baplie_messages =~= before.baplie_messages.push(row@));
        Ok(id)
    }

    /// Writes one container of a BAPLIE message under its header.
    pub fn insert_baplie_container(
        &mut self,
        baplie_message_id: i64,
        container: &ParsedBaplieContainer,
    ) -> (result: Result<i64, StorageError>)
        requires
            old(self).wf(),
        ensures
            final(self).wf(),
            final(self).base == old(self).base,
            final(self).operations_left == after_operation(old(self).operations_left),
            result == write_result(
                old(self).operations_left,
                is_row(
                    baplie_message_id,
                    old(self).base.baplie_messages + old(self).staged@.baplie_messages.len(),
                ),
                old(self).base.baplie_containers + old(self).staged@.baplie_containers.len(),
            ),
            final(self).staged@ == match result {
                Ok(id) => TablesText {
                    baplie_containers: old(self).staged@.baplie_containers.push(
                        BaplieContainerRow { id, baplie_message_id, fields: container@ },
                    ),
                    ..old(self).staged@
                },
                Err(_) => old(self).staged@,
            },
    {
        let owned = owned_by(
            baplie_message_id,
            self.base.baplie_messages,
            self.staged.baplie_messages.len(),
        );
        let id = allow_write(
            &mut self.operations_left,
            owned,
            self.base.baplie_containers,
            self.staged.baplie_containers.len(),
        )?;
        let row = BaplieContainer {
            id,
            baplie_message_id,
            container_id: container.container_id.clone(),
            bay: clone_text(&container.bay),
            row: clone_text(&container.row),
            tier: clone_text(&container.tier),
            size: clone_text(&container.size),
            container_type: clone_text(&container.container_type),
            weight: clone_text(&container.weight),
        };
        let ghost before = self.staged@;
        self.staged.baplie_containers.push(row);
        assert(self.staged@.baplie_containers =~= before.baplie_containers.push(row@));
        Ok(id)
    }

    /// Writes the header of a COARRI message under its message row.
    pub fn insert_coarri_parent(&mut self, edi_message_id: i64, data: &ParsedCoarriData) -> (result:
        Result<i64, StorageError>)
        requires
            old(self).wf(),
        ensures
            final(self).wf(),
            final(self).base == old(self).base,
            final(self).operations_left == after_operation(old(self).operations_left),
            result == write_result(
                old(self).operations_left,
                is_row(
                    edi_message_id,
                    old(self).base.edi_messages + old(self).staged@.edi_messages.len(),
                ),
                old(self).base.coarri_messages + old(self).staged@.coarri_messages.len(),
            ),
            final(self).staged@ == match result {
                Ok(id) => TablesText {
                    coarri_messages: old(self).staged@.coarri_messages.push(
                        CoarriMessageText {
                            id,
                            edi_message_id,
                            vessel_name: data@.vessel_name,
                            voyage_number: data@.voyage_number,
                        },
                    ),
                    ..old(self).staged@
                },
                Err(_) => old(self).staged@,
            },
    {
        let owned = owned_by(
            edi_message_id,
            self.base.edi_messages,
            self.staged.edi_messages.len(),
        );
        let id = allow_write(
            &mut self.operations_left,
            owned,
            self.base.coarri_messages,
            self.staged.coarri_messages.len(),
        )?;
        let row = CoarriMessage {
            id,
            edi_message_id,
            vessel_name: clone_text(&data.vessel_name),
            voyage_number: clone_text(&data.voyage_number),
        };
        let ghost before = self.staged@;
        self.staged.coarri_messages.push(row);
        assert(self.staged@.coarri_messages =~= before.coarri_messages.push(row@));
        Ok(id)
    }

    /// Writes one movement of a COARRI message under its header.
    pub fn insert_coarri_movement(
        &mut self,
        coarri_message_id: i64,
        movement: &ParsedCoarriMovement,
    ) -> (result: Result<i64, StorageError>)
        requires
            old(self).wf(),
        ensures
            final(self).wf(),
            final(self).base == old(self).base,
            final(self).operations_left == after_operation(old(self).operations_left),
            result == write_result(
                old(self).operations_left,
                is_row(
                    coarri_message_id,
                    old(self).base.coarri_messages + old(self).staged@.coarri_messages.len(),
                ),
                old(self).base.coarri_movements + old(self).staged@.coarri_movements.len(),
            ),
            final(self).staged@ == match result {
                Ok(id) => TablesText {
                    coarri_movements: old(self).staged@.coarri_movements.push(
                        CoarriMovementRow { id, coarri_message_id, fields: movement@ },
                    ),
                    ..old(self).staged@
                },
                Err(_) => old(self).staged@,
            },
    {
        let owned = owned_by(
            coarri_message_id,
            self.base.coarri_messages,
            self.staged.coarri_messages.len(),
        );
        let id = allow_write(
            &mut self.operations_left,
            owned,
            self.base.coarri_movements,
            self.staged.coarri_movements.len(),
        )?;
        let row = CoarriMovement {
            id,
            coarri_message_id,
            container_id: movement.container_id.clone(),
            movement_type: clone_text(&movement.movement_type),
            stowage_location: clone_text(&movement.stowage_location),
            iso_container_type: clone_text(&movement.iso_container_type),
        };
        let ghost before = self.staged@;
        self.staged.coarri_movements.push(row);
        assert(self.staged@.coarri_movements =~= before.coarri_movements.push(row@));
        Ok(id)
    }

    /// Writes the header of a CODECO message under its message row.
    pub fn insert_codeco_parent(&mut self, edi_message_id: i64, data: &ParsedCodecoData) -> (result:
        Result<i64, StorageError>)
        requires
            old(self).wf(),
        ensures
            final(self).wf(),
            final(self).base == old(self).base,
            final(self).operations_left == after_operation(old(self).operations_left),
            result == write_result(
                old(self).operations_left,
                is_row(
                    edi_message_id,
                    old(self).base.edi_messages + old(self).staged@.edi_messages.len(),
                ),
                old(self).base.codeco_messages + old(self).staged@.codeco_messages.len(),
            ),
            final(self).staged@ == match result {
                Ok(id) => TablesText {
                    codeco_messages: old(self).staged@.codeco_messages.push(
                        CodecoMessageText { id, edi_message_id, gate: data@.gate },
                    ),
                    ..old(self).staged@
                },
                Err(_) => old(self).staged@,
            },
    {
        let owned = owned_by(
            edi_message_id,
            self.base.edi_messages,
            self.staged.edi_messages.len(),
        );
        let id = allow_write(
            &mut self.operations_left,
            owned,
            self.base.codeco_messages,
            self.staged.codeco_messages.len(),
        )?;
        let row = CodecoMessage { id, edi_message_id, gate: clone_text(&data.gate) };
        let ghost before = self.staged@;
        self.staged.codeco_messages.push(row);
        assert(self.staged@.codeco_messages =~= before.codeco_messages.push(row@));
        Ok(id)
    }

    /// Writes one movement of a CODECO message under its header.
    pub fn insert_codeco_movement(
        &mut self,
        codeco_message_id: i64,
        movement: &ParsedCodecoMovement,
    ) -> (result: Result<i64, StorageError>)
        requires
            old(self).wf(),
        ensures
            final(self).wf(),
            final(self).base == old(self).base,
            final(self).operations_left == after_operation(old(self).operations_left),
            result == write_result(
                old(self).operations_left,
                is_row(
                    codeco_message_id,
                    old(self).base.codeco_messages + old(self).staged@.codeco_messages.len(),
                ),
                old(self).base.codeco_movements + old(self).staged@.codeco_movements.len(),
            ),
            final(self).staged@ == match result {
                Ok(id) => TablesText {
                    codeco_movements: old(self).staged@.codeco_movements.push(
                        CodecoMovementRow { id, codeco_message_id, fields: movement@ },
                    ),
                    ..old(self).staged@
                },
                Err(_) => old(self).staged@,
            },
    {
        let owned = owned_by(
            codeco_message_id,
            self.base.codeco_messages,
            self.staged.codeco_messages.len(),
        );
        let id = allow_write(
            &mut self.operations_left,
            owned,
            self.base.codeco_movements,
            self.staged.codeco_movements.len(),
        )?;
        let row = CodecoMovement {
            id,
            codeco_message_id,
            container_id: movement.container_id.clone(),
            movement_type: clone_text(&movement.movement_type),
            truck_license_plate: clone_text(&movement.truck_license_plate),
            iso_container_type: clone_text(&movement.iso_container_type),
        };
        let ghost before = self.staged@;
        self.staged.codeco_movements.push(row);
        assert(self.staged@.codeco_movements =~= before.codeco_movements.push(row@));
        Ok(id)
    }
}

/// Why a commit is refused, if it is: the store was told to fail, or it has
/// changed since the transaction began.
pub open spec fn commit_refusal(tables: TablesText, tx: Transaction) -> Option<StorageError> {
    if tx.operations_left == Some(0usize) {
        Some(StorageError::Fault)
    } else if !counted(tables, tx.base) {
        Some(StorageError::Conflict)
    } else {
        None
    }
}

/// A message store held in memory. It can be told to fail: with
/// `fault_after` set to `k`, the first `k` operations of each transaction
/// succeed (its beginning, each write, its commit) and the others fail.
pub struct MemoryStore {
    pub tables: Tables,
    pub fault_after: Option<usize>,
}

impl MemoryStore {
    /// The rows are numbered from 1 in each table and name owners that exist.
    pub open spec fn wf(&self) -> bool {
        tables_wf(self.tables@)
    }

    /// An empty store that never fails.
    pub fn new() -> (store: MemoryStore)
        ensures
            store.wf(),
            store.tables@ == no_rows(),
            store.fault_after is None,
    {
        MemoryStore { tables: Tables::new(), fault_after: None }
    }

    /// Tells the store to let the first `operations` operations of each
    /// transaction succeed and to fail the others.
    pub fn fail_after(&mut self, operations: usize)
        ensures
            final(self).tables == old(self).tables,
            final(self).fault_after == Some(operations),
    {
        self.fault_after = Some(operations);
    }

    /// Tells the store not to fail any more.
    pub fn never_fail(&mut self)
        ensures
            final(self).tables == old(self).tables,
            final(self).fault_after is None,
    {
        self.fault_after = None;
    }

    /// Begins a transaction.
    pub fn begin(&self) -> (result: Result<Transaction, StorageError>)
        ensures
            match result {
                Ok(tx) => {
                    &&& self.fault_after != Some(0usize)
                    &&& counted(self.tables@, tx.base)
                    &&& tx.staged@ == no_rows()
                    &&& tx.operations_left == after_operation(self.fault_after)
                    &&& tx.wf()
                },
                Err(e) => self.fault_after == Some(0usize) && e == StorageError::Fault,
            },
    {
        let operations_left = match self.fault_after {
            Some(k) => {
                if k == 0 {
                    return Err(StorageError::Fault);
                }
                Some(k - 1)
            },
            None => None,
        };
        Ok(Transaction { base: self.tables.counts(), staged: Tables::new(), operations_left })
    }

    /// Commits a transaction: its rows reach the store all together, or,
    /// where the commit is refused, not at all.
    pub fn commit(&mut self, tx: Transaction) -> (result: Result<(), StorageError>)
        requires
            old(self).wf(),
            tx.wf(),
        ensures
            final(self).wf(),
            final(self).fault_after == old(self).fault_after,
            match commit_refusal(old(self).tables@, tx) {
                Some(e) => result == Err::<(), StorageError>(e) && final(self).tables@ == old(
                    self,
                ).tables@,
                None => result == Ok::<(), StorageError>(()) && final(self).tables@ == joined(
                    old(self).tables@,
                    tx.staged@,
                ),
            },
    {
        match tx.operations_left {
            Some(k) => {
                if k == 0 {
                    return Err(StorageError::Fault);
                }
            },
            None => {},
        }
        let counts = self.tables.counts();
        if !(counts == tx.base) {
            return Err(StorageError::Conflict);
        }
        proof {
            lemma_joined_wf(self.tables@, tx.base, tx.staged@);
        }
        self.tables.append(tx.staged);
        Ok(())
    }
}

} // verus!
