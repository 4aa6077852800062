//! Exchanging the values of one column between two rows: read each row's
//! value, then write each value into the other row.
use vstd::prelude::*;
use vstd::string::StringExecFns;
use crate::data_structures::{EditColInRowIn, GetDataIn, SelectArgument, SwapColumnsIn};
use crate::db_error::DbError;
use crate::table_row::{Col, Row};

verus! {

/// The read of `column` in the row whose `id` is `row_id`.
pub fn swap_lookup(input: &SwapColumnsIn, row_id: &str) -> (request: GetDataIn)
    ensures
        request.table_name == input.table_name,
        request.arguments@.len() == 1,
        request.arguments@[0] matches SelectArgument::XEqualY { x, y } && x@ == "id"@ && y@ == row_id@,
        request.columns_to_read@.len() == 1,
        request.columns_to_read@[0] == input.column,
{
    let mut arguments = Vec::new();
    arguments.push(SelectArgument::XEqualY { x: String::from_str("id"), y: String::from_str(row_id) });
    let mut columns_to_read = Vec::new();
    columns_to_read.push(input.column.clone());
    GetDataIn { table_name: input.table_name.clone(), arguments, columns_to_read }
}

/// `prefix` followed by the row id.
pub open spec fn message_for_row(prefix: Seq<char>, row_id: Seq<char>) -> Seq<char> {
    prefix + row_id
}

/// The first value of the first row that a lookup returned.
pub fn first_value(rows: Vec<Row>, row_id: &str) -> (value: Result<Col, DbError>)
    ensures
        rows@.len() == 0 ==> (value matches Err(DbError::IllegalInput(m))
            && m@ == message_for_row("No row found for id "@, row_id@)),
        rows@.len() > 0 && rows@[0].cols@.len() == 0 ==> (value matches Err(DbError::IllegalInput(m))
            && m@ == message_for_row("No column value for id "@, row_id@)),
        rows@.len() > 0 && rows@[0].cols@.len() > 0 ==> value == Ok::<Col, DbError>(rows@[0].cols@[0]),
{
    let mut rows = rows;
    if rows.len() == 0 {
        let mut m = String::from_str("No row found for id ");
        m.append(row_id);
        return Err(DbError::IllegalInput(m));
    }
    let row = rows.swap_remove(0);
    let mut cols = row.cols;
    if cols.len() == 0 {
        let mut m = String::from_str("No column value for id ");
        m.append(row_id);
        return Err(DbError::IllegalInput(m));
    }
    Ok(cols.swap_remove(0))
}

/// The two writes that exchange the values: the first row gets the second
/// row's value and the second row gets the first row's.
pub fn swap_edits(input: &SwapColumnsIn, value1: Col, value2: Col) -> (edits: (EditColInRowIn, EditColInRowIn))
    ensures
        edits.0.table_name == input.table_name && edits.0.row_id == input.row_id_1
            && edits.0.column == input.column && edits.0.new_value == value2,
        edits.1.table_name == input.table_name && edits.1.row_id == input.row_id_2
            && edits.1.column == input.column && edits.1.new_value == value1,
{
    (
        EditColInRowIn {
            table_name: input.table_name.clone(),
            row_id: input.row_id_1.clone(),
            column: input.column.clone(),
            new_value: value2,
        },
        EditColInRowIn {
            table_name: input.table_name.clone(),
            row_id: input.row_id_2.clone(),
            column: input.column.clone(),
            new_value: value1,
        },
    )
}

/// The condition that picks the row whose id is `row_id`, for the browser store.
pub fn id_condition(row_id: &str) -> (condition: String)
    ensures
        condition@ == "id = "@ + row_id@,
{
    let mut condition = String::from_str("id = ");
    condition.append(row_id);
    condition
}

/// The first cell of the first row that a read of the browser store returned.
pub fn first_text_cell(rows: Vec<Vec<String>>) -> (value: Result<String, String>)
    ensures
        rows@.len() == 0 ==> (value matches Err(m) && m@ == "No rows returned from database"@),
        rows@.len() > 0 && rows@[0]@.len() == 0 ==> (value matches Err(m) && m@ == "Row has no columns"@),
        rows@.len() > 0 && rows@[0]@.len() > 0 ==> value == Ok::<String, String>(rows@[0]@[0]),
{
    let mut rows = rows;
    if rows.len() == 0 {
        return Err(String::from_str("No rows returned from database"));
    }
    let mut row = rows.swap_remove(0);
    if row.len() == 0 {
        return Err(String::from_str("Row has no columns"));
    }
    Ok(row.swap_remove(0))
}

/// Where an exchange in the browser store stands.
pub enum SwapState {
    /// Waiting for the read of the first row.
    ReadingFirst,
    /// Waiting for the read of the second row; the first row's value is known.
    ReadingSecond { value1: String },
    /// Waiting for the write into the first row.
    WritingFirst { value1: String },
    /// Waiting for the write into the second row.
    WritingSecond,
    /// Done, successfully or not.
    Finished,
}

/// What the store answered to the last action.
pub enum SwapEvent {
    /// The rows a read returned, or its error.
    Read(Result<Vec<Vec<String>>, String>),
    /// The outcome of a write.
    Wrote(Result<(), String>),
}

/// What to do next.
pub enum SwapAction {
    /// Read the column in the rows that meet `condition`.
    Read { condition: String },
    /// Write `new_value` into the column of the row `row_id`.
    Write { row_id: String, new_value: String },
    /// Stop, with the exchange's outcome.
    Finish(Result<(), String>),
}

/// The stage of an exchange, as text.
pub enum SwapStage {
    ReadingFirst,
    ReadingSecond(Seq<char>),
    WritingFirst(Seq<char>),
    WritingSecond,
    Finished,
}

/// An answer of the store, as text.
pub enum SwapHeard {
    Read(Result<Seq<Seq<Seq<char>>>, Seq<char>>),
    Wrote(Option<Seq<char>>),
}

/// An action, as text; `Finish(None)` is success.
pub enum SwapDo {
    Read(Seq<char>),
    Write(Seq<char>, Seq<char>),
    Finish(Option<Seq<char>>),
}

impl View for SwapState {
    type V = SwapStage;

    open spec fn view(&self) -> SwapStage {
        match self {
            SwapState::ReadingFirst => SwapStage::ReadingFirst,
            SwapState::ReadingSecond { value1 } => SwapStage::ReadingSecond(value1@),
            SwapState::WritingFirst { value1 } => SwapStage::WritingFirst(value1@),
            SwapState::WritingSecond => SwapStage::WritingSecond,
            SwapState::Finished => SwapStage::Finished,
        }
    }
}

/// The text of each cell of each row.
pub open spec fn rows_text(rows: Seq<Vec<String>>) -> Seq<Seq<Seq<char>>> {
    rows.map_values(|r: Vec<String>| r@.map_values(|s: String| s@))
}

impl View for SwapEvent {
    type V = SwapHeard;

    open spec fn view(&self) -> SwapHeard {
        match self {
            SwapEvent::Read(Ok(rows)) => SwapHeard::Read(Ok(rows_text(rows@))),
            SwapEvent::Read(Err(e)) => SwapHeard::Read(Err(e@)),
            SwapEvent::Wrote(Ok(())) => SwapHeard::Wrote(None),
            SwapEvent::Wrote(Err(e)) => SwapHeard::Wrote(Some(e@)),
        }
    }
}

impl View for SwapAction {
    type V = SwapDo;

    open spec fn view(&self) -> SwapDo {
        match self {
            SwapAction::Read { condition } => SwapDo::Read(condition@),
            SwapAction::Write { row_id, new_value } => SwapDo::Write(row_id@, new_value@),
            SwapAction::Finish(Ok(())) => SwapDo::Finish(None),
            SwapAction::Finish(Err(e)) => SwapDo::Finish(Some(e@)),
        }
    }
}

/// The first cell of the first row, or why there is none.
pub open spec fn first_cell(rows: Seq<Seq<Seq<char>>>) -> Result<Seq<char>, Seq<char>> {
    if rows.len() == 0 {
        Err("No rows returned from database"@)
    } else if rows[0].len() == 0 {
        Err("Row has no columns"@)
    } else {
        Ok(rows[0][0])
    }
}

/// The condition that picks a row by id.
pub open spec fn id_condition_text(row_id: Seq<char>) -> Seq<char> {
    "id = "@ + row_id
}

/// The answer that the stage waits for: a read while reading, a write while writing.
pub open spec fn expects(stage: SwapStage, heard: SwapHeard) -> bool {
    match stage {
        SwapStage::ReadingFirst | SwapStage::ReadingSecond(_) => heard is Read,
        SwapStage::WritingFirst(_) | SwapStage::WritingSecond => heard is Wrote,
        SwapStage::Finished => false,
    }
}

/// The next stage and action of an exchange between the rows `id1` and `id2`:
/// both reads come first, each failure ends the exchange with its message,
/// and then the first row gets the second row's value and the second row the first's.
pub open spec fn swap_next(id1: Seq<char>, id2: Seq<char>, stage: SwapStage, heard: SwapHeard) -> (SwapStage, SwapDo) {
    match (stage, heard) {
        (SwapStage::ReadingFirst, SwapHeard::Read(Ok(rows))) => match first_cell(rows) {
            Ok(v1) => (SwapStage::ReadingSecond(v1), SwapDo::Read(id_condition_text(id2))),
            Err(m) => (SwapStage::Finished, SwapDo::Finish(Some(m))),
        },
        (SwapStage::ReadingSecond(v1), SwapHeard::Read(Ok(rows))) => match first_cell(rows) {
            Ok(v2) => (SwapStage::WritingFirst(v1), SwapDo::Write(id1, v2)),
            Err(m) => (SwapStage::Finished, SwapDo::Finish(Some(m))),
        },
        (SwapStage::WritingFirst(v1), SwapHeard::Wrote(None)) => (SwapStage::WritingSecond, SwapDo::Write(id2, v1)),
        (SwapStage::WritingSecond, SwapHeard::Wrote(None)) => (SwapStage::Finished, SwapDo::Finish(None)),
        (_, SwapHeard::Read(Err(e))) => (SwapStage::Finished, SwapDo::Finish(Some(e))),
        (_, SwapHeard::Wrote(Some(e))) => (SwapStage::Finished, SwapDo::Finish(Some(e))),
        _ => (SwapStage::Finished, SwapDo::Finish(None)),
    }
}

/// The first step of an exchange: read the first row.
pub fn swap_start(input: &SwapColumnsIn) -> (start: (SwapState, SwapAction))
    ensures
        start.0@ == SwapStage::ReadingFirst,
        start.1@ == SwapDo::Read(id_condition_text(input.row_id_1@)),
{
    (SwapState::ReadingFirst, SwapAction::Read { condition: id_condition(input.row_id_1.as_str()) })
}

/// The next step of an exchange, given the store's answer to the last action.
pub fn swap_step(input: &SwapColumnsIn, state: SwapState, event: SwapEvent) -> (next: (SwapState, SwapAction))
    requires
        expects(state@, event@),
    ensures
        (next.0@, next.1@) == swap_next(input.row_id_1@, input.row_id_2@, state@, event@),
        event matches SwapEvent::Wrote(Err(e)) ==> (next.1 matches SwapAction::Finish(Err(m)) && m == e),
        event matches SwapEvent::Read(Err(e)) ==> (next.1 matches SwapAction::Finish(Err(m)) && m == e),
        next.1 matches SwapAction::Finish(Ok(_)) ==> (state is WritingSecond && event matches SwapEvent::Wrote(Ok(_))),
{
    let ghost heard = event@;
    let ghost stage = state@;
    match event {
        SwapEvent::Read(Err(e)) => (SwapState::Finished, SwapAction::Finish(Err(e))),
        SwapEvent::Wrote(Err(e)) => (SwapState::Finished, SwapAction::Finish(Err(e))),
        SwapEvent::Read(Ok(rows)) => {
            let ghost rows_view = rows_text(rows@);
            let cell = first_text_cell(rows);
            proof {
                if rows_view.len() > 0 {
                    assert(rows_view[0] =~= rows@[0]@.map_values(|s: String| s@));
                }
            }
            match state {
                SwapState::ReadingFirst => match cell {
                    Ok(v1) => {
                        let condition = id_condition(input.row_id_2.as_str());
                        (SwapState::ReadingSecond { value1: v1 }, SwapAction::Read { condition })
                    },
                    Err(m) => (SwapState::Finished, SwapAction::Finish(Err(m))),
                },
                SwapState::ReadingSecond { value1 } => match cell {
                    Ok(v2) => (
                        SwapState::WritingFirst { value1 },
                        SwapAction::Write { row_id: input.row_id_1.clone(), new_value: v2 },
                    ),
                    Err(m) => (SwapState::Finished, SwapAction::Finish(Err(m))),
                },
                _ => (SwapState::Finished, SwapAction::Finish(Ok(()))),
            }
        },
        SwapEvent::Wrote(Ok(())) => match state {
            SwapState::WritingFirst { value1 } => (
                SwapState::WritingSecond,
                SwapAction::Write { row_id: input.row_id_2.clone(), new_value: value1 },
            ),
            SwapState::WritingSecond => (SwapState::Finished, SwapAction::Finish(Ok(()))),
            _ => (SwapState::Finished, SwapAction::Finish(Ok(()))),
        },
    }
}

/// When both reads find a value, the exchange reads the first row, then the
/// second, then writes the second row's value into the first row and the first
/// row's value into the second row, and succeeds once both writes have.
pub proof fn law_swap_exchanges_values(
    id1: Seq<char>,
    id2: Seq<char>,
    rows1: Seq<Seq<Seq<char>>>,
    rows2: Seq<Seq<Seq<char>>>,
)
    requires
        first_cell(rows1) is Ok,
        first_cell(rows2) is Ok,
    ensures
        ({
            let v1 = first_cell(rows1)->Ok_0;
            let v2 = first_cell(rows2)->Ok_0;
            &&& swap_next(id1, id2, SwapStage::ReadingFirst, SwapHeard::Read(Ok(rows1)))
                == (SwapStage::ReadingSecond(v1), SwapDo::Read(id_condition_text(id2)))
            &&& swap_next(id1, id2, SwapStage::ReadingSecond(v1), SwapHeard::Read(Ok(rows2)))
                == (SwapStage::WritingFirst(v1), SwapDo::Write(id1, v2))
            &&& swap_next(id1, id2, SwapStage::WritingFirst(v1), SwapHeard::Wrote(None))
                == (SwapStage::WritingSecond, SwapDo::Write(id2, v1))
            &&& swap_next(id1, id2, SwapStage::WritingSecond, SwapHeard::Wrote(None))
                == (SwapStage::Finished, SwapDo::Finish(None))
        }),
{
}

/// A read that fails, or that finds no value, ends the exchange with its
/// message before any write; nothing is expected after the end.
pub proof fn law_no_write_after_failed_read(id1: Seq<char>, id2: Seq<char>, stage: SwapStage, heard: SwapHeard)
    requires
        expects(stage, heard),
        heard matches SwapHeard::Read(r) && (r is Err || first_cell(r->Ok_0) is Err),
    ensures
        swap_next(id1, id2, stage, heard).0 == SwapStage::Finished,
        swap_next(id1, id2, stage, heard).1 == SwapDo::Finish(Some(match heard {
            SwapHeard::Read(Err(e)) => e,
            SwapHeard::Read(Ok(rows)) => first_cell(rows)->Err_0,
            SwapHeard::Wrote(_) => Seq::<char>::empty(),
        })),
        forall|h: SwapHeard| !expects(SwapStage::Finished, h),
{
}

/// A write that fails ends the exchange with that write's message, in
/// whichever stage it came; and the exchange ends in success only when the
/// second write succeeded.
pub proof fn law_failed_write_fails_the_exchange(
    id1: Seq<char>,
    id2: Seq<char>,
    stage: SwapStage,
    heard: SwapHeard,
    e: Seq<char>,
)
    requires
        expects(stage, heard),
    ensures
        expects(stage, SwapHeard::Wrote(Some(e))) ==> swap_next(id1, id2, stage, SwapHeard::Wrote(Some(e)))
            == (SwapStage::Finished, SwapDo::Finish(Some(e))),
        swap_next(id1, id2, stage, heard).1 == SwapDo::Finish(None) ==> (stage == SwapStage::WritingSecond
            && heard == SwapHeard::Wrote(None)),
{
}

} // verus!
