//! The decisions around each call into the browser's SQLite store: how a
//! stepped statement's rows are collected, what a NULL cell reads as, and the
//! messages of each failure, and what a whole shape query, read or write
//! returns given the store's answers. The calls themselves are made by the caller.
use vstd::prelude::*;
use vstd::string::StringExecFns;
use crate::sql_statements::{table_info_line, table_info_line_text};
use crate::text::{i64_to_decimal, signed_decimal};

verus! {

/// What one step of a prepared statement gave.
pub enum StepOutcome<R> {
    /// The statement is on a row, with these cells.
    Row(R),
    /// The statement has no more rows.
    Done,
    /// The step failed, with the connection's error message.
    Failed(String),
}

/// What to do after a step.
pub enum StepAction<A> {
    /// Step again, with what was collected so far.
    Continue(A),
    /// Finalize the statement and return what was collected.
    Finish(A),
    /// Finalize the statement and report this message.
    Fail(String),
}

/// `what failed: err`
pub open spec fn failure_text(what: Seq<char>, err: Seq<char>) -> Seq<char> {
    what + " failed: "@ + err
}

/// The message of a failed store call, as `format!("{} failed: {}", what, err)`.
pub fn failure_message(what: &str, err: &str) -> (m: String)
    ensures
        m@ == failure_text(what@, err@),
{
    let mut m = String::from_str(what);
    m.append(" failed: ");
    m.append(err);
    m
}

/// The check every store call starts with: a missing connection is an error.
pub fn connection_check(connection_is_null: bool) -> (r: Result<(), String>)
    ensures
        connection_is_null ==> (r matches Err(m) && m@ == "db pointer is null"@),
        !connection_is_null ==> r is Ok,
{
    if connection_is_null {
        Err(String::from_str("db pointer is null"))
    } else {
        Ok(())
    }
}

/// The check after a call that returns a status code: `ok_code` passes, and
/// any other code is reported as `what failed: detail`, where `detail` is the
/// store's message or the code's name.
pub fn code_check(what: &str, code: i32, ok_code: i32, detail: &str) -> (r: Result<(), String>)
    ensures
        code == ok_code ==> r is Ok,
        code != ok_code ==> (r matches Err(m) && m@ == failure_text(what@, detail@)),
{
    if code == ok_code {
        Ok(())
    } else {
        Err(failure_message(what, detail))
    }
}

/// Whether a statement may be stepped: the connection must be there and the
/// statement must have prepared; otherwise `db pointer is null`, or
/// `prepare failed: ` with the name of the prepare's code. Stepping is the only
/// call that changes a table, so a statement that is not ready changes nothing.
pub fn statement_ready(connection_is_null: bool, prepare_code: i32, ok_code: i32, prepare_text: &str) -> (r: Result<(), String>)
    ensures
        connection_is_null ==> (r matches Err(m) && m@ == "db pointer is null"@),
        !connection_is_null && prepare_code != ok_code ==> (r matches Err(m)
            && m@ == failure_text("prepare"@, prepare_text@)),
        !connection_is_null && prepare_code == ok_code ==> r is Ok,
{
    match connection_check(connection_is_null) {
        Err(m) => Err(m),
        Ok(()) => code_check("prepare", prepare_code, ok_code, prepare_text),
    }
}

/// The text of a cell: a NULL cell reads as the empty string.
pub fn cell_text(cell: Option<String>) -> (text: String)
    ensures
        cell matches Some(s) ==> text == s,
        cell is None ==> text@.len() == 0,
{
    match cell {
        Some(s) => s,
        None => String::new(),
    }
}

/// One row of a table's shape, as the store reports it.
pub struct ShapeRow {
    pub cid: i32,
    pub name: String,
    pub col_type: String,
    pub not_null: bool,
    pub primary_key: bool,
}

/// After preparing `PRAGMA table_info`: on success, step with no lines yet;
/// otherwise report `Prepare failed: ` with the store's message.
pub fn shape_start(prepare_code: i32, ok_code: i32, errmsg: &str) -> (action: StepAction<Vec<String>>)
    ensures
        prepare_code == ok_code ==> (action matches StepAction::Continue(lines) && lines@.len() == 0),
        prepare_code != ok_code ==> (action matches StepAction::Fail(m) && m@ == failure_text("Prepare"@, errmsg@)),
{
    match code_check("Prepare", prepare_code, ok_code, errmsg) {
        Ok(()) => StepAction::Continue(Vec::new()),
        Err(m) => StepAction::Fail(m),
    }
}

/// After a step of `PRAGMA table_info`: a row adds its line, the end returns
/// the lines, and a failure reports `Step failed: ` with the store's message.
pub fn shape_step(lines: Vec<String>, step: StepOutcome<ShapeRow>) -> (action: StepAction<Vec<String>>)
    ensures
        step matches StepOutcome::Row(r) ==> (action matches StepAction::Continue(next)
            && next@.len() == lines@.len() + 1
            && next@.take(lines@.len() as int) == lines@
            && next@.last()@ == table_info_line_text(r.cid as int, r.name@, r.col_type@, r.not_null, r.primary_key)),
        step is Done ==> action == StepAction::Finish(lines),
        step matches StepOutcome::Failed(err) ==> (action matches StepAction::Fail(m)
            && m@ == failure_text("Step"@, err@)),
{
    match step {
        StepOutcome::Row(r) => {
            let mut next = lines;
            let ghost before = next@;
            let line = table_info_line(r.cid, r.name.as_str(), r.col_type.as_str(), r.not_null, r.primary_key);
            next.push(line);
            assert(next@.take(before.len() as int) =~= before);
            StepAction::Continue(next)
        },
        StepOutcome::Done => StepAction::Finish(lines),
        StepOutcome::Failed(err) => StepAction::Fail(failure_message("Step", err.as_str())),
    }
}

/// The views of a row of cells, each NULL read as the empty string.
pub open spec fn cell_texts(cells: Seq<Option<String>>) -> Seq<Seq<char>> {
    cells.map_values(|c: Option<String>| match c {
        Some(s) => s@,
        None => Seq::<char>::empty(),
    })
}

/// After a step of a SELECT: a row adds its cells (NULL as the empty string),
/// the end returns the rows, and a failure reports `sqlite3_step error: ` with
/// the store's message.
pub fn read_step(rows: Vec<Vec<String>>, step: StepOutcome<Vec<Option<String>>>) -> (action: StepAction<Vec<Vec<String>>>)
    ensures
        step matches StepOutcome::Row(cells) ==> (action matches StepAction::Continue(next)
            && next@.len() == rows@.len() + 1
            && next@.take(rows@.len() as int) == rows@
            && next@.last()@.map_values(|s: String| s@) == cell_texts(cells@)),
        step is Done ==> action == StepAction::Finish(rows),
        step matches StepOutcome::Failed(err) ==> (action matches StepAction::Fail(m)
            && m@ == "sqlite3_step error: "@ + err@),
{
    match step {
        StepOutcome::Row(cells) => {
            let ghost cells_view = cells@;
            let mut row: Vec<String> = Vec::new();
            let mut cells = cells;
            let n = cells.len();
            let mut i: usize = 0;
            while i < n
                invariant
                    n == cells_view.len(),
                    cells@ == cells_view.skip(i as int),
                    i <= n,
                    row@.map_values(|s: String| s@) =~= cell_texts(cells_view.take(i as int)),
                decreases n - i,
            {
                let cell = cells.remove(0);
                assert(cell == cells_view[i as int]);
                let ghost before = row@;
                let ghost cell_view = match &cell {
                    Some(s) => s@,
                    None => Seq::<char>::empty(),
                };
                let text = cell_text(cell);
                assert(text@ =~= cell_view);
                row.push(text);
                assert(row@.map_values(|s: String| s@) =~= before.map_values(|s: String| s@).push(text@));
                assert(cells_view.take(i + 1) =~= cells_view.take(i as int).push(cells_view[i as int]));
                assert(cell_texts(cells_view.take(i + 1)) =~= cell_texts(cells_view.take(i as int)).push(text@));
                assert(cells@ =~= cells_view.skip(i + 1));
                i = i + 1;
            }
            assert(cells_view.take(n as int) =~= cells_view);
            let mut next = rows;
            let ghost before = next@;
            next.push(row);
            assert(next@.take(before.len() as int) =~= before);
            StepAction::Continue(next)
        },
        StepOutcome::Done => StepAction::Finish(rows),
        StepOutcome::Failed(err) => {
            let mut m = String::from_str("sqlite3_step error: ");
            m.append(err.as_str());
            StepAction::Fail(m)
        },
    }
}

/// A statement that changes rows must end with the step code for "done";
/// any other code is reported as `what failed: step returned code`.
pub fn step_done_check(what: &str, step_code: i32, done_code: i32) -> (r: Result<(), String>)
    ensures
        step_code == done_code ==> r is Ok,
        step_code != done_code ==> (r matches Err(m)
            && m@ == failure_text(what@, "step returned "@ + signed_decimal(step_code as int))),
{
    if step_code == done_code {
        Ok(())
    } else {
        let mut detail = String::from_str("step returned ");
        let code = i64_to_decimal(step_code as i64);
        detail.append(code.as_str());
        Err(failure_message(what, detail.as_str()))
    }
}

/// A statement's steps as the store gave them, up to the first that was not a
/// row: every step but the last gave a row, and the last gave none.
pub open spec fn completed_steps<R>(steps: Seq<StepOutcome<R>>) -> bool {
    &&& steps.len() > 0
    &&& !(steps.last() is Row)
    &&& forall|i: int| 0 <= i < steps.len() - 1 ==> #[trigger] steps[i] is Row
}

/// The line of a shape row.
pub open spec fn shape_line(step: StepOutcome<ShapeRow>) -> Seq<char> {
    match step {
        StepOutcome::Row(r) => table_info_line_text(r.cid as int, r.name@, r.col_type@, r.not_null, r.primary_key),
        _ => Seq::empty(),
    }
}

/// What reading a table's shape returns: `Prepare failed: ` with the store's
/// message when the prepare failed; otherwise one line per row in row order,
/// or `Step failed: ` with the store's message when a step failed.
pub open spec fn table_shape_outcome(
    prepared: bool,
    errmsg: Seq<char>,
    steps: Seq<StepOutcome<ShapeRow>>,
) -> Result<Seq<Seq<char>>, Seq<char>> {
    if !prepared {
        Err(failure_text("Prepare"@, errmsg))
    } else {
        match steps.last() {
            StepOutcome::Failed(e) => Err(failure_text("Step"@, e@)),
            _ => Ok(steps.drop_last().map_values(|s: StepOutcome<ShapeRow>| shape_line(s))),
        }
    }
}

/// The views of some strings.
pub open spec fn texts(v: Seq<String>) -> Seq<Seq<char>> {
    v.map_values(|s: String| s@)
}

/// Reading a table's shape, given what the store answered: the prepare's code
/// (with its message, which is used only when the prepare failed) and, when it
/// prepared, the outcomes of its steps up to the first that was not a row.
pub fn table_shape_result(
    prepare_code: i32,
    ok_code: i32,
    errmsg: &str,
    steps: Vec<StepOutcome<ShapeRow>>,
) -> (r: Result<Vec<String>, String>)
    requires
        prepare_code == ok_code ==> completed_steps(steps@),
    ensures
        match table_shape_outcome(prepare_code == ok_code, errmsg@, steps@) {
            Ok(lines) => r matches Ok(v) && texts(v@) == lines,
            Err(m) => r matches Err(e) && e@ == m,
        },
        prepare_code == ok_code && steps@.last() is Done ==> (r matches Ok(v) && v@.len() == steps@.len() - 1
            && forall|i: int| 0 <= i < v@.len() ==> (#[trigger] steps@[i] matches StepOutcome::Row(row)
            && v@[i]@ == table_info_line_text(row.cid as int, row.name@, row.col_type@, row.not_null, row.primary_key))),
{
    let mut lines = match shape_start(prepare_code, ok_code, errmsg) {
        StepAction::Continue(lines) => lines,
        StepAction::Finish(lines) => lines,
        StepAction::Fail(m) => return Err(m),
    };
    let ghost all = steps@;
    let mut rest = steps;
    let n = rest.len();
    let mut k: usize = 0;
    while rest.len() > 0
        invariant
            prepare_code == ok_code,
            all == steps@,
            n == all.len(),
            completed_steps(all),
            k < all.len(),
            rest@ == all.skip(k as int),
            texts(lines@) == all.take(k as int).map_values(|s: StepOutcome<ShapeRow>| shape_line(s)),
        decreases rest@.len(),
    {
        let step = rest.remove(0);
        assert(step == all[k as int]);
        proof {
            if k + 1 < all.len() {
                assert(all[k as int] is Row);
            }
        }
        let ghost before = lines@;
        match shape_step(lines, step) {
            StepAction::Continue(next) => {
                proof {
                    assert(texts(next@) =~= texts(before).push(next@.last()@)) by {
                        assert(next@ =~= before.push(next@.last()));
                    }
                    assert(all.take(k + 1) =~= all.take(k as int).push(all[k as int]));
                    assert(all.take(k + 1).map_values(|s: StepOutcome<ShapeRow>| shape_line(s)) =~= all.take(
                        k as int,
                    ).map_values(|s: StepOutcome<ShapeRow>| shape_line(s)).push(shape_line(all[k as int])));
                    assert(rest@ =~= all.skip(k + 1));
                }
                lines = next;
                k = k + 1;
            },
            StepAction::Finish(done) => {
                assert(k + 1 == all.len());
                assert(all.last() == all[k as int]);
                assert(all.drop_last() =~= all.take(k as int));
                assert(done@ == before);
                proof {
                    law_table_shape_keeps_every_row(errmsg@, all);
                }
                return Ok(done);
            },
            StepAction::Fail(m) => {
                assert(k + 1 == all.len());
                return Err(m);
            },
        }
    }
    assert(all.skip(k as int).len() > 0);
    Ok(lines)
}

/// The cells of each row that a read stepped through, each NULL as the empty string.
pub open spec fn read_rows(steps: Seq<StepOutcome<Vec<Option<String>>>>) -> Seq<Seq<Seq<char>>> {
    steps.map_values(|s: StepOutcome<Vec<Option<String>>>| match s {
        StepOutcome::Row(cells) => cell_texts(cells@),
        _ => Seq::empty(),
    })
}

/// The views of some rows of strings.
pub open spec fn rows_texts(rows: Seq<Vec<String>>) -> Seq<Seq<Seq<char>>> {
    rows.map_values(|r: Vec<String>| texts(r@))
}

/// What a read returns: `db pointer is null` without a connection,
/// `prepare failed: ` with the prepare code's name when the prepare failed,
/// `sqlite3_step error: ` with the store's message when a step failed,
/// `finalize failed: ` with the finalize code's name when finalizing failed,
/// and otherwise the rows in order.
pub open spec fn read_outcome(
    connection_is_null: bool,
    prepared: bool,
    prepare_text: Seq<char>,
    steps: Seq<StepOutcome<Vec<Option<String>>>>,
    finalized: bool,
    finalize_text: Seq<char>,
) -> Result<Seq<Seq<Seq<char>>>, Seq<char>> {
    if connection_is_null {
        Err("db pointer is null"@)
    } else if !prepared {
        Err(failure_text("prepare"@, prepare_text))
    } else {
        match steps.last() {
            StepOutcome::Failed(e) => Err("sqlite3_step error: "@ + e@),
            _ => if !finalized {
                Err(failure_text("finalize"@, finalize_text))
            } else {
                Ok(read_rows(steps.drop_last()))
            },
        }
    }
}

/// A read, given what the store answered: whether there is a connection, the
/// prepare's code and its name, the outcomes of the steps up to the first that
/// was not a row, and the finalize's code and its name. Answers to calls that
/// were not made (after an earlier failure) are not looked at.
pub fn read_from_db_result(
    connection_is_null: bool,
    prepare_code: i32,
    ok_code: i32,
    prepare_text: &str,
    steps: Vec<StepOutcome<Vec<Option<String>>>>,
    finalize_code: i32,
    finalize_text: &str,
) -> (r: Result<Vec<Vec<String>>, String>)
    requires
        !connection_is_null && prepare_code == ok_code ==> completed_steps(steps@),
    ensures
        match read_outcome(
            connection_is_null,
            prepare_code == ok_code,
            prepare_text@,
            steps@,
            finalize_code == ok_code,
            finalize_text@,
        ) {
            Ok(rows) => r matches Ok(v) && rows_texts(v@) == rows,
            Err(m) => r matches Err(e) && e@ == m,
        },
        !connection_is_null && prepare_code == ok_code && finalize_code == ok_code && steps@.last() is Done
            ==> (r matches Ok(v) && v@.len() == steps@.len() - 1 && forall|i: int| 0 <= i < v@.len()
            ==> (#[trigger] steps@[i] matches StepOutcome::Row(cells) && texts(v@[i]@) == cell_texts(cells@))),
{
    match statement_ready(connection_is_null, prepare_code, ok_code, prepare_text) {
        Err(m) => return Err(m),
        Ok(()) => {},
    }
    let ghost all = steps@;
    let mut rest = steps;
    let n = rest.len();
    let mut rows: Vec<Vec<String>> = Vec::new();
    let mut k: usize = 0;
    while rest.len() > 0
        invariant
            !connection_is_null,
            prepare_code == ok_code,
            all == steps@,
            n == all.len(),
            completed_steps(all),
            k < all.len(),
            rest@ == all.skip(k as int),
            rows_texts(rows@) == read_rows(all.take(k as int)),
        decreases rest@.len(),
    {
        let step = rest.remove(0);
        assert(step == all[k as int]);
        proof {
            if k + 1 < all.len() {
                assert(all[k as int] is Row);
            }
        }
        let ghost before = rows@;
        match read_step(rows, step) {
            StepAction::Continue(next) => {
                proof {
                    assert(next@ =~= before.push(next@.last()));
                    assert(rows_texts(next@) =~= rows_texts(before).push(texts(next@.last()@)));
                    assert(all.take(k + 1) =~= all.take(k as int).push(all[k as int]));
                    assert(read_rows(all.take(k + 1)) =~= read_rows(all.take(k as int)).push(
                        cell_texts(all[k as int]->Row_0@),
                    ));
                    assert(rest@ =~= all.skip(k + 1));
                }
                rows = next;
                k = k + 1;
            },
            StepAction::Finish(done) => {
                assert(k + 1 == all.len());
                assert(all.last() == all[k as int]);
                assert(all.drop_last() =~= all.take(k as int));
                assert(done@ == before);
                proof {
                    if finalize_code == ok_code {
                        law_read_keeps_every_row(prepare_text@, all, finalize_text@);
                    }
                }
                return match code_check("finalize", finalize_code, ok_code, finalize_text) {
                    Ok(()) => Ok(done),
                    Err(m) => Err(m),
                };
            },
            StepAction::Fail(m) => {
                assert(k + 1 == all.len());
                return Err(m);
            },
        }
    }
    assert(all.skip(k as int).len() > 0);
    Ok(rows)
}

/// A statement that changes rows (an update or a delete), given what the store
/// answered: `db pointer is null` without a connection, `prepare failed: `
/// with the prepare code's name when the prepare failed, and otherwise the
/// outcome of its one step: done succeeds, any other code is reported as
/// `what failed: step returned code`. The statement is stepped, which is what
/// changes the table, only once it prepared; answers to calls that were not
/// made are not looked at.
pub fn write_statement_result(
    what: &str,
    connection_is_null: bool,
    prepare_code: i32,
    ok_code: i32,
    prepare_text: &str,
    step_code: i32,
    done_code: i32,
) -> (r: Result<(), String>)
    ensures
        connection_is_null ==> (r matches Err(m) && m@ == "db pointer is null"@),
        !connection_is_null && prepare_code != ok_code ==> (r matches Err(m)
            && m@ == failure_text("prepare"@, prepare_text@)),
        !connection_is_null && prepare_code == ok_code && step_code == done_code ==> r is Ok,
        !connection_is_null && prepare_code == ok_code && step_code != done_code ==> (r matches Err(m)
            && m@ == failure_text(what@, "step returned "@ + signed_decimal(step_code as int))),
{
    match statement_ready(connection_is_null, prepare_code, ok_code, prepare_text) {
        Err(m) => Err(m),
        Ok(()) => step_done_check(what, step_code, done_code),
    }
}

/// A read whose prepare and finalize succeed and whose steps end without a
/// failure returns one row per row step, in step order, each the cells of its
/// step with NULL read as the empty string, for any number of rows.
pub proof fn law_read_keeps_every_row(
    prepare_text: Seq<char>,
    steps: Seq<StepOutcome<Vec<Option<String>>>>,
    finalize_text: Seq<char>,
)
    requires
        completed_steps(steps),
        steps.last() is Done,
    ensures
        read_outcome(false, true, prepare_text, steps, true, finalize_text) matches Ok(rows) && rows.len()
            == steps.len() - 1 && forall|i: int| 0 <= i < rows.len() ==> (#[trigger] steps[i] matches StepOutcome::Row(
            cells,
        ) && rows[i] == cell_texts(cells@)),
{
    assert forall|i: int| 0 <= i < steps.len() - 1 implies #[trigger] steps[i] is Row by {
        assert(steps[i] is Row);
    }
}

/// Reading a table's shape that prepares and whose steps end without a
/// failure returns one line per row step, in step order, each the line of
/// its row, for any number of rows.
pub proof fn law_table_shape_keeps_every_row(errmsg: Seq<char>, steps: Seq<StepOutcome<ShapeRow>>)
    requires
        completed_steps(steps),
        steps.last() is Done,
    ensures
        table_shape_outcome(true, errmsg, steps) matches Ok(lines) && lines.len() == steps.len() - 1 && forall|
            i: int,
        | 0 <= i < lines.len() ==> (#[trigger] steps[i] matches StepOutcome::Row(row) && lines[i]
            == table_info_line_text(row.cid as int, row.name@, row.col_type@, row.not_null, row.primary_key)),
{
    assert forall|i: int| 0 <= i < steps.len() - 1 implies #[trigger] steps[i] is Row by {
        assert(steps[i] is Row);
    }
}

} // verus!
