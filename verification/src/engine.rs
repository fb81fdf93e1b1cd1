//! The line-driven interpreter: a compiled template is run over raw
//! output text, line by line, capturing values, executing rule
//! actions, and emitting records.
//!
//! Interpretation state is the current machine state, one cell per
//! declared value, and the records emitted so far. A record is emitted
//! only when every `Required` value is set; emission resets every cell
//! without `Filldown`. `Continue` rescans the same line from the rule
//! after the one that fired. At end of input an `EOF` state (if
//! declared) sees one empty line, otherwise a final record is flushed
//! when something non-`Filldown` was captured; then `Fillup` values
//! propagate backward and `Filter` values are dropped.

use vstd::prelude::*;
use vstd::string::StrSliceExecFns;
use vstd::string::StringExecFns;
use crate::matcher::CapSt;
use crate::matcher::GMatch;
use crate::matcher::MatchOut;
use crate::matcher::match_anchored;
use crate::matcher::match_spec;
use crate::records::Field;
use crate::records::FieldVal;
use crate::records::GField;
use crate::records::GVal;
use crate::records::Record;
use crate::records::field_view;
use crate::records::record_view;
use crate::records::records_view;
use crate::template::Action;
use crate::template::ValueDef;
use crate::template::GTemplate;
use crate::template::GValue;
use crate::template::NextState;
use crate::template::Template;
use crate::template::scan_until;
use crate::template::scan_until_bounds;
use crate::template::strip_cr;
use crate::template::tpl_view;
use crate::template::rule_view;
use crate::template::state_view;
use crate::template::value_view;
use crate::template::values_view;

verus! {

// ---------------------------------------------------------------------
// Cells
// ---------------------------------------------------------------------

/// The current content of one value during interpretation.
pub enum Cell {
    Unset,
    Sc(String),
    Ls(Vec<String>),
}

/// Ghost counterpart of `Cell`.
pub enum GCell {
    Unset,
    Sc(Seq<char>),
    Ls(Seq<Seq<char>>),
}

pub open spec fn cell_view(c: Cell) -> GCell {
    match c {
        Cell::Unset => GCell::Unset,
        Cell::Sc(s) => GCell::Sc(s@),
        Cell::Ls(xs) => GCell::Ls(xs@.map_values(|x: String| x@)),
    }
}

pub open spec fn cells_view(cs: Seq<Cell>) -> Seq<GCell> {
    cs.map_values(|c: Cell| cell_view(c))
}

pub open spec fn crecs_view(rs: Seq<Vec<Cell>>) -> Seq<Seq<GCell>> {
    rs.map_values(|r: Vec<Cell>| cells_view(r@))
}

pub open spec fn cell_is_set(c: GCell) -> bool {
    !(c is Unset)
}

// ---------------------------------------------------------------------
// Input lines
// ---------------------------------------------------------------------

/// The input split on newlines, one trailing carriage return stripped
/// from each line; a trailing newline adds no empty final line.
pub open spec fn lines_from(s: Seq<char>, i: int) -> Seq<Seq<char>>
    decreases s.len() - i + 1,
        via lines_from_dec
{
    if !(0 <= i < s.len()) {
        Seq::empty()
    } else {
        let j = scan_until(s, i, '\n');
        seq![strip_cr(s.subrange(i, j))] + lines_from(s, j + 1)
    }
}

#[via_fn]
proof fn lines_from_dec(s: Seq<char>, i: int) {
    if 0 <= i < s.len() {
        scan_until_bounds(s, i, '\n');
    }
}

// ---------------------------------------------------------------------
// Cell updates
// ---------------------------------------------------------------------

/// Writes one captured span into the cells: `List` values gather, all
/// others overwrite. Spans outside the line and slots outside the
/// value table are ignored.
pub open spec fn apply_cap(
    values: Seq<GValue>,
    slot_vals: Seq<usize>,
    k: int,
    st: usize,
    en: usize,
    line: Seq<char>,
    cells: Seq<GCell>,
) -> Seq<GCell> {
    if !(0 <= k < slot_vals.len()) {
        cells
    } else {
        let vi = slot_vals[k] as int;
        if !(st <= en <= line.len()) || !(0 <= vi < values.len()) || !(vi < cells.len()) {
            cells
        } else {
            let text = line.subrange(st as int, en as int);
            if values[vi].list {
                let old_list = match cells[vi] {
                    GCell::Ls(xs) => xs,
                    _ => Seq::<Seq<char>>::empty(),
                };
                cells.update(vi, GCell::Ls(old_list.push(text)))
            } else {
                cells.update(vi, GCell::Sc(text))
            }
        }
    }
}

/// Writes every completed capture into the cells, in slot order.
pub open spec fn apply_caps(
    values: Seq<GValue>,
    slot_vals: Seq<usize>,
    caps: Seq<CapSt>,
    line: Seq<char>,
    cells: Seq<GCell>,
    k: int,
) -> Seq<GCell>
    decreases caps.len() - k,
{
    if !(0 <= k < caps.len()) {
        cells
    } else {
        let cells2 = match caps[k] {
            CapSt::Done(st, en) => apply_cap(values, slot_vals, k, st, en, line, cells),
            _ => cells,
        };
        apply_caps(values, slot_vals, caps, line, cells2, k + 1)
    }
}

/// Resets every cell whose value lacks `Filldown`.
pub open spec fn reset_cells(values: Seq<GValue>, cells: Seq<GCell>) -> Seq<GCell> {
    Seq::new(
        cells.len(),
        |i: int|
            if 0 <= i < values.len() && values[i].filldown {
                cells[i]
            } else {
                GCell::Unset
            },
    )
}

/// Resets every cell.
pub open spec fn clear_cells(cells: Seq<GCell>) -> Seq<GCell> {
    Seq::new(cells.len(), |i: int| GCell::Unset)
}

/// Whether every `Required` value has a set cell.
pub open spec fn required_ok(values: Seq<GValue>, cells: Seq<GCell>) -> bool {
    forall|i: int|
        0 <= i < values.len() && values[i].required ==> i < cells.len() && cell_is_set(cells[i])
}

/// Whether any value without `Filldown` has a set cell.
pub open spec fn any_volatile_set(values: Seq<GValue>, cells: Seq<GCell>) -> bool {
    exists|i: int|
        0 <= i < values.len() && !values[i].filldown && i < cells.len() && cell_is_set(cells[i])
}

// ---------------------------------------------------------------------
// Actions and line scanning
// ---------------------------------------------------------------------

/// State after executing a rule's action list.
#[verifier::ext_equal]
pub struct GActState {
    pub fail: bool,
    pub err: Seq<char>,
    pub cells: Seq<GCell>,
    pub recs: Seq<Seq<GCell>>,
    pub cont: bool,
}

/// Executes a rule's actions left to right. `Record` emits the cells
/// as a record only if every `Required` value is set, then resets the
/// non-`Filldown` cells; a suppressed emission changes nothing.
pub open spec fn run_actions(
    values: Seq<GValue>,
    actions: Seq<Action>,
    err_msg: Seq<char>,
    cells: Seq<GCell>,
    recs: Seq<Seq<GCell>>,
    j: int,
) -> GActState
    decreases actions.len() - j,
{
    if !(0 <= j < actions.len()) {
        GActState { fail: false, err: Seq::empty(), cells, recs, cont: false }
    } else {
        match actions[j] {
            Action::Rec => {
                if required_ok(values, cells) {
                    run_actions(
                        values,
                        actions,
                        err_msg,
                        reset_cells(values, cells),
                        recs.push(cells),
                        j + 1,
                    )
                } else {
                    run_actions(values, actions, err_msg, cells, recs, j + 1)
                }
            },
            Action::NoRec => run_actions(values, actions, err_msg, cells, recs, j + 1),
            Action::Clr => run_actions(
                values,
                actions,
                err_msg,
                reset_cells(values, cells),
                recs,
                j + 1,
            ),
            Action::ClrAll => run_actions(
                values,
                actions,
                err_msg,
                clear_cells(cells),
                recs,
                j + 1,
            ),
            Action::Cont => {
                let rest = run_actions(values, actions, err_msg, cells, recs, j + 1);
                GActState { cont: true, ..rest }
            },
            Action::Fail => GActState { fail: true, err: err_msg, cells, recs, cont: false },
        }
    }
}

/// State after a line has been scanned.
#[verifier::ext_equal]
pub struct GStep {
    pub fail: bool,
    pub err: Seq<char>,
    pub halt: bool,
    pub state: usize,
    pub cells: Seq<GCell>,
    pub recs: Seq<Seq<GCell>>,
}

/// Scans one line against the rules of `state`, starting at rule
/// `rstart`: the first matching rule fires its captures and actions;
/// `Continue` resumes the scan at the next rule; no match drops the
/// line.
pub open spec fn scan_line(
    t: GTemplate,
    line: Seq<char>,
    state: usize,
    rstart: int,
    cells: Seq<GCell>,
    recs: Seq<Seq<GCell>>,
) -> GStep
    decreases (if (state as int) < t.states.len() {
        t.states[state as int].rules.len()
    } else {
        0
    }) - rstart,
{
    if !((state as int) < t.states.len()) {
        GStep { fail: false, err: Seq::empty(), halt: false, state, cells, recs }
    } else {
        let rules = t.states[state as int].rules;
        if !(0 <= rstart < rules.len()) {
            GStep { fail: false, err: Seq::empty(), halt: false, state, cells, recs }
        } else {
            let r = rules[rstart];
            match match_spec(r.nodes, r.items, r.slot_vals.len(), r.root, line) {
                GMatch::Gas => GStep {
                    fail: true,
                    err: "rule limit exceeded"@,
                    halt: false,
                    state,
                    cells,
                    recs,
                },
                GMatch::Miss => scan_line(t, line, state, rstart + 1, cells, recs),
                GMatch::Hit { end: _, caps } => {
                    let cells2 = apply_caps(t.values, r.slot_vals, caps, line, cells, 0);
                    let a = run_actions(t.values, r.actions, r.err_msg, cells2, recs, 0);
                    if a.fail {
                        GStep { fail: true, err: a.err, halt: false, state, cells: a.cells, recs: a.recs }
                    } else if a.cont {
                        scan_line(t, line, state, rstart + 1, a.cells, a.recs)
                    } else {
                        match r.next {
                            NextState::Stay => GStep {
                                fail: false,
                                err: Seq::empty(),
                                halt: false,
                                state,
                                cells: a.cells,
                                recs: a.recs,
                            },
                            NextState::Halt => GStep {
                                fail: false,
                                err: Seq::empty(),
                                halt: true,
                                state,
                                cells: a.cells,
                                recs: a.recs,
                            },
                            NextState::To(s) => GStep {
                                fail: false,
                                err: Seq::empty(),
                                halt: false,
                                state: s,
                                cells: a.cells,
                                recs: a.recs,
                            },
                        }
                    }
                },
            }
        }
    }
}

/// Runs the machine over the remaining lines.
pub open spec fn run_lines(
    t: GTemplate,
    lines: Seq<Seq<char>>,
    li: int,
    state: usize,
    cells: Seq<GCell>,
    recs: Seq<Seq<GCell>>,
) -> GStep
    decreases lines.len() - li,
{
    if !(0 <= li < lines.len()) {
        GStep { fail: false, err: Seq::empty(), halt: false, state, cells, recs }
    } else {
        let st = scan_line(t, lines[li], state, 0, cells, recs);
        if st.fail || st.halt {
            st
        } else {
            run_lines(t, lines, li + 1, st.state, st.cells, st.recs)
        }
    }
}

/// The end-of-input step: an `EOF` state sees one empty line;
/// otherwise one final record is flushed if any non-`Filldown` cell is
/// set and every `Required` value is set.
pub open spec fn eof_step(t: GTemplate, cells: Seq<GCell>, recs: Seq<Seq<GCell>>) -> GStep {
    if t.has_eof {
        scan_line(t, Seq::empty(), t.eof, 0, cells, recs)
    } else {
        if any_volatile_set(t.values, cells) && required_ok(t.values, cells) {
            GStep {
                fail: false,
                err: Seq::empty(),
                halt: false,
                state: 0,
                cells,
                recs: recs.push(cells),
            }
        } else {
            GStep { fail: false, err: Seq::empty(), halt: false, state: 0, cells, recs }
        }
    }
}

// ---------------------------------------------------------------------
// Finalisation: Fillup, Filter, formatting
// ---------------------------------------------------------------------

/// The nearest set cell of value `vi` at or after record `i`.
pub open spec fn carry_at(recs: Seq<Seq<GCell>>, vi: int, i: int) -> GCell
    decreases recs.len() - i,
{
    if !(0 <= i < recs.len()) {
        GCell::Unset
    } else {
        let cur = if 0 <= vi < recs[i].len() {
            recs[i][vi]
        } else {
            GCell::Unset
        };
        if cell_is_set(cur) {
            cur
        } else {
            carry_at(recs, vi, i + 1)
        }
    }
}

/// Backward propagation of one `Fillup` value: each record's unset
/// cell takes the nearest later set cell of that value.
pub open spec fn fillup_one(recs: Seq<Seq<GCell>>, vi: int) -> Seq<Seq<GCell>> {
    Seq::new(
        recs.len(),
        |i: int|
            if 0 <= vi < recs[i].len() {
                recs[i].update(vi, carry_at(recs, vi, i))
            } else {
                recs[i]
            },
    )
}

/// Applies `fillup_one` for every value with `Fillup`.
pub open spec fn fillup_all(values: Seq<GValue>, recs: Seq<Seq<GCell>>, vi: int) -> Seq<
    Seq<GCell>,
>
    decreases values.len() - vi,
{
    if !(0 <= vi < values.len()) {
        recs
    } else {
        let recs2 = if values[vi].fillup {
            fillup_one(recs, vi)
        } else {
            recs
        };
        fillup_all(values, recs2, vi + 1)
    }
}

/// One output field: an unset scalar shows as the empty string, an
/// unset list as the empty list.
pub open spec fn field_of(v: GValue, c: GCell) -> GField {
    GField {
        name: v.name,
        value: match c {
            GCell::Unset => if v.list {
                GVal::L(Seq::empty())
            } else {
                GVal::S(Seq::empty())
            },
            GCell::Sc(s) => GVal::S(s),
            GCell::Ls(xs) => GVal::L(xs),
        },
    }
}

/// Formats one internal record: fields in declaration order, `Filter`
/// values omitted.
pub open spec fn format_rec(values: Seq<GValue>, cells: Seq<GCell>, i: int) -> Seq<GField>
    decreases values.len() - i,
{
    if !(0 <= i < values.len()) {
        Seq::empty()
    } else {
        let rest = format_rec(values, cells, i + 1);
        if values[i].filter {
            rest
        } else {
            let c = if i < cells.len() {
                cells[i]
            } else {
                GCell::Unset
            };
            seq![field_of(values[i], c)] + rest
        }
    }
}

pub open spec fn format_recs(values: Seq<GValue>, recs: Seq<Seq<GCell>>) -> Seq<Seq<GField>> {
    Seq::new(recs.len(), |i: int| format_rec(values, recs[i], 0))
}

/// The outcome of a run.
#[verifier::ext_equal]
pub struct GRun {
    pub fail: bool,
    pub err: Seq<char>,
    pub recs: Seq<Seq<GField>>,
}

/// What running a compiled template over raw output yields.
pub open spec fn run_spec(t: GTemplate, out: Seq<char>) -> GRun {
    let lines = lines_from(out, 0);
    let cells0 = Seq::new(t.values.len(), |i: int| GCell::Unset);
    let rl = run_lines(t, lines, 0, t.start, cells0, Seq::empty());
    if rl.fail {
        GRun { fail: true, err: rl.err, recs: Seq::empty() }
    } else {
        let ef = eof_step(t, rl.cells, rl.recs);
        if ef.fail {
            GRun { fail: true, err: ef.err, recs: Seq::empty() }
        } else {
            let filled = fillup_all(t.values, ef.recs, 0);
            GRun { fail: false, err: Seq::empty(), recs: format_recs(t.values, filled) }
        }
    }
}

// ---------------------------------------------------------------------
// Executable interpreter
// ---------------------------------------------------------------------

fn clone_strings(xs: &Vec<String>) -> (r: Vec<String>)
    ensures
        r@.map_values(|x: String| x@) == xs@.map_values(|x: String| x@),
{
    let mut out: Vec<String> = Vec::new();
    let mut i: usize = 0;
    while i < xs.len()
        invariant
            i <= xs@.len(),
            out@.len() == i as int,
            forall|j: int| 0 <= j < i ==> out@[j]@ == xs@[j]@,
        decreases xs@.len() - i,
    {
        out.push(xs[i].clone());
        i = i + 1;
    }
    proof {
        assert(out@.map_values(|x: String| x@) =~= xs@.map_values(|x: String| x@));
    }
    out
}

fn clone_cell(c: &Cell) -> (r: Cell)
    ensures
        cell_view(r) == cell_view(*c),
{
    match c {
        Cell::Unset => Cell::Unset,
        Cell::Sc(s) => Cell::Sc(s.clone()),
        Cell::Ls(xs) => Cell::Ls(clone_strings(xs)),
    }
}

fn clone_cells(cs: &Vec<Cell>) -> (r: Vec<Cell>)
    ensures
        cells_view(r@) == cells_view(cs@),
{
    let mut out: Vec<Cell> = Vec::new();
    let mut i: usize = 0;
    while i < cs.len()
        invariant
            i <= cs@.len(),
            out@.len() == i as int,
            forall|j: int| 0 <= j < i ==> cell_view(out@[j]) == cell_view(cs@[j]),
        decreases cs@.len() - i,
    {
        out.push(clone_cell(&cs[i]));
        i = i + 1;
    }
    proof {
        assert(cells_view(out@) =~= cells_view(cs@));
    }
    out
}

/// Splits raw output into lines.
fn split_lines(s: &str, n: usize) -> (r: Vec<String>)
    requires
        n == s@.len(),
    ensures
        r@.map_values(|x: String| x@) == lines_from(s@, 0),
{
    let mut out: Vec<String> = Vec::new();
    let mut i: usize = 0;
    while i < n
        invariant
            n == s@.len(),
            i <= n,
            lines_from(s@, 0) =~= out@.map_values(|x: String| x@) + lines_from(s@, i as int),
        decreases n - i,
    {
        let j = crate::template::scan_until_exec(s, n, i, '\n');
        let raw = s.substring_char(i, j);
        let rl = j - i;
        proof {
            assert(raw@ =~= s@.subrange(i as int, j as int));
        }
        let line: String = if rl > 0 && raw.get_char(rl - 1) == '\r' {
            let t = raw.substring_char(0, rl - 1);
            proof {
                assert(t@ =~= strip_cr(s@.subrange(i as int, j as int)));
            }
            String::from_str(t)
        } else {
            proof {
                assert(raw@ =~= strip_cr(s@.subrange(i as int, j as int)));
            }
            String::from_str(raw)
        };
        out.push(line);
        proof {
            assert(lines_from(s@, 0) =~= out@.map_values(|x: String| x@) + lines_from(
                s@,
                j as int + 1,
            ));
        }
        if j < n {
            i = j + 1;
        } else {
            i = n;
            proof {
                assert(lines_from(s@, j as int + 1) =~= Seq::<Seq<char>>::empty());
                assert(lines_from(s@, i as int) =~= Seq::<Seq<char>>::empty());
            }
        }
        proof {
            assert(lines_from(s@, 0) =~= out@.map_values(|x: String| x@) + lines_from(
                s@,
                i as int,
            ));
        }
    }
    proof {
        assert(lines_from(s@, i as int) =~= Seq::<Seq<char>>::empty());
        assert(lines_from(s@, 0) =~= out@.map_values(|x: String| x@));
    }
    out
}

fn apply_caps_exec(
    values: &Vec<ValueDef>,
    slot_vals: &Vec<usize>,
    caps: &Vec<CapSt>,
    line: &str,
    ll: usize,
    cells: Vec<Cell>,
    k: usize,
) -> (r: Vec<Cell>)
    requires
        ll == line@.len(),
    ensures
        cells_view(r@) == apply_caps(
            values_view(values@),
            slot_vals@,
            caps@,
            line@,
            cells_view(cells@),
            k as int,
        ),
    decreases caps@.len() - k,
{
    if !(k < caps.len()) {
        return cells;
    }
    let mut cells = cells;
    let ghost pre = cells_view(cells@);
    match caps[k] {
        CapSt::Done(st, en) => {
            if k < slot_vals.len() {
                let vi = slot_vals[k];
                if st <= en && en <= ll && vi < values.len() && vi < cells.len() {
                    let text = String::from_str(line.substring_char(st, en));
                    proof {
                        assert(text@ =~= line@.subrange(st as int, en as int));
                        assert(values_view(values@)[vi as int] == value_view(values@[vi as int]));
                    }
                    if values[vi].list {
                        let mut xs: Vec<String> = match &cells[vi] {
                            Cell::Ls(old_xs) => clone_strings(old_xs),
                            _ => Vec::new(),
                        };
                        xs.push(text);
                        cells[vi] = Cell::Ls(xs);
                        proof {
                            assert(cells_view(cells@) =~= apply_cap(
                                values_view(values@),
                                slot_vals@,
                                k as int,
                                st,
                                en,
                                line@,
                                pre,
                            )) by {
                                assert(xs@.map_values(|x: String| x@) =~= (match pre[vi as int] {
                                    GCell::Ls(ys) => ys,
                                    _ => Seq::<Seq<char>>::empty(),
                                }).push(line@.subrange(st as int, en as int)));
                            }
                        }
                    } else {
                        cells[vi] = Cell::Sc(text);
                        proof {
                            assert(cells_view(cells@) =~= apply_cap(
                                values_view(values@),
                                slot_vals@,
                                k as int,
                                st,
                                en,
                                line@,
                                pre,
                            ));
                        }
                    }
                } else {
                    proof {
                        assert(cells_view(cells@) == apply_cap(
                            values_view(values@),
                            slot_vals@,
                            k as int,
                            st,
                            en,
                            line@,
                            pre,
                        ));
                    }
                }
            } else {
                proof {
                    assert(cells_view(cells@) == apply_cap(
                        values_view(values@),
                        slot_vals@,
                        k as int,
                        st,
                        en,
                        line@,
                        pre,
                    ));
                }
            }
        },
        _ => {},
    }
    apply_caps_exec(values, slot_vals, caps, line, ll, cells, k + 1)
}

fn reset_cells_exec(values: &Vec<ValueDef>, cells: Vec<Cell>) -> (r: Vec<Cell>)
    ensures
        cells_view(r@) == reset_cells(values_view(values@), cells_view(cells@)),
{
    let mut out: Vec<Cell> = Vec::new();
    let mut i: usize = 0;
    while i < cells.len()
        invariant
            i <= cells@.len(),
            out@.len() == i as int,
            forall|j: int|
                0 <= j < i ==> cell_view(out@[j]) == reset_cells(
                    values_view(values@),
                    cells_view(cells@),
                )[j],
        decreases cells@.len() - i,
    {
        proof {
            assert(values_view(values@).len() == values@.len());
        }
        if i < values.len() && values[i].filldown {
            proof {
                assert(values_view(values@)[i as int] == value_view(values@[i as int]));
            }
            out.push(clone_cell(&cells[i]));
        } else {
            out.push(Cell::Unset);
        }
        i = i + 1;
    }
    proof {
        assert(cells_view(out@) =~= reset_cells(values_view(values@), cells_view(cells@)));
    }
    out
}

fn clear_cells_exec(cells: Vec<Cell>) -> (r: Vec<Cell>)
    ensures
        cells_view(r@) == clear_cells(cells_view(cells@)),
{
    let mut out: Vec<Cell> = Vec::new();
    let mut i: usize = 0;
    while i < cells.len()
        invariant
            i <= cells@.len(),
            out@.len() == i as int,
            forall|j: int| 0 <= j < i ==> cell_view(out@[j]) == GCell::Unset,
        decreases cells@.len() - i,
    {
        out.push(Cell::Unset);
        i = i + 1;
    }
    proof {
        assert(cells_view(out@) =~= clear_cells(cells_view(cells@)));
    }
    out
}

fn cell_is_set_exec(c: &Cell) -> (r: bool)
    ensures
        r == cell_is_set(cell_view(*c)),
{
    match c {
        Cell::Unset => false,
        _ => true,
    }
}

fn required_ok_exec(values: &Vec<ValueDef>, cells: &Vec<Cell>) -> (r: bool)
    ensures
        r == required_ok(values_view(values@), cells_view(cells@)),
{
    let mut i: usize = 0;
    while i < values.len()
        invariant
            i <= values@.len(),
            forall|j: int|
                0 <= j < i && values_view(values@)[j].required ==> j < cells_view(
                    cells@,
                ).len() && cell_is_set(cells_view(cells@)[j]),
        decreases values@.len() - i,
    {
        proof {
            assert(values_view(values@)[i as int] == value_view(values@[i as int]));
        }
        if values[i].required {
            if !(i < cells.len()) {
                proof {
                    assert(!required_ok(values_view(values@), cells_view(cells@)));
                }
                return false;
            }
            if !cell_is_set_exec(&cells[i]) {
                proof {
                    assert(cells_view(cells@)[i as int] == cell_view(cells@[i as int]));
                    assert(!required_ok(values_view(values@), cells_view(cells@)));
                }
                return false;
            }
            proof {
                assert(cells_view(cells@)[i as int] == cell_view(cells@[i as int]));
            }
        }
        i = i + 1;
    }
    true
}

fn any_volatile_set_exec(values: &Vec<ValueDef>, cells: &Vec<Cell>) -> (r: bool)
    ensures
        r == any_volatile_set(values_view(values@), cells_view(cells@)),
{
    let mut i: usize = 0;
    while i < values.len()
        invariant
            i <= values@.len(),
            forall|j: int|
                0 <= j < i ==> !(values_view(values@)[j].filldown == false && j < cells_view(
                    cells@,
                ).len() && cell_is_set(cells_view(cells@)[j])),
        decreases values@.len() - i,
    {
        proof {
            assert(values_view(values@)[i as int] == value_view(values@[i as int]));
        }
        if !values[i].filldown && i < cells.len() {
            if cell_is_set_exec(&cells[i]) {
                proof {
                    assert(cells_view(cells@)[i as int] == cell_view(cells@[i as int]));
                    assert(any_volatile_set(values_view(values@), cells_view(cells@)));
                }
                return true;
            }
            proof {
                assert(cells_view(cells@)[i as int] == cell_view(cells@[i as int]));
            }
        }
        i = i + 1;
    }
    proof {
        assert(!any_volatile_set(values_view(values@), cells_view(cells@)));
    }
    false
}

/// State carried out of action execution.
struct ActOut {
    pub fail: bool,
    pub err: String,
    pub cells: Vec<Cell>,
    pub recs: Vec<Vec<Cell>>,
    pub cont: bool,
}

fn run_actions_exec(
    values: &Vec<ValueDef>,
    actions: &Vec<Action>,
    err_msg: &String,
    cells: Vec<Cell>,
    recs: Vec<Vec<Cell>>,
    j: usize,
) -> (r: ActOut)
    ensures
        ({
            let g = run_actions(
                values_view(values@),
                actions@,
                err_msg@,
                cells_view(cells@),
                crecs_view(recs@),
                j as int,
            );
            r.fail == g.fail && r.err@ == g.err && cells_view(r.cells@) == g.cells && crecs_view(
                r.recs@,
            ) == g.recs && r.cont == g.cont
        }),
    decreases actions@.len() - j,
{
    if !(j < actions.len()) {
        return ActOut { fail: false, err: String::new(), cells, recs, cont: false };
    }
    match actions[j] {
        Action::Rec => {
            if required_ok_exec(values, &cells) {
                let snapshot = clone_cells(&cells);
                let mut recs = recs;
                let ghost pre_recs = crecs_view(recs@);
                recs.push(snapshot);
                proof {
                    assert(crecs_view(recs@) =~= pre_recs.push(cells_view(cells@)));
                }
                let cells2 = reset_cells_exec(values, cells);
                run_actions_exec(values, actions, err_msg, cells2, recs, j + 1)
            } else {
                run_actions_exec(values, actions, err_msg, cells, recs, j + 1)
            }
        },
        Action::NoRec => run_actions_exec(values, actions, err_msg, cells, recs, j + 1),
        Action::Clr => {
            let cells2 = reset_cells_exec(values, cells);
            run_actions_exec(values, actions, err_msg, cells2, recs, j + 1)
        },
        Action::ClrAll => {
            let cells2 = clear_cells_exec(cells);
            run_actions_exec(values, actions, err_msg, cells2, recs, j + 1)
        },
        Action::Cont => {
            let rest = run_actions_exec(values, actions, err_msg, cells, recs, j + 1);
            ActOut { cont: true, ..rest }
        },
        Action::Fail => ActOut {
            fail: true,
            err: err_msg.clone(),
            cells,
            recs,
            cont: false,
        },
    }
}

/// State carried out of a line scan.
struct StepOut {
    pub fail: bool,
    pub err: String,
    pub halt: bool,
    pub state: usize,
    pub cells: Vec<Cell>,
    pub recs: Vec<Vec<Cell>>,
}

/// The rule count of a state, for termination of the line scan.
pub open spec fn rules_len_of(t: Template, state: usize) -> int {
    if (state as int) < t.states@.len() {
        t.states@[state as int].rules@.len() as int
    } else {
        0
    }
}

#[verifier::rlimit(80)]
fn scan_line_exec(
    t: &Template,
    line: &str,
    ll: usize,
    state: usize,
    rstart: usize,
    cells: Vec<Cell>,
    recs: Vec<Vec<Cell>>,
) -> (r: StepOut)
    requires
        ll == line@.len(),
    ensures
        ({
            let g = scan_line(
                tpl_view(*t),
                line@,
                state,
                rstart as int,
                cells_view(cells@),
                crecs_view(recs@),
            );
            r.fail == g.fail && r.err@ == g.err && r.halt == g.halt && r.state == g.state
                && cells_view(r.cells@) == g.cells && crecs_view(r.recs@) == g.recs
        }),
    decreases rules_len_of(*t, state) - rstart,
{
    proof {
        assert(tpl_view(*t).states.len() == t.states@.len());
    }
    if !(state < t.states.len()) {
        return StepOut { fail: false, err: String::new(), halt: false, state, cells, recs };
    }
    proof {
        assert(tpl_view(*t).states[state as int] == state_view(t.states@[state as int]));
    }
    let nrules = t.states[state].rules.len();
    if !(rstart < nrules) {
        return StepOut { fail: false, err: String::new(), halt: false, state, cells, recs };
    }
    proof {
        assert(tpl_view(*t).states[state as int].rules[rstart as int] == rule_view(
            t.states@[state as int].rules@[rstart as int],
        ));
        assert(tpl_view(*t).values == values_view(t.values@));
    }
    let rule = &t.states[state].rules[rstart];
    let m = match_anchored(&rule.pat, rule.slot_vals.len(), line, ll);
    match m {
        MatchOut::Gas => StepOut {
            fail: true,
            err: String::from_str("rule limit exceeded"),
            halt: false,
            state,
            cells,
            recs,
        },
        MatchOut::Miss => scan_line_exec(t, line, ll, state, rstart + 1, cells, recs),
        MatchOut::Hit(_, caps) => {
            let cells2 = apply_caps_exec(&t.values, &rule.slot_vals, &caps, line, ll, cells, 0);
            let a = run_actions_exec(&t.values, &rule.actions, &rule.err_msg, cells2, recs, 0);
            if a.fail {
                StepOut { fail: true, err: a.err, halt: false, state, cells: a.cells, recs: a.recs }
            } else if a.cont {
                scan_line_exec(t, line, ll, state, rstart + 1, a.cells, a.recs)
            } else {
                match rule.next {
                    NextState::Stay => StepOut {
                        fail: false,
                        err: String::new(),
                        halt: false,
                        state,
                        cells: a.cells,
                        recs: a.recs,
                    },
                    NextState::Halt => StepOut {
                        fail: false,
                        err: String::new(),
                        halt: true,
                        state,
                        cells: a.cells,
                        recs: a.recs,
                    },
                    NextState::To(s) => StepOut {
                        fail: false,
                        err: String::new(),
                        halt: false,
                        state: s,
                        cells: a.cells,
                        recs: a.recs,
                    },
                }
            }
        },
    }
}

fn run_lines_exec(
    t: &Template,
    lines: &Vec<String>,
    li: usize,
    state: usize,
    cells: Vec<Cell>,
    recs: Vec<Vec<Cell>>,
) -> (r: StepOut)
    ensures
        ({
            let g = run_lines(
                tpl_view(*t),
                lines@.map_values(|x: String| x@),
                li as int,
                state,
                cells_view(cells@),
                crecs_view(recs@),
            );
            r.fail == g.fail && r.err@ == g.err && r.state == g.state && cells_view(r.cells@)
                == g.cells && crecs_view(r.recs@) == g.recs
        }),
    decreases lines@.len() - li,
{
    if !(li < lines.len()) {
        return StepOut { fail: false, err: String::new(), halt: false, state, cells, recs };
    }
    proof {
        assert(lines@.map_values(|x: String| x@)[li as int] == lines@[li as int]@);
    }
    let line = lines[li].as_str();
    let ll = line.unicode_len();
    let st = scan_line_exec(t, line, ll, state, 0, cells, recs);
    if st.fail || st.halt {
        st
    } else {
        run_lines_exec(t, lines, li + 1, st.state, st.cells, st.recs)
    }
}

fn eof_step_exec(t: &Template, cells: Vec<Cell>, recs: Vec<Vec<Cell>>) -> (r: StepOut)
    ensures
        ({
            let g = eof_step(tpl_view(*t), cells_view(cells@), crecs_view(recs@));
            r.fail == g.fail && r.err@ == g.err && crecs_view(r.recs@) == g.recs
        }),
{
    if t.has_eof {
        let empty_line = "";
        proof {
            reveal_strlit("");
            assert(empty_line@ =~= Seq::<char>::empty());
        }
        scan_line_exec(t, empty_line, 0, t.eof, 0, cells, recs)
    } else {
        if any_volatile_set_exec(&t.values, &cells) && required_ok_exec(&t.values, &cells) {
            proof {
                assert(tpl_view(*t).values == values_view(t.values@));
            }
            let snapshot = clone_cells(&cells);
            let mut recs = recs;
            let ghost pre_recs = crecs_view(recs@);
            recs.push(snapshot);
            proof {
                assert(crecs_view(recs@) =~= pre_recs.push(cells_view(cells@)));
            }
            StepOut { fail: false, err: String::new(), halt: false, state: 0, cells, recs }
        } else {
            proof {
                assert(tpl_view(*t).values == values_view(t.values@));
            }
            StepOut { fail: false, err: String::new(), halt: false, state: 0, cells, recs }
        }
    }
}

fn carry_at_exec(recs: &Vec<Vec<Cell>>, vi: usize, i: usize) -> (r: Cell)
    ensures
        cell_view(r) == carry_at(crecs_view(recs@), vi as int, i as int),
    decreases recs@.len() - i,
{
    if !(i < recs.len()) {
        return Cell::Unset;
    }
    proof {
        assert(crecs_view(recs@)[i as int] == cells_view(recs@[i as int]@));
    }
    if vi < recs[i].len() {
        proof {
            assert(cells_view(recs@[i as int]@)[vi as int] == cell_view(recs@[i as int]@[
                vi as int
            ]));
        }
        if cell_is_set_exec(&recs[i][vi]) {
            return clone_cell(&recs[i][vi]);
        }
    }
    carry_at_exec(recs, vi, i + 1)
}

fn fillup_one_exec(recs: Vec<Vec<Cell>>, vi: usize) -> (r: Vec<Vec<Cell>>)
    ensures
        crecs_view(r@) == fillup_one(crecs_view(recs@), vi as int),
{
    let mut out: Vec<Vec<Cell>> = Vec::new();
    let mut i: usize = 0;
    while i < recs.len()
        invariant
            i <= recs@.len(),
            out@.len() == i as int,
            forall|j: int|
                0 <= j < i ==> cells_view(out@[j]@) == fillup_one(crecs_view(recs@), vi as int)[j],
        decreases recs@.len() - i,
    {
        proof {
            assert(crecs_view(recs@)[i as int] == cells_view(recs@[i as int]@));
        }
        let mut rc = clone_cells(&recs[i]);
        if vi < rc.len() {
            let carry = carry_at_exec(&recs, vi, i);
            rc[vi] = carry;
            proof {
                assert(cells_view(rc@) =~= crecs_view(recs@)[i as int].update(
                    vi as int,
                    carry_at(crecs_view(recs@), vi as int, i as int),
                ));
            }
        }
        out.push(rc);
        i = i + 1;
    }
    proof {
        assert(crecs_view(out@) =~= fillup_one(crecs_view(recs@), vi as int));
    }
    out
}

fn fillup_all_exec(values: &Vec<ValueDef>, recs: Vec<Vec<Cell>>, vi: usize) -> (r: Vec<Vec<Cell>>)
    ensures
        crecs_view(r@) == fillup_all(values_view(values@), crecs_view(recs@), vi as int),
    decreases values@.len() - vi,
{
    if !(vi < values.len()) {
        return recs;
    }
    proof {
        assert(values_view(values@)[vi as int] == value_view(values@[vi as int]));
    }
    let recs2 = if values[vi].fillup {
        fillup_one_exec(recs, vi)
    } else {
        recs
    };
    fillup_all_exec(values, recs2, vi + 1)
}

fn field_of_exec(v: &ValueDef, c: &Cell) -> (r: Field)
    ensures
        field_view(r) == field_of(value_view(*v), cell_view(*c)),
{
    let value = match c {
        Cell::Unset => {
            if v.list {
                let ys: Vec<String> = Vec::new();
                proof {
                    assert(ys@.map_values(|x: String| x@) =~= Seq::<Seq<char>>::empty());
                }
                FieldVal::L(ys)
            } else {
                FieldVal::S(String::new())
            }
        },
        Cell::Sc(s) => FieldVal::S(s.clone()),
        Cell::Ls(xs) => FieldVal::L(clone_strings(xs)),
    };
    Field { name: v.name.clone(), value }
}

fn format_rec_exec(values: &Vec<ValueDef>, cells: &Vec<Cell>, i: usize) -> (r: Vec<Field>)
    ensures
        r@.map_values(|f: Field| field_view(f)) == format_rec(
            values_view(values@),
            cells_view(cells@),
            i as int,
        ),
    decreases values@.len() - i,
{
    if !(i < values.len()) {
        let out: Vec<Field> = Vec::new();
        proof {
            assert(out@.map_values(|f: Field| field_view(f)) =~= Seq::<GField>::empty());
        }
        return out;
    }
    proof {
        assert(values_view(values@)[i as int] == value_view(values@[i as int]));
    }
    let rest = format_rec_exec(values, cells, i + 1);
    if values[i].filter {
        rest
    } else {
        let c: &Cell = if i < cells.len() {
            &cells[i]
        } else {
            &Cell::Unset
        };
        proof {
            if (i as int) < cells@.len() {
                assert(cells_view(cells@)[i as int] == cell_view(cells@[i as int]));
            }
        }
        let f = field_of_exec(&values[i], c);
        let mut out = rest;
        out.insert(0, f);
        proof {
            assert(out@.map_values(|x: Field| field_view(x)) =~= seq![field_view(f)] + out@
                .map_values(|x: Field| field_view(x)).drop_first());
            assert(out@.map_values(|x: Field| field_view(x)).drop_first() =~= rest@.map_values(
                |x: Field| field_view(x),
            ));
        }
        out
    }
}

/// Runs a compiled template over raw output text. Returns the emitted
/// records, or the engine error exactly when the specification run
/// reports one.
pub fn run(t: &Template, out_text: &str) -> (r: Result<Vec<Record>, String>)
    ensures
        ({
            let g = run_spec(tpl_view(*t), out_text@);
            match r {
                Ok(recs) => !g.fail && records_view(recs@) == g.recs,
                Err(e) => g.fail && e@ == g.err,
            }
        }),
{
    let n = out_text.unicode_len();
    let lines = split_lines(out_text, n);
    let mut cells0: Vec<Cell> = Vec::new();
    let mut i: usize = 0;
    let nv = t.values.len();
    while i < nv
        invariant
            i <= nv,
            cells0@.len() == i as int,
            forall|j: int| 0 <= j < i ==> cell_view(cells0@[j]) == GCell::Unset,
        decreases nv - i,
    {
        cells0.push(Cell::Unset);
        i = i + 1;
    }
    proof {
        assert(tpl_view(*t).values.len() == t.values@.len());
        assert(cells_view(cells0@) =~= Seq::new(tpl_view(*t).values.len(), |j: int| GCell::Unset));
        assert(crecs_view(Seq::<Vec<Cell>>::empty()) =~= Seq::<Seq<GCell>>::empty());
    }
    let recs0: Vec<Vec<Cell>> = Vec::new();
    proof {
        assert(crecs_view(recs0@) =~= Seq::<Seq<GCell>>::empty());
    }
    let rl = run_lines_exec(t, &lines, 0, t.start, cells0, recs0);
    if rl.fail {
        return Err(rl.err);
    }
    let ef = eof_step_exec(t, rl.cells, rl.recs);
    if ef.fail {
        return Err(ef.err);
    }
    let filled = fillup_all_exec(&t.values, ef.recs, 0);
    let mut out: Vec<Record> = Vec::new();
    let mut ri: usize = 0;
    while ri < filled.len()
        invariant
            ri <= filled@.len(),
            out@.len() == ri as int,
            forall|j: int|
                0 <= j < ri ==> record_view(out@[j]) == format_rec(
                    values_view(t.values@),
                    crecs_view(filled@)[j],
                    0,
                ),
        decreases filled@.len() - ri,
    {
        proof {
            assert(crecs_view(filled@)[ri as int] == cells_view(filled@[ri as int]@));
        }
        let fields = format_rec_exec(&t.values, &filled[ri], 0);
        out.push(Record { fields });
        ri = ri + 1;
    }
    proof {
        let g = run_spec(tpl_view(*t), out_text@);
        assert(tpl_view(*t).values == values_view(t.values@));
        assert(records_view(out@) =~= format_recs(values_view(t.values@), crecs_view(filled@)));
    }
    Ok(out)
}

} // verus!
