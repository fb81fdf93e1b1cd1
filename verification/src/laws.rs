//! Laws of the library, stated over the specification functions that
//! the executable functions are verified against.

use vstd::prelude::*;
use crate::engine::GCell;
use crate::engine::apply_cap;
use crate::engine::carry_at;
use crate::engine::cell_is_set;
use crate::engine::eof_step;
use crate::engine::fillup_all;
use crate::engine::fillup_one;
use crate::engine::lines_from;
use crate::engine::required_ok;
use crate::engine::run_actions;
use crate::engine::run_lines;
use crate::engine::scan_line;
use crate::matcher::GMatch;
use crate::matcher::match_spec;
use crate::parse::GParsed;
use crate::parse::code_spec;
use crate::parse::parse_command_spec;
use crate::parse::parse_records_spec;
use crate::registry::lookup_command_spec;
use crate::registry::lookup_spec;
use crate::registry::normalize_command_spec;
use crate::registry::resolve_platform_spec;
use crate::template::GTemplate;
use crate::template::GValue;
use crate::template::Action;
use crate::text::has_prefix;
use crate::parse::parse_json_spec;

verus! {

/// The error code of a parse outcome; empty on success.
pub open spec fn parsed_code(r: GParsed) -> Seq<char> {
    match r {
        GParsed::Recs(_) => Seq::empty(),
        GParsed::Fail(e) => code_spec(e),
    }
}

/// Facade idempotence under normalization: two spellings of a command
/// that normalize to the same registered key parse identically, for
/// every platform and output.
pub proof fn command_spellings_agree(p: Seq<char>, c1: Seq<char>, c2: Seq<char>, o: Seq<char>)
    requires
        normalize_command_spec(c1) == normalize_command_spec(c2),
        lookup_spec(p, normalize_command_spec(c1)) is Some,
    ensures
        parse_command_spec(p, c1, o) == parse_command_spec(p, c2, o),
{
    if p.len() == 0 {
    } else if normalize_command_spec(c1).len() == 0 {
    } else if o.len() == 0 {
    } else {
        assert(lookup_command_spec(p, c1) == lookup_command_spec(p, c2));
    }
}

/// Alias identity: two platform spellings that resolve to the same
/// canonical platform yield the same records on success, and errors
/// with the same code otherwise, for every key and output.
pub proof fn alias_platforms_agree(p1: Seq<char>, p2: Seq<char>, k: Seq<char>, o: Seq<char>)
    requires
        resolve_platform_spec(p1) == resolve_platform_spec(p2),
        p1.len() > 0,
        p2.len() > 0,
    ensures
        ({
            let r1 = parse_records_spec(p1, k, o);
            let r2 = parse_records_spec(p2, k, o);
            &&& (r1 is Recs <==> r2 is Recs)
            &&& (r1 is Recs ==> r1 == r2)
            &&& parsed_code(r1) == parsed_code(r2)
        }),
{
    assert(lookup_spec(p1, k) == lookup_spec(p2, k));
}

/// Whether every record of the list satisfies the `Required` gate.
pub open spec fn recs_required_ok(values: Seq<GValue>, recs: Seq<Seq<GCell>>) -> bool {
    forall|r: int| 0 <= r < recs.len() ==> required_ok(values, #[trigger] recs[r])
}

proof fn lemma_run_actions_req(
    values: Seq<GValue>,
    actions: Seq<Action>,
    err_msg: Seq<char>,
    cells: Seq<GCell>,
    recs: Seq<Seq<GCell>>,
    j: int,
)
    requires
        recs_required_ok(values, recs),
    ensures
        recs_required_ok(values, run_actions(values, actions, err_msg, cells, recs, j).recs),
    decreases actions.len() - j,
{
    if 0 <= j < actions.len() {
        match actions[j] {
            Action::Rec => {
                if required_ok(values, cells) {
                    assert(recs_required_ok(values, recs.push(cells)));
                    lemma_run_actions_req(
                        values,
                        actions,
                        err_msg,
                        crate::engine::reset_cells(values, cells),
                        recs.push(cells),
                        j + 1,
                    );
                } else {
                    lemma_run_actions_req(values, actions, err_msg, cells, recs, j + 1);
                }
            },
            Action::NoRec => {
                lemma_run_actions_req(values, actions, err_msg, cells, recs, j + 1);
            },
            Action::Clr => {
                lemma_run_actions_req(
                    values,
                    actions,
                    err_msg,
                    crate::engine::reset_cells(values, cells),
                    recs,
                    j + 1,
                );
            },
            Action::ClrAll => {
                lemma_run_actions_req(
                    values,
                    actions,
                    err_msg,
                    crate::engine::clear_cells(cells),
                    recs,
                    j + 1,
                );
            },
            Action::Cont => {
                lemma_run_actions_req(values, actions, err_msg, cells, recs, j + 1);
            },
            Action::Fail => {},
        }
    }
}

proof fn lemma_scan_line_req(
    t: GTemplate,
    line: Seq<char>,
    state: usize,
    rstart: int,
    cells: Seq<GCell>,
    recs: Seq<Seq<GCell>>,
)
    requires
        recs_required_ok(t.values, recs),
    ensures
        recs_required_ok(t.values, scan_line(t, line, state, rstart, cells, recs).recs),
    decreases (if (state as int) < t.states.len() {
        t.states[state as int].rules.len()
    } else {
        0
    }) - rstart,
{
    if (state as int) < t.states.len() {
        let rules = t.states[state as int].rules;
        if 0 <= rstart < rules.len() {
            let r = rules[rstart];
            match match_spec(r.nodes, r.items, r.slot_vals.len(), r.root, line) {
                GMatch::Gas => {},
                GMatch::Miss => {
                    lemma_scan_line_req(t, line, state, rstart + 1, cells, recs);
                },
                GMatch::Hit { end: _, caps } => {
                    let cells2 = crate::engine::apply_caps(
                        t.values,
                        r.slot_vals,
                        caps,
                        line,
                        cells,
                        0,
                    );
                    lemma_run_actions_req(t.values, r.actions, r.err_msg, cells2, recs, 0);
                    let a = run_actions(t.values, r.actions, r.err_msg, cells2, recs, 0);
                    if !a.fail && a.cont {
                        lemma_scan_line_req(t, line, state, rstart + 1, a.cells, a.recs);
                    }
                },
            }
        }
    }
}

proof fn lemma_run_lines_req(
    t: GTemplate,
    lines: Seq<Seq<char>>,
    li: int,
    state: usize,
    cells: Seq<GCell>,
    recs: Seq<Seq<GCell>>,
)
    requires
        recs_required_ok(t.values, recs),
    ensures
        recs_required_ok(t.values, run_lines(t, lines, li, state, cells, recs).recs),
    decreases lines.len() - li,
{
    if 0 <= li < lines.len() {
        lemma_scan_line_req(t, lines[li], state, 0, cells, recs);
        let st = scan_line(t, lines[li], state, 0, cells, recs);
        if !(st.fail || st.halt) {
            lemma_run_lines_req(t, lines, li + 1, st.state, st.cells, st.recs);
        }
    }
}

proof fn lemma_eof_req(t: GTemplate, cells: Seq<GCell>, recs: Seq<Seq<GCell>>)
    requires
        recs_required_ok(t.values, recs),
    ensures
        recs_required_ok(t.values, eof_step(t, cells, recs).recs),
{
    if t.has_eof {
        lemma_scan_line_req(t, Seq::empty(), t.eof, 0, cells, recs);
    } else {
        if crate::engine::any_volatile_set(t.values, cells) && required_ok(t.values, cells) {
            assert(recs_required_ok(t.values, recs.push(cells)));
        }
    }
}

proof fn lemma_fillup_one_req(values: Seq<GValue>, recs: Seq<Seq<GCell>>, vi: int)
    requires
        recs_required_ok(values, recs),
    ensures
        recs_required_ok(values, fillup_one(recs, vi)),
{
    let out = fillup_one(recs, vi);
    assert forall|r: int| 0 <= r < out.len() implies required_ok(values, #[trigger] out[r]) by {
        assert(required_ok(values, recs[r]));
        assert forall|i: int|
            0 <= i < values.len() && values[i].required implies i < out[r].len() && cell_is_set(
            out[r][i],
        ) by {
            assert(i < recs[r].len() && cell_is_set(recs[r][i]));
            if 0 <= vi < recs[r].len() && i == vi {
                assert(carry_at(recs, vi, r) == recs[r][vi]);
            }
        }
    }
}

proof fn lemma_fillup_all_req(values: Seq<GValue>, recs: Seq<Seq<GCell>>, vi: int)
    requires
        recs_required_ok(values, recs),
    ensures
        recs_required_ok(values, fillup_all(values, recs, vi)),
    decreases values.len() - vi,
{
    if 0 <= vi < values.len() {
        if values[vi].fillup {
            lemma_fillup_one_req(values, recs, vi);
            lemma_fillup_all_req(values, fillup_one(recs, vi), vi + 1);
        } else {
            lemma_fillup_all_req(values, recs, vi + 1);
        }
    }
}

/// Required gating: no record that a run keeps, through to the final
/// `Fillup` pass, has an unset cell for a value marked `Required`.
pub proof fn required_gating(t: GTemplate, out: Seq<char>)
    ensures
        ({
            let lines = lines_from(out, 0);
            let cells0 = Seq::new(t.values.len(), |i: int| GCell::Unset);
            let rl = run_lines(t, lines, 0, t.start, cells0, Seq::<Seq<GCell>>::empty());
            let ef = eof_step(t, rl.cells, rl.recs);
            let internal = fillup_all(t.values, ef.recs, 0);
            forall|r: int, i: int|
                0 <= r < internal.len() && 0 <= i < t.values.len() && t.values[i].required
                    ==> i < #[trigger] internal[r].len() && cell_is_set(#[trigger] internal[r][i])
        }),
{
    let lines = lines_from(out, 0);
    let cells0 = Seq::new(t.values.len(), |i: int| GCell::Unset);
    assert(recs_required_ok(t.values, Seq::<Seq<GCell>>::empty()));
    lemma_run_lines_req(t, lines, 0, t.start, cells0, Seq::<Seq<GCell>>::empty());
    let rl = run_lines(t, lines, 0, t.start, cells0, Seq::<Seq<GCell>>::empty());
    lemma_eof_req(t, rl.cells, rl.recs);
    let ef = eof_step(t, rl.cells, rl.recs);
    lemma_fillup_all_req(t.values, ef.recs, 0);
    let internal = fillup_all(t.values, ef.recs, 0);
    assert forall|r: int, i: int|
        0 <= r < internal.len() && 0 <= i < t.values.len() && t.values[i].required implies i
        < #[trigger] internal[r].len() && cell_is_set(#[trigger] internal[r][i]) by {
        assert(required_ok(t.values, internal[r]));
    }
}

/// List accumulation: a capture into a `List` value appends to the
/// gathered list, a capture into any other value overwrites it, and no
/// other cell moves.
pub proof fn capture_updates_one_cell(
    values: Seq<GValue>,
    slot_vals: Seq<usize>,
    k: int,
    st: usize,
    en: usize,
    line: Seq<char>,
    cells: Seq<GCell>,
)
    requires
        0 <= k < slot_vals.len(),
        (slot_vals[k] as int) < values.len(),
        (slot_vals[k] as int) < cells.len(),
        st <= en <= line.len(),
    ensures
        ({
            let vi = slot_vals[k] as int;
            let text = line.subrange(st as int, en as int);
            let out = apply_cap(values, slot_vals, k, st, en, line, cells);
            &&& out.len() == cells.len()
            &&& (values[vi].list ==> out[vi] == GCell::Ls(
                (match cells[vi] {
                    GCell::Ls(xs) => xs,
                    _ => Seq::<Seq<char>>::empty(),
                }).push(text),
            ))
            &&& (!values[vi].list ==> out[vi] == GCell::Sc(text))
            &&& forall|j: int| 0 <= j < cells.len() && j != vi ==> out[j] == cells[j]
        }),
{
}

/// Envelope shape: every JSON result is either a success envelope
/// (`ok` true, then the platform, command key and records members) or
/// an error envelope (`ok` false, then the error object), never a
/// mixture.
pub proof fn envelope_is_success_or_error(p: Seq<char>, k: Seq<char>, o: Seq<char>)
    ensures
        ({
            let env = parse_json_spec(p, k, o);
            ||| env == crate::json::success_env_spec("platform"@, p, k, parse_records_spec(p, k, o)->Recs_0)
            ||| (parse_records_spec(p, k, o) is Fail && has_prefix(env, "{\"ok\":false,\"error\":"@))
        }),
{
    match parse_records_spec(p, k, o) {
        GParsed::Recs(recs) => {},
        GParsed::Fail(e) => {
            let env = parse_json_spec(p, k, o);
            let code = code_spec(e);
            let msg = crate::parse::message_spec(e);
            reveal_strlit("{\"ok\":false,\"error\":{\"code\":");
            reveal_strlit("{\"ok\":false,\"error\":");
            assert(env.subrange(0, 20) =~= "{\"ok\":false,\"error\":"@);
        },
    }
}

} // verus!
