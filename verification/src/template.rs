//! Templates: value declarations, states, rules, and their compiler.
//!
//! A template is a line-oriented program. A value section declares the
//! named fields with their options and capture patterns; state sections
//! follow, each a bare name heading an ordered list of rules. A rule is
//! an anchored pattern, an optional action list after `->`, and an
//! optional next state. `${name}` in a rule pattern becomes a named
//! capture group wrapping that value's pattern fragment.
//!
//! The compiler validates everything spec-side and executable-side
//! alike: the executable compiler is proved to return exactly the
//! template that the specification compiler describes, or the same
//! error message.

use vstd::prelude::*;
use vstd::string::StrSliceExecFns;
use vstd::string::StringExecFns;
use crate::pattern::ClsItem;
use crate::pattern::Node;
use crate::pattern::Pattern;
use crate::pattern::compile_pattern;
use crate::pattern::compile_pattern_spec;
use crate::pattern::strs_view;
use crate::text::dec_str;
use crate::text::has_prefix;
use crate::text::str_has_prefix;
use crate::text::append_dec;
use crate::text::str_eq;

verus! {

// ---------------------------------------------------------------------
// Data model
// ---------------------------------------------------------------------

/// A declared value: its name, capture pattern fragment, and options.
pub struct ValueDef {
    pub name: String,
    pub pattern: String,
    pub filldown: bool,
    pub required: bool,
    pub key: bool,
    pub list: bool,
    pub fillup: bool,
    pub filter: bool,
}

/// Ghost counterpart of `ValueDef`.
#[verifier::ext_equal]
pub struct GValue {
    pub name: Seq<char>,
    pub pattern: Seq<char>,
    pub filldown: bool,
    pub required: bool,
    pub key: bool,
    pub list: bool,
    pub fillup: bool,
    pub filter: bool,
}

pub open spec fn value_view(v: ValueDef) -> GValue {
    GValue {
        name: v.name@,
        pattern: v.pattern@,
        filldown: v.filldown,
        required: v.required,
        key: v.key,
        list: v.list,
        fillup: v.fillup,
        filter: v.filter,
    }
}

pub open spec fn values_view(vs: Seq<ValueDef>) -> Seq<GValue> {
    vs.map_values(|v: ValueDef| value_view(v))
}

/// A rule action other than a state change.
#[derive(Debug, Clone, Copy, PartialEq, Eq, Structural)]
pub enum Action {
    /// Emit a record (gated on `Required` values being set).
    Rec,
    /// Suppress the implicit record.
    NoRec,
    /// Reset all cells without `Filldown`.
    Clr,
    /// Reset all cells.
    ClrAll,
    /// Rescan the same line from the next rule on.
    Cont,
    /// Abort the parse with this rule's error message.
    Fail,
}

/// Where a rule sends the machine after its line.
#[derive(Debug, Clone, Copy, PartialEq, Eq, Structural)]
pub enum NextState {
    /// Stay in the current state.
    Stay,
    /// Halt successfully (an `End` or `EOF` transition).
    Halt,
    /// Enter the state with this index.
    To(usize),
}

/// A compiled rule.
pub struct Rule {
    pub pat: Pattern,
    /// For each capture slot, the index of the value it writes.
    pub slot_vals: Vec<usize>,
    pub actions: Vec<Action>,
    pub err_msg: String,
    pub next: NextState,
}

/// Ghost counterpart of `Rule`.
#[verifier::ext_equal]
pub struct GRule {
    pub nodes: Seq<Node>,
    pub items: Seq<ClsItem>,
    pub root: usize,
    pub slot_vals: Seq<usize>,
    pub actions: Seq<Action>,
    pub err_msg: Seq<char>,
    pub next: NextState,
}

pub open spec fn rule_view(r: Rule) -> GRule {
    GRule {
        nodes: r.pat.nodes@,
        items: r.pat.items@,
        root: r.pat.root,
        slot_vals: r.slot_vals@,
        actions: r.actions@,
        err_msg: r.err_msg@,
        next: r.next,
    }
}

/// A named state and its ordered rules.
pub struct StateDef {
    pub name: String,
    pub rules: Vec<Rule>,
}

/// Ghost counterpart of `StateDef`.
#[verifier::ext_equal]
pub struct GState {
    pub name: Seq<char>,
    pub rules: Seq<GRule>,
}

pub open spec fn state_view(s: StateDef) -> GState {
    GState { name: s.name@, rules: s.rules@.map_values(|r: Rule| rule_view(r)) }
}

/// A compiled template.
pub struct Template {
    pub values: Vec<ValueDef>,
    pub states: Vec<StateDef>,
    /// Index of the `Start` state.
    pub start: usize,
    /// Index of the `EOF` state, meaningful only when `has_eof`.
    pub eof: usize,
    pub has_eof: bool,
}

/// Ghost counterpart of `Template`.
#[verifier::ext_equal]
pub struct GTemplate {
    pub values: Seq<GValue>,
    pub states: Seq<GState>,
    pub start: usize,
    pub eof: usize,
    pub has_eof: bool,
}

pub open spec fn tpl_view(t: Template) -> GTemplate {
    GTemplate {
        values: values_view(t.values@),
        states: t.states@.map_values(|s: StateDef| state_view(s)),
        start: t.start,
        eof: t.eof,
        has_eof: t.has_eof,
    }
}

// ---------------------------------------------------------------------
// Text scanning helpers
// ---------------------------------------------------------------------

/// First index at or after `i` holding `c`, else the length.
pub open spec fn scan_until(s: Seq<char>, i: int, c: char) -> int
    decreases s.len() - i,
{
    if !(0 <= i < s.len()) {
        s.len() as int
    } else if s[i] == c {
        i
    } else {
        scan_until(s, i + 1, c)
    }
}

pub proof fn scan_until_bounds(s: Seq<char>, i: int, c: char)
    requires
        0 <= i <= s.len(),
    ensures
        i <= scan_until(s, i, c) <= s.len(),
    decreases s.len() - i,
{
    if i < s.len() && s[i] != c {
        scan_until_bounds(s, i + 1, c);
    }
}

/// First index at or after `i` not holding `c`, else the length.
pub open spec fn scan_while(s: Seq<char>, i: int, c: char) -> int
    decreases s.len() - i,
{
    if !(0 <= i < s.len()) {
        s.len() as int
    } else if s[i] == c {
        scan_while(s, i + 1, c)
    } else {
        i
    }
}

pub proof fn scan_while_bounds(s: Seq<char>, i: int, c: char)
    requires
        0 <= i <= s.len(),
    ensures
        i <= scan_while(s, i, c) <= s.len(),
    decreases s.len() - i,
{
    if i < s.len() && s[i] == c {
        scan_while_bounds(s, i + 1, c);
    }
}

/// The line starting at `i`: up to the next newline, with one trailing
/// carriage return stripped.
pub open spec fn strip_cr(line: Seq<char>) -> Seq<char> {
    if line.len() > 0 && line.last() == '\r' {
        line.drop_last()
    } else {
        line
    }
}

pub open spec fn line_at(s: Seq<char>, i: int) -> Seq<char> {
    strip_cr(s.subrange(i, scan_until(s, i, '\n')))
}

/// A line of nothing but spaces and tabs (or nothing at all).
pub open spec fn is_blank(line: Seq<char>) -> bool {
    forall|j: int| 0 <= j < line.len() ==> line[j] == ' ' || line[j] == '\t'
}

/// An error message citing a line number.
pub open spec fn line_err(k: int, cause: Seq<char>) -> Seq<char> {
    "line "@ + dec_str(k as nat) + ": "@ + cause
}

// ---------------------------------------------------------------------
// Value section
// ---------------------------------------------------------------------

/// Option flags gathered from an option list.
#[verifier::ext_equal]
pub struct GOpts {
    pub ok: bool,
    pub filldown: bool,
    pub required: bool,
    pub key: bool,
    pub list: bool,
    pub fillup: bool,
    pub filter: bool,
}

pub open spec fn gopts_none() -> GOpts {
    GOpts {
        ok: true,
        filldown: false,
        required: false,
        key: false,
        list: false,
        fillup: false,
        filter: false,
    }
}

pub open spec fn gopts_fail() -> GOpts {
    GOpts {
        ok: false,
        filldown: false,
        required: false,
        key: false,
        list: false,
        fillup: false,
        filter: false,
    }
}

pub open spec fn opt_of(w: Seq<char>) -> GOpts {
    if w == "Filldown"@ {
        GOpts { filldown: true, ..gopts_none() }
    } else if w == "Required"@ {
        GOpts { required: true, ..gopts_none() }
    } else if w == "Key"@ {
        GOpts { key: true, ..gopts_none() }
    } else if w == "List"@ {
        GOpts { list: true, ..gopts_none() }
    } else if w == "Fillup"@ {
        GOpts { fillup: true, ..gopts_none() }
    } else if w == "Filter"@ {
        GOpts { filter: true, ..gopts_none() }
    } else {
        gopts_fail()
    }
}

/// Parses a comma-separated option list.
pub open spec fn parse_opts(w: Seq<char>, i: int, fuel: nat) -> GOpts
    decreases fuel,
{
    if fuel == 0 {
        gopts_fail()
    } else {
        let j = scan_until(w, i, ',');
        let o = opt_of(w.subrange(i, j));
        if !o.ok {
            gopts_fail()
        } else if j < w.len() {
            let rest = parse_opts(w, j + 1, (fuel - 1) as nat);
            if !rest.ok {
                gopts_fail()
            } else {
                GOpts {
                    ok: true,
                    filldown: o.filldown || rest.filldown,
                    required: o.required || rest.required,
                    key: o.key || rest.key,
                    list: o.list || rest.list,
                    fillup: o.fillup || rest.fillup,
                    filter: o.filter || rest.filter,
                }
            }
        } else {
            o
        }
    }
}

/// Whether a first token is an option list rather than a value name.
pub open spec fn is_option_word(w: Seq<char>) -> bool {
    (exists|j: int| 0 <= j < w.len() && w[j] == ',') || opt_of(w).ok
}

/// Result of parsing one value line.
#[verifier::ext_equal]
pub struct GValRes {
    pub ok: bool,
    pub cause: Seq<char>,
    pub val: GValue,
}

pub open spec fn gvalue_dummy() -> GValue {
    GValue {
        name: Seq::empty(),
        pattern: Seq::empty(),
        filldown: false,
        required: false,
        key: false,
        list: false,
        fillup: false,
        filter: false,
    }
}

pub open spec fn gval_fail(cause: Seq<char>) -> GValRes {
    GValRes { ok: false, cause, val: gvalue_dummy() }
}

/// Parses one `Value` line (the caller established the prefix).
pub open spec fn parse_value_line(line: Seq<char>) -> GValRes {
    let e1 = scan_until(line, 6, ' ');
    let w1 = line.subrange(6, e1);
    if w1.len() == 0 {
        gval_fail("missing value name"@)
    } else if is_option_word(w1) {
        let o = parse_opts(w1, 0, (w1.len() + 1) as nat);
        if !o.ok {
            gval_fail("unknown value option"@)
        } else if !(e1 < line.len()) {
            gval_fail("missing value name"@)
        } else {
            let e2 = scan_until(line, e1 + 1, ' ');
            let nm = line.subrange(e1 + 1, e2);
            if nm.len() == 0 {
                gval_fail("missing value name"@)
            } else if !(e2 < line.len()) || !(e2 + 1 < line.len()) {
                gval_fail("missing value pattern"@)
            } else {
                GValRes {
                    ok: true,
                    cause: Seq::empty(),
                    val: GValue {
                        name: nm,
                        pattern: line.subrange(e2 + 1, line.len() as int),
                        filldown: o.filldown,
                        required: o.required,
                        key: o.key,
                        list: o.list,
                        fillup: o.fillup,
                        filter: o.filter,
                    },
                }
            }
        }
    } else {
        if !(e1 < line.len()) || !(e1 + 1 < line.len()) {
            gval_fail("missing value pattern"@)
        } else {
            GValRes {
                ok: true,
                cause: Seq::empty(),
                val: GValue {
                    name: w1,
                    pattern: line.subrange(e1 + 1, line.len() as int),
                    filldown: false,
                    required: false,
                    key: false,
                    list: false,
                    fillup: false,
                    filter: false,
                },
            }
        }
    }
}

/// Index of the value with this name, or -1.
pub open spec fn find_value_at(vals: Seq<GValue>, name: Seq<char>, i: int) -> int
    decreases vals.len() - i,
{
    if !(0 <= i < vals.len()) {
        -1
    } else if vals[i].name == name {
        i
    } else {
        find_value_at(vals, name, i + 1)
    }
}

pub open spec fn find_value(vals: Seq<GValue>, name: Seq<char>) -> int {
    find_value_at(vals, name, 0)
}

/// Result of the value section.
#[verifier::ext_equal]
pub struct GVals {
    pub ok: bool,
    pub err: Seq<char>,
    pub i: int,
    pub k: int,
    pub vals: Seq<GValue>,
}

/// Reads value lines until a blank line ends the section.
pub open spec fn c_vals(s: Seq<char>, i: int, k: int, vals: Seq<GValue>, fuel: nat) -> GVals
    decreases fuel,
{
    if fuel == 0 {
        GVals { ok: false, err: "template too long"@, i, k, vals }
    } else if !(i < s.len()) {
        GVals { ok: true, err: Seq::empty(), i: s.len() as int, k, vals }
    } else {
        let j = scan_until(s, i, '\n');
        let line = line_at(s, i);
        if is_blank(line) {
            GVals { ok: true, err: Seq::empty(), i: j + 1, k: k + 1, vals }
        } else if line[0] == '#' {
            c_vals(s, j + 1, k + 1, vals, (fuel - 1) as nat)
        } else if has_prefix(line, "Value "@) {
            let r = parse_value_line(line);
            if !r.ok {
                GVals { ok: false, err: line_err(k, r.cause), i, k, vals }
            } else if find_value(vals, r.val.name) >= 0 {
                GVals { ok: false, err: line_err(k, "duplicate value name"@), i, k, vals }
            } else {
                c_vals(s, j + 1, k + 1, vals.push(r.val), (fuel - 1) as nat)
            }
        } else {
            GVals { ok: false, err: line_err(k, "expected a value definition"@), i, k, vals }
        }
    }
}

// ---------------------------------------------------------------------
// Rule lines
// ---------------------------------------------------------------------

/// Result of `${name}` substitution.
#[verifier::ext_equal]
pub struct GSub {
    pub ok: bool,
    pub cause: Seq<char>,
    pub out: Seq<char>,
}

/// Substitutes every `${name}` with a named group wrapping that
/// value's pattern fragment.
pub open spec fn subst(s: Seq<char>, i: int, vals: Seq<GValue>, fuel: nat) -> GSub
    decreases fuel,
{
    if fuel == 0 {
        GSub { ok: false, cause: "pattern too long"@, out: Seq::empty() }
    } else if !(0 <= i < s.len()) {
        GSub { ok: true, cause: Seq::empty(), out: Seq::empty() }
    } else if s[i] == '$' && i + 1 < s.len() && s[i + 1] == '{' {
        let be = scan_until(s, i + 2, '}');
        if !(be < s.len()) {
            GSub { ok: false, cause: "malformed value reference"@, out: Seq::empty() }
        } else {
            let name = s.subrange(i + 2, be);
            let vi = find_value(vals, name);
            if vi < 0 {
                GSub { ok: false, cause: "undeclared value in pattern"@, out: Seq::empty() }
            } else {
                let rest = subst(s, be + 1, vals, (fuel - 1) as nat);
                if !rest.ok {
                    rest
                } else {
                    GSub {
                        ok: true,
                        cause: Seq::empty(),
                        out: "(?P<"@ + name + ">"@ + vals[vi].pattern + ")"@ + rest.out,
                    }
                }
            }
        }
    } else {
        let rest = subst(s, i + 1, vals, (fuel - 1) as nat);
        if !rest.ok {
            rest
        } else {
            GSub { ok: true, cause: Seq::empty(), out: seq![s[i]] + rest.out }
        }
    }
}

/// Maps each capture-slot name to its value index.
pub open spec fn resolve_slots(names: Seq<Seq<char>>, vals: Seq<GValue>, i: int) -> Option<
    Seq<usize>,
>
    decreases names.len() - i,
{
    if !(0 <= i < names.len()) {
        Some(Seq::empty())
    } else {
        let vi = find_value(vals, names[i]);
        if vi < 0 {
            None
        } else {
            match resolve_slots(names, vals, i + 1) {
                Some(rest) => Some(seq![vi as usize] + rest),
                None => None,
            }
        }
    }
}

/// Result of parsing an action list.
#[verifier::ext_equal]
pub struct GActs {
    pub ok: bool,
    pub cause: Seq<char>,
    pub actions: Seq<Action>,
    pub err_msg: Seq<char>,
    pub next_name: Seq<char>,
    pub has_next: bool,
    pub next_is_halt: bool,
    pub has_cont: bool,
    pub any: bool,
}

pub open spec fn gacts_fail(cause: Seq<char>) -> GActs {
    GActs {
        ok: false,
        cause,
        actions: Seq::empty(),
        err_msg: Seq::empty(),
        next_name: Seq::empty(),
        has_next: false,
        next_is_halt: false,
        has_cont: false,
        any: false,
    }
}

pub open spec fn gacts_empty() -> GActs {
    GActs {
        ok: true,
        cause: Seq::empty(),
        actions: Seq::empty(),
        err_msg: Seq::empty(),
        next_name: Seq::empty(),
        has_next: false,
        next_is_halt: false,
        has_cont: false,
        any: false,
    }
}

/// Parses the atoms after `->`: actions, an `Error` message, or a
/// final state name.
pub open spec fn parse_atoms(t: Seq<char>, i: int, fuel: nat) -> GActs
    decreases fuel,
{
    if fuel == 0 {
        gacts_fail("malformed actions"@)
    } else {
        let w0 = scan_while(t, i, ' ');
        if !(w0 < t.len()) {
            gacts_empty()
        } else {
            let we = scan_until(t, w0, ' ');
            let w = t.subrange(w0, we);
            if w == "Record"@ || w == "NoRecord"@ || w == "Clear"@ || w == "Clearall"@ || w
                == "Continue"@ {
                let a = if w == "Record"@ {
                    Action::Rec
                } else if w == "NoRecord"@ {
                    Action::NoRec
                } else if w == "Clear"@ {
                    Action::Clr
                } else if w == "Clearall"@ {
                    Action::ClrAll
                } else {
                    Action::Cont
                };
                let rest = parse_atoms(t, we, (fuel - 1) as nat);
                if !rest.ok {
                    rest
                } else {
                    GActs {
                        ok: true,
                        cause: Seq::empty(),
                        actions: seq![a] + rest.actions,
                        err_msg: rest.err_msg,
                        next_name: rest.next_name,
                        has_next: rest.has_next,
                        next_is_halt: rest.next_is_halt,
                        has_cont: rest.has_cont || w == "Continue"@,
                        any: true,
                    }
                }
            } else if w == "Error"@ {
                let msg = if we + 1 < t.len() {
                    t.subrange(we + 1, t.len() as int)
                } else {
                    Seq::<char>::empty()
                };
                GActs {
                    ok: true,
                    cause: Seq::empty(),
                    actions: seq![Action::Fail],
                    err_msg: msg,
                    next_name: Seq::empty(),
                    has_next: false,
                    next_is_halt: false,
                    has_cont: false,
                    any: true,
                }
            } else {
                // A state name must be the last atom.
                if scan_while(t, we, ' ') < t.len() {
                    gacts_fail("malformed state transition"@)
                } else if w == "End"@ || w == "EOF"@ {
                    GActs {
                        ok: true,
                        cause: Seq::empty(),
                        actions: Seq::empty(),
                        err_msg: Seq::empty(),
                        next_name: Seq::empty(),
                        has_next: false,
                        next_is_halt: true,
                        has_cont: false,
                        any: true,
                    }
                } else {
                    GActs {
                        ok: true,
                        cause: Seq::empty(),
                        actions: Seq::empty(),
                        err_msg: Seq::empty(),
                        next_name: w,
                        has_next: true,
                        next_is_halt: false,
                        has_cont: false,
                        any: true,
                    }
                }
            }
        }
    }
}

/// A rule before state references are resolved.
#[verifier::ext_equal]
pub struct GProtoRule {
    pub nodes: Seq<Node>,
    pub items: Seq<ClsItem>,
    pub root: usize,
    pub slot_vals: Seq<usize>,
    pub actions: Seq<Action>,
    pub err_msg: Seq<char>,
    pub next_name: Seq<char>,
    pub has_next: bool,
    pub next_is_halt: bool,
}

/// Result of parsing one rule line.
#[verifier::ext_equal]
pub struct GRuleRes {
    pub ok: bool,
    pub cause: Seq<char>,
    pub skip: bool,
    pub rule: GProtoRule,
}

pub open spec fn gprotorule_dummy() -> GProtoRule {
    GProtoRule {
        nodes: Seq::empty(),
        items: Seq::empty(),
        root: 0,
        slot_vals: Seq::empty(),
        actions: Seq::empty(),
        err_msg: Seq::empty(),
        next_name: Seq::empty(),
        has_next: false,
        next_is_halt: false,
    }
}

pub open spec fn grule_fail(cause: Seq<char>) -> GRuleRes {
    GRuleRes { ok: false, cause, skip: false, rule: gprotorule_dummy() }
}

/// First index at or after `i` where ` -> ` begins, else the length.
pub open spec fn find_arrow(s: Seq<char>, i: int) -> int
    decreases s.len() - i,
{
    if !(0 <= i) || i + 4 > s.len() {
        s.len() as int
    } else if s[i] == ' ' && s[i + 1] == '-' && s[i + 2] == '>' && s[i + 3] == ' ' {
        i
    } else {
        find_arrow(s, i + 1)
    }
}

pub proof fn find_arrow_bounds(s: Seq<char>, i: int)
    requires
        0 <= i <= s.len(),
    ensures
        i <= find_arrow(s, i) <= s.len(),
    decreases s.len() - i,
{
    if i + 4 <= s.len() && !(s[i] == ' ' && s[i + 1] == '-' && s[i + 2] == '>' && s[i + 3]
        == ' ') {
        find_arrow_bounds(s, i + 1);
    }
}

/// Parses one rule line (the caller established the leading space).
pub open spec fn parse_rule_line(line: Seq<char>, vals: Seq<GValue>) -> GRuleRes {
    let p0 = scan_while(line, 0, ' ');
    if !(p0 < line.len()) || line[p0] != '^' {
        grule_fail("malformed rule"@)
    } else {
        let arr = find_arrow(line, p0);
        let pat_txt = line.subrange(p0, arr);
        if pat_txt == "^."@ {
            // The catch-all rule is removed by convention: unmatched
            // lines are silently skipped.
            GRuleRes { ok: true, cause: Seq::empty(), skip: true, rule: gprotorule_dummy() }
        } else {
            let sb = subst(pat_txt, 0, vals, (pat_txt.len() + 1) as nat);
            if !sb.ok {
                grule_fail(sb.cause)
            } else {
                let cp = compile_pattern_spec(sb.out);
                if !cp.ok {
                    grule_fail("invalid pattern"@)
                } else {
                    match resolve_slots(cp.names, vals, 0) {
                        None => grule_fail("undeclared value in pattern"@),
                        Some(sv) => {
                            let acts = if arr == line.len() {
                                GActs { actions: seq![Action::Rec], any: true, ..gacts_empty() }
                            } else {
                                parse_atoms(line, arr + 4, (line.len() + 1) as nat)
                            };
                            if !acts.ok {
                                grule_fail(acts.cause)
                            } else if !acts.any {
                                grule_fail("missing actions"@)
                            } else if acts.has_cont && (acts.has_next || acts.next_is_halt) {
                                grule_fail("a Continue rule cannot change state"@)
                            } else {
                                GRuleRes {
                                    ok: true,
                                    cause: Seq::empty(),
                                    skip: false,
                                    rule: GProtoRule {
                                        nodes: cp.nodes,
                                        items: cp.items,
                                        root: cp.root as usize,
                                        slot_vals: sv,
                                        actions: acts.actions,
                                        err_msg: acts.err_msg,
                                        next_name: acts.next_name,
                                        has_next: acts.has_next,
                                        next_is_halt: acts.next_is_halt,
                                    },
                                }
                            }
                        },
                    }
                }
            }
        }
    }
}

// ---------------------------------------------------------------------
// State section and resolution
// ---------------------------------------------------------------------

/// A state before rule transitions are resolved.
#[verifier::ext_equal]
pub struct GProtoState {
    pub name: Seq<char>,
    pub rules: Seq<GProtoRule>,
}

/// Index of the state with this name, or -1.
pub open spec fn find_pstate_at(states: Seq<GProtoState>, name: Seq<char>, i: int) -> int
    decreases states.len() - i,
{
    if !(0 <= i < states.len()) {
        -1
    } else if states[i].name == name {
        i
    } else {
        find_pstate_at(states, name, i + 1)
    }
}

pub open spec fn find_pstate(states: Seq<GProtoState>, name: Seq<char>) -> int {
    find_pstate_at(states, name, 0)
}

/// Result of the state section.
#[verifier::ext_equal]
pub struct GStates {
    pub ok: bool,
    pub err: Seq<char>,
    pub states: Seq<GProtoState>,
}

/// Reads state headers and rule lines to the end of the text.
pub open spec fn c_states(
    s: Seq<char>,
    i: int,
    k: int,
    vals: Seq<GValue>,
    states: Seq<GProtoState>,
    fuel: nat,
) -> GStates
    decreases fuel,
{
    if fuel == 0 {
        GStates { ok: false, err: "template too long"@, states }
    } else if !(i < s.len()) {
        GStates { ok: true, err: Seq::empty(), states }
    } else {
        let j = scan_until(s, i, '\n');
        let line = line_at(s, i);
        if is_blank(line) {
            c_states(s, j + 1, k + 1, vals, states, (fuel - 1) as nat)
        } else if line[0] == '#' {
            c_states(s, j + 1, k + 1, vals, states, (fuel - 1) as nat)
        } else if line[0] == ' ' {
            if states.len() == 0 {
                GStates { ok: false, err: line_err(k, "rule before any state"@), states }
            } else {
                let r = parse_rule_line(line, vals);
                if !r.ok {
                    GStates { ok: false, err: line_err(k, r.cause), states }
                } else if r.skip {
                    c_states(s, j + 1, k + 1, vals, states, (fuel - 1) as nat)
                } else {
                    let li = states.len() - 1;
                    let st = GProtoState {
                        name: states[li].name,
                        rules: states[li].rules.push(r.rule),
                    };
                    c_states(s, j + 1, k + 1, vals, states.update(li, st), (fuel - 1) as nat)
                }
            }
        } else {
            if find_pstate(states, line) >= 0 {
                GStates { ok: false, err: line_err(k, "duplicate state name"@), states }
            } else {
                c_states(
                    s,
                    j + 1,
                    k + 1,
                    vals,
                    states.push(GProtoState { name: line, rules: Seq::empty() }),
                    (fuel - 1) as nat,
                )
            }
        }
    }
}

/// Index of the name in a list of state names, or -1.
pub open spec fn find_name_at(names: Seq<Seq<char>>, name: Seq<char>, i: int) -> int
    decreases names.len() - i,
{
    if !(0 <= i < names.len()) {
        -1
    } else if names[i] == name {
        i
    } else {
        find_name_at(names, name, i + 1)
    }
}

pub open spec fn find_name(names: Seq<Seq<char>>, name: Seq<char>) -> int {
    find_name_at(names, name, 0)
}

/// The names of the parsed states, in order.
pub open spec fn pstate_names(states: Seq<GProtoState>) -> Seq<Seq<char>> {
    states.map_values(|ps: GProtoState| ps.name)
}

/// Resolves the transitions of one state's rules.
pub open spec fn resolve_rules(names: Seq<Seq<char>>, rules: Seq<GProtoRule>) -> Option<Seq<GRule>>
    decreases rules.len(),
{
    if rules.len() == 0 {
        Some(Seq::empty())
    } else {
        let r = rules[0];
        let next = if r.next_is_halt {
            Some(NextState::Halt)
        } else if r.has_next {
            let si = find_name(names, r.next_name);
            if si < 0 {
                None
            } else {
                Some(NextState::To(si as usize))
            }
        } else {
            Some(NextState::Stay)
        };
        match next {
            None => None,
            Some(nx) => match resolve_rules(names, rules.drop_first()) {
                None => None,
                Some(rest) => Some(
                    seq![
                        GRule {
                            nodes: r.nodes,
                            items: r.items,
                            root: r.root,
                            slot_vals: r.slot_vals,
                            actions: r.actions,
                            err_msg: r.err_msg,
                            next: nx,
                        },
                    ] + rest,
                ),
            },
        }
    }
}

/// Resolves every state.
pub open spec fn resolve_states(names: Seq<Seq<char>>, states: Seq<GProtoState>) -> Option<
    Seq<GState>,
>
    decreases states.len(),
{
    if states.len() == 0 {
        Some(Seq::empty())
    } else {
        match resolve_rules(names, states[0].rules) {
            None => None,
            Some(rules) => match resolve_states(names, states.drop_first()) {
                None => None,
                Some(rest) => Some(seq![GState { name: states[0].name, rules }] + rest),
            },
        }
    }
}

/// Result of compiling a template.
#[verifier::ext_equal]
pub struct GCompiled {
    pub ok: bool,
    pub err: Seq<char>,
    pub tpl: GTemplate,
}

pub open spec fn gtemplate_dummy() -> GTemplate {
    GTemplate { values: Seq::empty(), states: Seq::empty(), start: 0, eof: 0, has_eof: false }
}

pub open spec fn gcomp_fail(err: Seq<char>) -> GCompiled {
    GCompiled { ok: false, err, tpl: gtemplate_dummy() }
}

/// What compiling template text yields.
pub open spec fn compile_spec(s: Seq<char>) -> GCompiled {
    if s.len() > 1000000 {
        gcomp_fail("template too long"@)
    } else {
        let fuel = (s.len() + 2) as nat;
        let v = c_vals(s, 0, 1, Seq::empty(), fuel);
        if !v.ok {
            gcomp_fail(v.err)
        } else if v.vals.len() == 0 {
            gcomp_fail("no value definitions"@)
        } else {
            let st = c_states(s, v.i, v.k, v.vals, Seq::empty(), fuel);
            if !st.ok {
                gcomp_fail(st.err)
            } else {
                let names = pstate_names(st.states);
                let start = find_name(names, "Start"@);
                if start < 0 {
                    gcomp_fail("missing Start state"@)
                } else {
                    match resolve_states(names, st.states) {
                        None => gcomp_fail("unknown state in transition"@),
                        Some(states) => {
                            let eofi = find_name(names, "EOF"@);
                            GCompiled {
                                ok: true,
                                err: Seq::empty(),
                                tpl: GTemplate {
                                    values: v.vals,
                                    states,
                                    start: start as usize,
                                    eof: if eofi >= 0 {
                                        eofi as usize
                                    } else {
                                        0
                                    },
                                    has_eof: eofi >= 0,
                                },
                            }
                        },
                    }
                }
            }
        }
    }
}

// ---------------------------------------------------------------------
// Executable compiler
// ---------------------------------------------------------------------

/// Finds the first occurrence of `c` at or after `i`, else the length.
pub fn scan_until_exec(s: &str, n: usize, i: usize, c: char) -> (j: usize)
    requires
        n == s@.len(),
        i <= n,
    ensures
        j as int == scan_until(s@, i as int, c),
        i <= j <= n,
{
    let mut j = i;
    while j < n
        invariant
            n == s@.len(),
            i <= j <= n,
            scan_until(s@, i as int, c) == scan_until(s@, j as int, c),
        decreases n - j,
    {
        if s.get_char(j) == c {
            return j;
        }
        j = j + 1;
    }
    j
}

fn scan_while_exec(s: &str, n: usize, i: usize, c: char) -> (j: usize)
    requires
        n == s@.len(),
        i <= n,
    ensures
        j as int == scan_while(s@, i as int, c),
        i <= j <= n,
{
    let mut j = i;
    while j < n
        invariant
            n == s@.len(),
            i <= j <= n,
            scan_while(s@, i as int, c) == scan_while(s@, j as int, c),
        decreases n - j,
    {
        if s.get_char(j) != c {
            return j;
        }
        j = j + 1;
    }
    j
}

fn is_blank_exec(line: &str, ll: usize) -> (r: bool)
    requires
        ll == line@.len(),
    ensures
        r == is_blank(line@),
{
    let mut j: usize = 0;
    while j < ll
        invariant
            ll == line@.len(),
            j <= ll,
            forall|x: int| 0 <= x < j ==> line@[x] == ' ' || line@[x] == '\t',
        decreases ll - j,
    {
        let c = line.get_char(j);
        if c != ' ' && c != '\t' {
            return false;
        }
        j = j + 1;
    }
    true
}

fn opt_of_exec(w: &str) -> (r: GOpts)
    ensures
        r == opt_of(w@),
{
    if str_eq(w, "Filldown") {
        GOpts { filldown: true, ..gopts_none_exec() }
    } else if str_eq(w, "Required") {
        GOpts { required: true, ..gopts_none_exec() }
    } else if str_eq(w, "Key") {
        GOpts { key: true, ..gopts_none_exec() }
    } else if str_eq(w, "List") {
        GOpts { list: true, ..gopts_none_exec() }
    } else if str_eq(w, "Fillup") {
        GOpts { fillup: true, ..gopts_none_exec() }
    } else if str_eq(w, "Filter") {
        GOpts { filter: true, ..gopts_none_exec() }
    } else {
        gopts_fail_exec()
    }
}

fn gopts_none_exec() -> (r: GOpts)
    ensures
        r == gopts_none(),
{
    GOpts {
        ok: true,
        filldown: false,
        required: false,
        key: false,
        list: false,
        fillup: false,
        filter: false,
    }
}

fn gopts_fail_exec() -> (r: GOpts)
    ensures
        r == gopts_fail(),
{
    GOpts {
        ok: false,
        filldown: false,
        required: false,
        key: false,
        list: false,
        fillup: false,
        filter: false,
    }
}

fn parse_opts_exec(w: &str, wl: usize, i: usize, fuel: u64) -> (r: GOpts)
    requires
        wl == w@.len(),
        i <= wl,
    ensures
        r == parse_opts(w@, i as int, fuel as nat),
    decreases fuel,
{
    if fuel == 0 {
        return gopts_fail_exec();
    }
    let j = scan_until_exec(w, wl, i, ',');
    let seg = w.substring_char(i, j);
    let o = opt_of_exec(seg);
    if !o.ok {
        gopts_fail_exec()
    } else if j < wl {
        let rest = parse_opts_exec(w, wl, j + 1, fuel - 1);
        if !rest.ok {
            gopts_fail_exec()
        } else {
            GOpts {
                ok: true,
                filldown: o.filldown || rest.filldown,
                required: o.required || rest.required,
                key: o.key || rest.key,
                list: o.list || rest.list,
                fillup: o.fillup || rest.fillup,
                filter: o.filter || rest.filter,
            }
        }
    } else {
        o
    }
}

fn is_option_word_exec(w: &str, wl: usize) -> (r: bool)
    requires
        wl == w@.len(),
    ensures
        r == is_option_word(w@),
{
    let mut j: usize = 0;
    while j < wl
        invariant
            wl == w@.len(),
            j <= wl,
            forall|x: int| 0 <= x < j ==> w@[x] != ',',
        decreases wl - j,
    {
        if w.get_char(j) == ',' {
            return true;
        }
        j = j + 1;
    }
    opt_of_exec(w).ok
}

fn parse_value_line_exec(line: &str, ll: usize) -> (r: Result<ValueDef, &'static str>)
    requires
        ll == line@.len(),
        ll >= 6,
    ensures
        ({
            let g = parse_value_line(line@);
            match r {
                Ok(v) => g.ok && value_view(v) == g.val,
                Err(c) => !g.ok && c@ == g.cause,
            }
        }),
{
    let e1 = scan_until_exec(line, ll, 6, ' ');
    let w1 = line.substring_char(6, e1);
    let w1l = e1 - 6;
    proof {
        assert(w1@ =~= line@.subrange(6, e1 as int));
    }
    if w1l == 0 {
        return Err("missing value name");
    }
    if is_option_word_exec(w1, w1l) {
        let o = parse_opts_exec(w1, w1l, 0, (w1l as u64) + 1);
        if !o.ok {
            return Err("unknown value option");
        }
        if !(e1 < ll) {
            return Err("missing value name");
        }
        let e2 = scan_until_exec(line, ll, e1 + 1, ' ');
        let nm = line.substring_char(e1 + 1, e2);
        proof {
            assert(nm@ =~= line@.subrange(e1 + 1 as int, e2 as int));
        }
        if e2 - (e1 + 1) == 0 {
            return Err("missing value name");
        }
        if !(e2 < ll) || !(e2 + 1 < ll) {
            return Err("missing value pattern");
        }
        let frag = line.substring_char(e2 + 1, ll);
        Ok(
            ValueDef {
                name: String::from_str(nm),
                pattern: String::from_str(frag),
                filldown: o.filldown,
                required: o.required,
                key: o.key,
                list: o.list,
                fillup: o.fillup,
                filter: o.filter,
            },
        )
    } else {
        if !(e1 < ll) || !(e1 + 1 < ll) {
            return Err("missing value pattern");
        }
        let frag = line.substring_char(e1 + 1, ll);
        Ok(
            ValueDef {
                name: String::from_str(w1),
                pattern: String::from_str(frag),
                filldown: false,
                required: false,
                key: false,
                list: false,
                fillup: false,
                filter: false,
            },
        )
    }
}

fn find_value_exec(vals: &Vec<ValueDef>, name: &str, i: usize) -> (r: Option<usize>)
    requires
        i <= vals@.len(),
    ensures
        ({
            let g = find_value_at(values_view(vals@), name@, i as int);
            match r {
                Some(ix) => ix as int == g && ix < vals@.len(),
                None => g == -1,
            }
        }),
    decreases vals@.len() - i,
{
    if !(i < vals.len()) {
        return None;
    }
    if str_eq(vals[i].name.as_str(), name) {
        proof {
            assert(values_view(vals@)[i as int].name == vals@[i as int].name@);
        }
        Some(i)
    } else {
        proof {
            assert(values_view(vals@)[i as int].name == vals@[i as int].name@);
        }
        find_value_exec(vals, name, i + 1)
    }
}

/// The full error message for one line.
fn line_err_exec(k: u64, cause: &str) -> (r: String)
    ensures
        r@ == line_err(k as int, cause@),
{
    let mut e = String::new();
    e.append("line ");
    append_dec(&mut e, k);
    e.append(": ");
    e.append(cause);
    proof {
        assert(e@ =~= line_err(k as int, cause@));
    }
    e
}

fn c_vals_exec(s: &str, n: usize, i: usize, k: u64, vals: &mut Vec<ValueDef>, fuel: u64) -> (r:
    Result<(usize, u64), String>)
    requires
        n == s@.len(),
        n <= 1000000,
        i <= n + 1,
        k as nat + fuel as nat <= 3000000,
    ensures
        ({
            let g = c_vals(s@, i as int, k as int, values_view(old(vals)@), fuel as nat);
            match r {
                Ok(pr) => g.ok && pr.0 as int == g.i && pr.1 as int == g.k && values_view(
                    final(vals)@,
                ) == g.vals && pr.0 <= n + 1 && pr.1 as nat <= k as nat + fuel as nat,
                Err(e) => !g.ok && e@ == g.err,
            }
        }),
    decreases fuel,
{
    if fuel == 0 {
        return Err(String::from_str("template too long"));
    }
    if !(i < n) {
        return Ok((n, k));
    }
    let j = scan_until_exec(s, n, i, '\n');
    let raw = s.substring_char(i, j);
    let rl = j - i;
    proof {
        assert(raw@ =~= s@.subrange(i as int, j as int));
    }
    let (line, ll): (&str, usize) = if rl > 0 && raw.get_char(rl - 1) == '\r' {
        let t = raw.substring_char(0, rl - 1);
        proof {
            assert(t@ =~= line_at(s@, i as int));
        }
        (t, rl - 1)
    } else {
        proof {
            assert(raw@ =~= line_at(s@, i as int));
        }
        (raw, rl)
    };
    if is_blank_exec(line, ll) {
        return Ok((j + 1, k + 1));
    }
    if line.get_char(0) == '#' {
        return c_vals_exec(s, n, j + 1, k + 1, vals, fuel - 1);
    }
    if str_has_prefix(line, "Value ") {
        proof {
            reveal_strlit("Value ");
        }
        match parse_value_line_exec(line, ll) {
            Ok(v) => {
                let dup = find_value_exec(vals, v.name.as_str(), 0);
                if dup.is_some() {
                    return Err(line_err_exec(k, "duplicate value name"));
                }
                vals.push(v);
                proof {
                    assert(values_view(vals@) =~= values_view(old(vals)@).push(value_view(v)));
                }
                c_vals_exec(s, n, j + 1, k + 1, vals, fuel - 1)
            },
            Err(c) => Err(line_err_exec(k, c)),
        }
    } else {
        Err(line_err_exec(k, "expected a value definition"))
    }
}

fn subst_exec(
    s: &str,
    n: usize,
    i: usize,
    vals: &Vec<ValueDef>,
    out: &mut String,
    fuel: u64,
) -> (r: Result<(), &'static str>)
    requires
        n == s@.len(),
        n <= 1000000,
        i <= n,
    ensures
        ({
            let g = subst(s@, i as int, values_view(vals@), fuel as nat);
            match r {
                Ok(_) => g.ok && final(out)@ == old(out)@ + g.out,
                Err(c) => !g.ok && c@ == g.cause,
            }
        }),
    decreases fuel,
{
    if fuel == 0 {
        return Err("pattern too long");
    }
    if !(i < n) {
        proof {
            assert(out@ =~= old(out)@ + Seq::<char>::empty());
        }
        return Ok(());
    }
    if s.get_char(i) == '$' && i + 1 < n && s.get_char(i + 1) == '{' {
        let be = scan_until_exec(s, n, i + 2, '}');
        if !(be < n) {
            return Err("malformed value reference");
        }
        let name = s.substring_char(i + 2, be);
        proof {
            assert(name@ =~= s@.subrange(i + 2 as int, be as int));
        }
        match find_value_exec(vals, name, 0) {
            None => Err("undeclared value in pattern"),
            Some(vi) => {
                out.append("(?P<");
                out.append(name);
                out.append(">");
                out.append(vals[vi].pattern.as_str());
                out.append(")");
                let ghost mid = out@;
                match subst_exec(s, n, be + 1, vals, out, fuel - 1) {
                    Ok(_) => {
                        proof {
                            let g = subst(s@, i as int, values_view(vals@), fuel as nat);
                            assert(values_view(vals@)[vi as int].pattern == vals@[
                                vi as int
                            ].pattern@);
                            assert(out@ =~= old(out)@ + g.out);
                        }
                        Ok(())
                    },
                    Err(c) => Err(c),
                }
            },
        }
    } else {
        crate::text::append_char_at(out, s, i);
        match subst_exec(s, n, i + 1, vals, out, fuel - 1) {
            Ok(_) => {
                proof {
                    let g = subst(s@, i as int, values_view(vals@), fuel as nat);
                    assert(out@ =~= old(out)@ + g.out);
                }
                Ok(())
            },
            Err(c) => Err(c),
        }
    }
}

fn resolve_slots_exec(names: &Vec<String>, vals: &Vec<ValueDef>, i: usize) -> (r: Option<
    Vec<usize>,
>)
    requires
        i <= names@.len(),
    ensures
        ({
            let g = resolve_slots(strs_view(names@), values_view(vals@), i as int);
            match r {
                Some(sv) => g == Some(sv@),
                None => g is None,
            }
        }),
    decreases names@.len() - i,
{
    if !(i < names.len()) {
        proof {
            assert(resolve_slots(strs_view(names@), values_view(vals@), i as int) =~= Some(
                Seq::<usize>::empty(),
            ));
        }
        return Some(Vec::new());
    }
    proof {
        assert(strs_view(names@)[i as int] == names@[i as int]@);
    }
    match find_value_exec(vals, names[i].as_str(), 0) {
        None => None,
        Some(vi) => {
            match resolve_slots_exec(names, vals, i + 1) {
                None => None,
                Some(rest) => {
                    let mut out = rest;
                    out.insert(0, vi);
                    proof {
                        let g = resolve_slots(strs_view(names@), values_view(vals@), i as int);
                        assert(g == Some(out@)) by {
                            assert(out@ =~= seq![vi as usize] + rest@);
                        }
                    }
                    Some(out)
                },
            }
        },
    }
}

/// What an action list yields besides the actions themselves.
struct AtomsMeta {
    pub err_msg: String,
    pub next_name: String,
    pub has_next: bool,
    pub next_is_halt: bool,
    pub has_cont: bool,
    pub any: bool,
}

fn parse_atoms_exec(t: &str, tl: usize, i: usize, acts: &mut Vec<Action>, fuel: u64) -> (r: Result<
    AtomsMeta,
    &'static str,
>)
    requires
        tl == t@.len(),
        tl <= 1000000,
        i <= tl,
    ensures
        ({
            let g = parse_atoms(t@, i as int, fuel as nat);
            match r {
                Ok(m) => g.ok && final(acts)@ == old(acts)@ + g.actions && m.err_msg@ == g.err_msg
                    && m.next_name@ == g.next_name && m.has_next == g.has_next && m.next_is_halt
                    == g.next_is_halt && m.has_cont == g.has_cont && m.any == g.any,
                Err(c) => !g.ok && c@ == g.cause,
            }
        }),
    decreases fuel,
{
    if fuel == 0 {
        return Err("malformed actions");
    }
    let w0 = scan_while_exec(t, tl, i, ' ');
    if !(w0 < tl) {
        proof {
            assert(acts@ =~= old(acts)@ + Seq::<Action>::empty());
        }
        return Ok(
            AtomsMeta {
                err_msg: String::new(),
                next_name: String::new(),
                has_next: false,
                next_is_halt: false,
                has_cont: false,
                any: false,
            },
        );
    }
    let we = scan_until_exec(t, tl, w0, ' ');
    let w = t.substring_char(w0, we);
    proof {
        assert(w@ =~= t@.subrange(w0 as int, we as int));
    }
    let is_rec = str_eq(w, "Record");
    let is_norec = str_eq(w, "NoRecord");
    let is_clr = str_eq(w, "Clear");
    let is_clrall = str_eq(w, "Clearall");
    let is_cont = str_eq(w, "Continue");
    if is_rec || is_norec || is_clr || is_clrall || is_cont {
        let a = if is_rec {
            Action::Rec
        } else if is_norec {
            Action::NoRec
        } else if is_clr {
            Action::Clr
        } else if is_clrall {
            Action::ClrAll
        } else {
            Action::Cont
        };
        acts.push(a);
        match parse_atoms_exec(t, tl, we, acts, fuel - 1) {
            Ok(m) => {
                proof {
                    let g = parse_atoms(t@, i as int, fuel as nat);
                    assert(acts@ =~= old(acts)@ + g.actions);
                }
                Ok(
                    AtomsMeta {
                        err_msg: m.err_msg,
                        next_name: m.next_name,
                        has_next: m.has_next,
                        next_is_halt: m.next_is_halt,
                        has_cont: m.has_cont || is_cont,
                        any: true,
                    },
                )
            },
            Err(c) => Err(c),
        }
    } else if str_eq(w, "Error") {
        let msg = if we + 1 < tl {
            String::from_str(t.substring_char(we + 1, tl))
        } else {
            String::new()
        };
        acts.push(Action::Fail);
        proof {
            let g = parse_atoms(t@, i as int, fuel as nat);
            assert(acts@ =~= old(acts)@ + g.actions);
            if we + 1 < tl {
                assert(msg@ =~= g.err_msg);
            } else {
                assert(msg@ =~= g.err_msg);
            }
        }
        Ok(
            AtomsMeta {
                err_msg: msg,
                next_name: String::new(),
                has_next: false,
                next_is_halt: false,
                has_cont: false,
                any: true,
            },
        )
    } else {
        if scan_while_exec(t, tl, we, ' ') < tl {
            return Err("malformed state transition");
        }
        proof {
            assert(acts@ =~= old(acts)@ + Seq::<Action>::empty());
        }
        if str_eq(w, "End") || str_eq(w, "EOF") {
            Ok(
                AtomsMeta {
                    err_msg: String::new(),
                    next_name: String::new(),
                    has_next: false,
                    next_is_halt: true,
                    has_cont: false,
                    any: true,
                },
            )
        } else {
            Ok(
                AtomsMeta {
                    err_msg: String::new(),
                    next_name: String::from_str(w),
                    has_next: true,
                    next_is_halt: false,
                    has_cont: false,
                    any: true,
                },
            )
        }
    }
}

/// A parsed rule whose state reference is not yet resolved.
pub struct ProtoRule {
    pub pat: Pattern,
    pub slot_vals: Vec<usize>,
    pub actions: Vec<Action>,
    pub err_msg: String,
    pub next_name: String,
    pub has_next: bool,
    pub next_is_halt: bool,
}

pub open spec fn proto_view(p: ProtoRule) -> GProtoRule {
    GProtoRule {
        nodes: p.pat.nodes@,
        items: p.pat.items@,
        root: p.pat.root,
        slot_vals: p.slot_vals@,
        actions: p.actions@,
        err_msg: p.err_msg@,
        next_name: p.next_name@,
        has_next: p.has_next,
        next_is_halt: p.next_is_halt,
    }
}

#[verifier::rlimit(80)]
fn parse_rule_line_exec(line: &str, ll: usize, vals: &Vec<ValueDef>) -> (r: Result<
    Option<ProtoRule>,
    &'static str,
>)
    requires
        ll == line@.len(),
        ll <= 1000000,
    ensures
        ({
            let g = parse_rule_line(line@, values_view(vals@));
            match r {
                Ok(Some(p)) => g.ok && !g.skip && proto_view(p) == g.rule,
                Ok(None) => g.ok && g.skip,
                Err(c) => !g.ok && c@ == g.cause,
            }
        }),
{
    let p0 = scan_while_exec(line, ll, 0, ' ');
    if !(p0 < ll) {
        return Err("malformed rule");
    }
    if line.get_char(p0) != '^' {
        return Err("malformed rule");
    }
    let arr = find_arrow_exec(line, ll, p0);
    let pat_txt = line.substring_char(p0, arr);
    let ptl = arr - p0;
    proof {
        assert(pat_txt@ =~= line@.subrange(p0 as int, arr as int));
    }
    if str_eq(pat_txt, "^.") {
        return Ok(None);
    }
    let mut sub_out = String::new();
    match subst_exec(pat_txt, ptl, 0, vals, &mut sub_out, (ptl as u64) + 1) {
        Err(c) => {
            return Err(c);
        },
        Ok(_) => {},
    }
    let pat = match compile_pattern(sub_out.as_str()) {
        Err(_) => {
            return Err("invalid pattern");
        },
        Ok(p) => p,
    };
    let sv = match resolve_slots_exec(&pat.names, vals, 0) {
        None => {
            return Err("undeclared value in pattern");
        },
        Some(sv) => sv,
    };
    if arr == ll {
        let mut acts: Vec<Action> = Vec::new();
        acts.push(Action::Rec);
        proof {
            let g = parse_rule_line(line@, values_view(vals@));
            assert(acts@ =~= seq![Action::Rec]);
        }
        Ok(
            Some(
                ProtoRule {
                    pat,
                    slot_vals: sv,
                    actions: acts,
                    err_msg: String::new(),
                    next_name: String::new(),
                    has_next: false,
                    next_is_halt: false,
                },
            ),
        )
    } else {
        let mut acts: Vec<Action> = Vec::new();
        let m = match parse_atoms_exec(line, ll, arr + 4, &mut acts, (ll as u64) + 1) {
            Err(c) => {
                return Err(c);
            },
            Ok(m) => m,
        };
        if !m.any {
            return Err("missing actions");
        }
        if m.has_cont && (m.has_next || m.next_is_halt) {
            return Err("a Continue rule cannot change state");
        }
        proof {
            let g = parse_rule_line(line@, values_view(vals@));
            assert(acts@ =~= Seq::<Action>::empty() + g.rule.actions);
        }
        Ok(
            Some(
                ProtoRule {
                    pat,
                    slot_vals: sv,
                    actions: acts,
                    err_msg: m.err_msg,
                    next_name: m.next_name,
                    has_next: m.has_next,
                    next_is_halt: m.next_is_halt,
                },
            ),
        )
    }
}

fn find_arrow_exec(s: &str, n: usize, i: usize) -> (j: usize)
    requires
        n == s@.len(),
        n <= 1000000,
        i <= n,
    ensures
        j as int == find_arrow(s@, i as int),
        i <= j <= n,
        j < n ==> j + 4 <= n,
{
    let mut j = i;
    while j + 4 <= n
        invariant
            n == s@.len(),
            n <= 1000000,
            i <= j <= n,
            find_arrow(s@, i as int) == find_arrow(s@, j as int),
        decreases n - j,
    {
        if s.get_char(j) == ' ' && s.get_char(j + 1) == '-' && s.get_char(j + 2) == '>'
            && s.get_char(j + 3) == ' ' {
            return j;
        }
        j = j + 1;
    }
    proof {
        assert(find_arrow(s@, j as int) == s@.len());
    }
    n
}

/// A parsed state whose rule transitions are not yet resolved.
pub struct ProtoState {
    pub name: String,
    pub rules: Vec<ProtoRule>,
}

pub open spec fn pstate_view(p: ProtoState) -> GProtoState {
    GProtoState { name: p.name@, rules: p.rules@.map_values(|r: ProtoRule| proto_view(r)) }
}

pub open spec fn pstates_view(ps: Seq<ProtoState>) -> Seq<GProtoState> {
    ps.map_values(|p: ProtoState| pstate_view(p))
}

fn find_pstate_exec(states: &Vec<ProtoState>, name: &str, i: usize) -> (r: Option<usize>)
    requires
        i <= states@.len(),
    ensures
        ({
            let g = find_pstate_at(pstates_view(states@), name@, i as int);
            match r {
                Some(ix) => ix as int == g && ix < states@.len(),
                None => g == -1,
            }
        }),
    decreases states@.len() - i,
{
    if !(i < states.len()) {
        return None;
    }
    proof {
        assert(pstates_view(states@)[i as int].name == states@[i as int].name@);
    }
    if str_eq(states[i].name.as_str(), name) {
        Some(i)
    } else {
        find_pstate_exec(states, name, i + 1)
    }
}

#[verifier::rlimit(80)]
fn c_states_exec(
    s: &str,
    n: usize,
    i: usize,
    k: u64,
    vals: &Vec<ValueDef>,
    states: &mut Vec<ProtoState>,
    fuel: u64,
) -> (r: Result<(), String>)
    requires
        n == s@.len(),
        n <= 1000000,
        i <= n + 1,
        k as nat + fuel as nat <= 3000000,
    ensures
        ({
            let g = c_states(
                s@,
                i as int,
                k as int,
                values_view(vals@),
                pstates_view(old(states)@),
                fuel as nat,
            );
            match r {
                Ok(_) => g.ok && pstates_view(final(states)@) == g.states,
                Err(e) => !g.ok && e@ == g.err,
            }
        }),
    decreases fuel,
{
    if fuel == 0 {
        return Err(String::from_str("template too long"));
    }
    if !(i < n) {
        return Ok(());
    }
    let j = scan_until_exec(s, n, i, '\n');
    let raw = s.substring_char(i, j);
    let rl = j - i;
    proof {
        assert(raw@ =~= s@.subrange(i as int, j as int));
    }
    let (line, ll): (&str, usize) = if rl > 0 && raw.get_char(rl - 1) == '\r' {
        let t = raw.substring_char(0, rl - 1);
        proof {
            assert(t@ =~= line_at(s@, i as int));
        }
        (t, rl - 1)
    } else {
        proof {
            assert(raw@ =~= line_at(s@, i as int));
        }
        (raw, rl)
    };
    if is_blank_exec(line, ll) {
        return c_states_exec(s, n, j + 1, k + 1, vals, states, fuel - 1);
    }
    let c0 = line.get_char(0);
    if c0 == '#' {
        return c_states_exec(s, n, j + 1, k + 1, vals, states, fuel - 1);
    }
    if c0 == ' ' {
        if states.len() == 0 {
            return Err(line_err_exec(k, "rule before any state"));
        }
        match parse_rule_line_exec(line, ll, vals) {
            Err(c) => Err(line_err_exec(k, c)),
            Ok(None) => c_states_exec(s, n, j + 1, k + 1, vals, states, fuel - 1),
            Ok(Some(rule)) => {
                let ghost pre = states@;
                let mut st = match states.pop() {
                    Some(st) => st,
                    None => {
                        proof {
                            assert(false);
                        }
                        return Err(String::new());
                    },
                };
                st.rules.push(rule);
                states.push(st);
                proof {
                    let li = pstates_view(pre).len() - 1;
                    let gst = GProtoState {
                        name: pstates_view(pre)[li].name,
                        rules: pstates_view(pre)[li].rules.push(proto_view(rule)),
                    };
                    assert(pstate_view(st) =~= gst) by {
                        assert(st.rules@.map_values(|r: ProtoRule| proto_view(r)) =~= pre[
                            li
                        ].rules@.map_values(|r: ProtoRule| proto_view(r)).push(proto_view(rule)));
                    }
                    assert(pstates_view(states@) =~= pstates_view(pre).update(li, gst));
                }
                c_states_exec(s, n, j + 1, k + 1, vals, states, fuel - 1)
            },
        }
    } else {
        if find_pstate_exec(states, line, 0).is_some() {
            return Err(line_err_exec(k, "duplicate state name"));
        }
        states.push(ProtoState { name: String::from_str(line), rules: Vec::new() });
        proof {
            assert(pstates_view(states@) =~~= pstates_view(old(states)@).push(
                GProtoState { name: line@, rules: Seq::empty() },
            ));
        }
        c_states_exec(s, n, j + 1, k + 1, vals, states, fuel - 1)
    }
}

fn resolve_rules_exec(names: &Vec<String>, rules: Vec<ProtoRule>) -> (r: Result<Vec<Rule>, ()>)
    ensures
        ({
            let g = resolve_rules(strs_view(names@), rules@.map_values(|p: ProtoRule| proto_view(p)));
            match r {
                Ok(out) => g == Some(out@.map_values(|x: Rule| rule_view(x))),
                Err(_) => g is None,
            }
        }),
    decreases rules@.len(),
{
    let mut rules = rules;
    if rules.len() == 0 {
        let out: Vec<Rule> = Vec::new();
        proof {
            assert(rules@.map_values(|p: ProtoRule| proto_view(p)) =~= Seq::<GProtoRule>::empty());
            assert(out@.map_values(|x: Rule| rule_view(x)) =~= Seq::<GRule>::empty());
        }
        return Ok(out);
    }
    let ghost protos = rules@.map_values(|p: ProtoRule| proto_view(p));
    let p = rules.remove(0);
    proof {
        assert(rules@.map_values(|pp: ProtoRule| proto_view(pp)) =~= protos.drop_first());
        assert(proto_view(p) == protos[0]);
    }
    let next = if p.next_is_halt {
        NextState::Halt
    } else if p.has_next {
        match find_name_exec(names, p.next_name.as_str(), 0) {
            None => {
                return Err(());
            },
            Some(si) => NextState::To(si),
        }
    } else {
        NextState::Stay
    };
    match resolve_rules_exec(names, rules) {
        Err(_) => Err(()),
        Ok(rest) => {
            let rule = Rule {
                pat: p.pat,
                slot_vals: p.slot_vals,
                actions: p.actions,
                err_msg: p.err_msg,
                next,
            };
            let mut out = rest;
            out.insert(0, rule);
            proof {
                let g = resolve_rules(strs_view(names@), protos);
                assert(g == Some(out@.map_values(|x: Rule| rule_view(x)))) by {
                    assert(out@.map_values(|x: Rule| rule_view(x)) =~= seq![rule_view(rule)]
                        + out@.map_values(|x: Rule| rule_view(x)).drop_first());
                    assert(out@.map_values(|x: Rule| rule_view(x)).drop_first() =~= rest@
                        .map_values(|x: Rule| rule_view(x)));
                }
            }
            Ok(out)
        },
    }
}

fn find_name_exec(names: &Vec<String>, name: &str, i: usize) -> (r: Option<usize>)
    requires
        i <= names@.len(),
    ensures
        ({
            let g = find_name_at(strs_view(names@), name@, i as int);
            match r {
                Some(ix) => ix as int == g && ix < names@.len(),
                None => g == -1,
            }
        }),
    decreases names@.len() - i,
{
    if !(i < names.len()) {
        return None;
    }
    proof {
        assert(strs_view(names@)[i as int] == names@[i as int]@);
    }
    if str_eq(names[i].as_str(), name) {
        Some(i)
    } else {
        find_name_exec(names, name, i + 1)
    }
}

fn resolve_states_exec(names: &Vec<String>, states: Vec<ProtoState>) -> (r: Result<
    Vec<StateDef>,
    (),
>)
    ensures
        ({
            let g = resolve_states(strs_view(names@), pstates_view(states@));
            match r {
                Ok(out) => g == Some(out@.map_values(|x: StateDef| state_view(x))),
                Err(_) => g is None,
            }
        }),
    decreases states@.len(),
{
    let mut states = states;
    if states.len() == 0 {
        let out: Vec<StateDef> = Vec::new();
        proof {
            assert(pstates_view(states@) =~= Seq::<GProtoState>::empty());
            assert(out@.map_values(|x: StateDef| state_view(x)) =~= Seq::<GState>::empty());
        }
        return Ok(out);
    }
    let ghost protos = pstates_view(states@);
    let st = states.remove(0);
    proof {
        assert(pstates_view(states@) =~= protos.drop_first());
        assert(pstate_view(st) == protos[0]);
    }
    let rules = match resolve_rules_exec(names, st.rules) {
        Err(_) => {
            return Err(());
        },
        Ok(rules) => rules,
    };
    match resolve_states_exec(names, states) {
        Err(_) => Err(()),
        Ok(rest) => {
            let sd = StateDef { name: st.name, rules };
            let mut out = rest;
            out.insert(0, sd);
            proof {
                let g = resolve_states(strs_view(names@), protos);
                assert(g == Some(out@.map_values(|x: StateDef| state_view(x)))) by {
                    assert(out@.map_values(|x: StateDef| state_view(x)) =~= seq![state_view(sd)]
                        + out@.map_values(|x: StateDef| state_view(x)).drop_first());
                    assert(out@.map_values(|x: StateDef| state_view(x)).drop_first() =~= rest@
                        .map_values(|x: StateDef| state_view(x)));
                    assert(state_view(sd) =~= GState {
                        name: protos[0].name,
                        rules: rules@.map_values(|x: Rule| rule_view(x)),
                    });
                }
            }
            Ok(out)
        },
    }
}

/// Compiles template text into a template, or reports the offending
/// line. `Err` exactly when the specification compiler rejects the
/// text, with the very message it gives.
#[verifier::rlimit(80)]
pub fn compile(text: &str) -> (r: Result<Template, String>)
    ensures
        ({
            let g = compile_spec(text@);
            match r {
                Ok(t) => g.ok && tpl_view(t) == g.tpl,
                Err(e) => !g.ok && e@ == g.err,
            }
        }),
{
    let n = text.unicode_len();
    if n > 1000000 {
        return Err(String::from_str("template too long"));
    }
    let fuel: u64 = (n as u64) + 2;
    let mut vals: Vec<ValueDef> = Vec::new();
    proof {
        assert(values_view(vals@) =~= Seq::<GValue>::empty());
    }
    let (si, sk) = match c_vals_exec(text, n, 0, 1, &mut vals, fuel) {
        Err(e) => {
            return Err(e);
        },
        Ok(pr) => pr,
    };
    if vals.len() == 0 {
        return Err(String::from_str("no value definitions"));
    }
    let mut pstates: Vec<ProtoState> = Vec::new();
    proof {
        assert(pstates_view(pstates@) =~= Seq::<GProtoState>::empty());
    }
    match c_states_exec(text, n, si, sk, &vals, &mut pstates, fuel) {
        Err(e) => {
            return Err(e);
        },
        Ok(_) => {},
    }
    let mut names: Vec<String> = Vec::new();
    let mut ix: usize = 0;
    while ix < pstates.len()
        invariant
            ix <= pstates@.len(),
            names@.len() == ix as int,
            forall|j: int| 0 <= j < ix ==> names@[j]@ == pstates@[j].name@,
        decreases pstates@.len() - ix,
    {
        let nm = pstates[ix].name.clone();
        proof {
            assert(nm@ == pstates@[ix as int].name@);
        }
        names.push(nm);
        ix = ix + 1;
    }
    proof {
        assert(pstates_view(pstates@).len() == pstates@.len());
        assert(pstate_names(pstates_view(pstates@)).len() == pstates@.len());
        assert(forall|j: int|
            0 <= j < pstates@.len() ==> pstate_names(pstates_view(pstates@))[j] == pstates@[
                j
            ].name@);
        assert(forall|j: int| 0 <= j < names@.len() ==> strs_view(names@)[j] == names@[j]@);
        assert(strs_view(names@) =~= pstate_names(pstates_view(pstates@)));
    }
    let start = match find_name_exec(&names, "Start", 0) {
        None => {
            return Err(String::from_str("missing Start state"));
        },
        Some(ix) => ix,
    };
    let (has_eof, eof): (bool, usize) = match find_name_exec(&names, "EOF", 0) {
        None => (false, 0),
        Some(ix) => (true, ix),
    };
    let states = match resolve_states_exec(&names, pstates) {
        Err(_) => {
            return Err(String::from_str("unknown state in transition"));
        },
        Ok(states) => states,
    };
    let t = Template { values: vals, states, start, eof, has_eof };
    proof {
        let g = compile_spec(text@);
        assert(tpl_view(t) =~~= g.tpl);
    }
    Ok(t)
}

} // verus!
