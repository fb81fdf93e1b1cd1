//! Anchored matching of a compiled pattern against one line, with
//! named-capture spans.
//!
//! The matcher is a backtracking interpreter over a work stack of
//! tasks; alternations and greedy repetitions try their preferred
//! branch first and fall back on failure. A fuel counter bounds the
//! depth of the search; a pathological pattern that exhausts it is
//! reported as such, never looped on. The executable matcher returns
//! exactly what the specification matcher describes.

use vstd::prelude::*;
use vstd::string::StrSliceExecFns;
use crate::pattern::ClsItem;
use crate::pattern::Node;
use crate::pattern::Pattern;
use crate::pattern::is_digit_char;

verus! {

/// One pending obligation of the matcher.
#[derive(Debug, Clone, Copy, PartialEq, Eq)]
pub enum Task {
    /// Match the node at this arena index.
    N(usize),
    /// Close the capture group writing into this slot.
    CapEnd(usize),
    /// Fail unless the position has advanced past this one.
    Prog(usize),
    /// Continue a repetition.
    RepT { child: usize, min: u32, max: u32, bounded: bool },
}

/// The state of one capture slot.
#[derive(Debug, Clone, Copy, PartialEq, Eq)]
pub enum CapSt {
    Unset,
    Open(usize),
    Done(usize, usize),
}

/// Outcome of a match attempt.
#[derive(Debug, Clone, PartialEq, Eq)]
pub enum MatchOut {
    /// Matched up to this position, with these capture spans.
    Hit(usize, Vec<CapSt>),
    Miss,
    /// The search depth bound was exhausted.
    Gas,
}

/// Ghost counterpart of `MatchOut`.
pub enum GMatch {
    Hit { end: usize, caps: Seq<CapSt> },
    Miss,
    Gas,
}

pub open spec fn mo_view(m: MatchOut) -> GMatch {
    match m {
        MatchOut::Hit(end, caps) => GMatch::Hit { end, caps: caps@ },
        MatchOut::Miss => GMatch::Miss,
        MatchOut::Gas => GMatch::Gas,
    }
}

pub open spec fn is_word_char(c: char) -> bool {
    is_digit_char(c) || ('a' as u32 <= c as u32 && c as u32 <= 'z' as u32) || ('A' as u32 <= c
        as u32 && c as u32 <= 'Z' as u32) || c == '_'
}

pub open spec fn is_space_char(c: char) -> bool {
    c == ' ' || c == '\t' || c == '\n' || c == '\r' || c == '\u{b}' || c == '\u{c}'
}

pub open spec fn cls_item_match(it: ClsItem, c: char) -> bool {
    match it {
        ClsItem::Ch(d) => c == d,
        ClsItem::Range(a, b) => a as u32 <= c as u32 && c as u32 <= b as u32,
        ClsItem::Dig(neg) => is_digit_char(c) != neg,
        ClsItem::Wrd(neg) => is_word_char(c) != neg,
        ClsItem::Spc(neg) => is_space_char(c) != neg,
    }
}

/// Whether any of the `n` class items starting at `lo` matches `c`.
pub open spec fn cls_match(items: Seq<ClsItem>, lo: int, n: int, c: char) -> bool
    decreases n,
{
    if n <= 0 {
        false
    } else if 0 <= lo < items.len() && cls_item_match(items[lo], c) {
        true
    } else {
        cls_match(items, lo + 1, n - 1, c)
    }
}

/// One step of the specification matcher: takes the top task of the
/// stack and either consumes input, expands structure, or backtracks.
pub open spec fn step(
    nodes: Seq<Node>,
    items: Seq<ClsItem>,
    line: Seq<char>,
    stack: Seq<Task>,
    pos: usize,
    caps: Seq<CapSt>,
    fuel: nat,
) -> GMatch
    decreases fuel,
{
    if fuel == 0 {
        GMatch::Gas
    } else if stack.len() == 0 {
        GMatch::Hit { end: pos, caps }
    } else {
        let t = stack.last();
        let rest = stack.drop_last();
        let f = (fuel - 1) as nat;
        match t {
            Task::Prog(p) => if pos > p {
                step(nodes, items, line, rest, pos, caps, f)
            } else {
                GMatch::Miss
            },
            Task::CapEnd(slot) => if slot < caps.len() {
                match caps[slot as int] {
                    CapSt::Open(st) => step(
                        nodes,
                        items,
                        line,
                        rest,
                        pos,
                        caps.update(slot as int, CapSt::Done(st, pos)),
                        f,
                    ),
                    _ => GMatch::Miss,
                }
            } else {
                GMatch::Miss
            },
            Task::RepT { child, min, max, bounded } => if bounded && max == 0 {
                step(nodes, items, line, rest, pos, caps, f)
            } else if min > 0 {
                let again = Task::RepT {
                    child,
                    min: (min - 1) as u32,
                    max: if bounded {
                        (max - 1) as u32
                    } else {
                        max
                    },
                    bounded,
                };
                step(nodes, items, line, rest.push(again).push(Task::N(child)), pos, caps, f)
            } else {
                let again = Task::RepT {
                    child,
                    min: 0u32,
                    max: if bounded {
                        (max - 1) as u32
                    } else {
                        max
                    },
                    bounded,
                };
                let r1 = step(
                    nodes,
                    items,
                    line,
                    rest.push(again).push(Task::Prog(pos)).push(Task::N(child)),
                    pos,
                    caps,
                    f,
                );
                if r1 is Miss {
                    step(nodes, items, line, rest, pos, caps, f)
                } else {
                    r1
                }
            },
            Task::N(idx) => if !(idx < nodes.len()) {
                GMatch::Miss
            } else {
                match nodes[idx as int] {
                    Node::Eps => step(nodes, items, line, rest, pos, caps, f),
                    Node::Lit(c) => if pos < line.len() && line[pos as int] == c {
                        step(nodes, items, line, rest, (pos + 1) as usize, caps, f)
                    } else {
                        GMatch::Miss
                    },
                    Node::AnyCh => if pos < line.len() {
                        step(nodes, items, line, rest, (pos + 1) as usize, caps, f)
                    } else {
                        GMatch::Miss
                    },
                    Node::Dig(neg) => if pos < line.len() && is_digit_char(line[pos as int])
                        != neg {
                        step(nodes, items, line, rest, (pos + 1) as usize, caps, f)
                    } else {
                        GMatch::Miss
                    },
                    Node::Wrd(neg) => if pos < line.len() && is_word_char(line[pos as int]) != neg {
                        step(nodes, items, line, rest, (pos + 1) as usize, caps, f)
                    } else {
                        GMatch::Miss
                    },
                    Node::Spc(neg) => if pos < line.len() && is_space_char(line[pos as int])
                        != neg {
                        step(nodes, items, line, rest, (pos + 1) as usize, caps, f)
                    } else {
                        GMatch::Miss
                    },
                    Node::Cls { neg, lo, n } => if pos < line.len() && cls_match(
                        items,
                        lo as int,
                        n as int,
                        line[pos as int],
                    ) != neg {
                        step(nodes, items, line, rest, (pos + 1) as usize, caps, f)
                    } else {
                        GMatch::Miss
                    },
                    Node::Bol => if pos == 0 {
                        step(nodes, items, line, rest, pos, caps, f)
                    } else {
                        GMatch::Miss
                    },
                    Node::Eol => if pos == line.len() {
                        step(nodes, items, line, rest, pos, caps, f)
                    } else {
                        GMatch::Miss
                    },
                    Node::Cat(a, b) => step(
                        nodes,
                        items,
                        line,
                        rest.push(Task::N(b)).push(Task::N(a)),
                        pos,
                        caps,
                        f,
                    ),
                    Node::Alt(a, b) => {
                        let r1 = step(nodes, items, line, rest.push(Task::N(a)), pos, caps, f);
                        if r1 is Miss {
                            step(nodes, items, line, rest.push(Task::N(b)), pos, caps, f)
                        } else {
                            r1
                        }
                    },
                    Node::Rep { child, min, max, bounded } => step(
                        nodes,
                        items,
                        line,
                        rest.push(Task::RepT { child, min, max, bounded }),
                        pos,
                        caps,
                        f,
                    ),
                    Node::Cap { slot, child } => if slot < caps.len() {
                        step(
                            nodes,
                            items,
                            line,
                            rest.push(Task::CapEnd(slot)).push(Task::N(child)),
                            pos,
                            caps.update(slot as int, CapSt::Open(pos)),
                            f,
                        )
                    } else {
                        GMatch::Miss
                    },
                }
            },
        }
    }
}

/// The fuel every match attempt starts with.
pub open spec fn match_fuel() -> nat {
    100000
}

/// What matching a pattern anchored at the start of `line` yields.
pub open spec fn match_spec(
    nodes: Seq<Node>,
    items: Seq<ClsItem>,
    nslots: nat,
    root: usize,
    line: Seq<char>,
) -> GMatch {
    step(
        nodes,
        items,
        line,
        seq![Task::N(root)],
        0,
        Seq::new(nslots, |i: int| CapSt::Unset),
        match_fuel(),
    )
}

/// An owned copy of a vector of plain values.
pub fn copy_vec<T: Copy>(v: &Vec<T>) -> (r: Vec<T>)
    ensures
        r@ == v@,
{
    let mut out: Vec<T> = Vec::new();
    let mut i: usize = 0;
    while i < v.len()
        invariant
            i <= v@.len(),
            out@ =~= v@.take(i as int),
        decreases v@.len() - i,
    {
        out.push(v[i]);
        i = i + 1;
    }
    proof {
        assert(out@ =~= v@);
    }
    out
}

fn is_digit_exec(c: char) -> (r: bool)
    ensures
        r == is_digit_char(c),
{
    let u = c as u32;
    48 <= u && u <= 57
}

fn is_word_exec(c: char) -> (r: bool)
    ensures
        r == is_word_char(c),
{
    let u = c as u32;
    (48 <= u && u <= 57) || (97 <= u && u <= 122) || (65 <= u && u <= 90) || c == '_'
}

fn is_space_exec(c: char) -> (r: bool)
    ensures
        r == is_space_char(c),
{
    c == ' ' || c == '\t' || c == '\n' || c == '\r' || c == '\u{b}' || c == '\u{c}'
}

fn cls_item_match_exec(it: ClsItem, c: char) -> (r: bool)
    ensures
        r == cls_item_match(it, c),
{
    match it {
        ClsItem::Ch(d) => c == d,
        ClsItem::Range(a, b) => a as u32 <= c as u32 && c as u32 <= b as u32,
        ClsItem::Dig(neg) => is_digit_exec(c) != neg,
        ClsItem::Wrd(neg) => is_word_exec(c) != neg,
        ClsItem::Spc(neg) => is_space_exec(c) != neg,
    }
}

proof fn cls_match_oob(items: Seq<ClsItem>, lo: int, n: int, c: char)
    requires
        lo >= items.len(),
    ensures
        !cls_match(items, lo, n, c),
    decreases n,
{
    if n > 0 {
        cls_match_oob(items, lo + 1, n - 1, c);
    }
}

fn cls_match_exec(items: &Vec<ClsItem>, lo: usize, n: usize, c: char) -> (r: bool)
    ensures
        r == cls_match(items@, lo as int, n as int, c),
    decreases n,
{
    if n == 0 {
        return false;
    }
    if lo < items.len() {
        if cls_item_match_exec(items[lo], c) {
            return true;
        }
        return cls_match_exec(items, lo + 1, n - 1, c);
    }
    proof {
        cls_match_oob(items@, lo as int, n as int, c);
    }
    false
}

#[verifier::rlimit(80)]
fn m_step(
    nodes: &Vec<Node>,
    items: &Vec<ClsItem>,
    line: &str,
    llen: usize,
    stack: Vec<Task>,
    pos: usize,
    caps: Vec<CapSt>,
    fuel: u64,
) -> (r: MatchOut)
    requires
        llen == line@.len(),
        pos <= llen,
    ensures
        mo_view(r) == step(nodes@, items@, line@, stack@, pos, caps@, fuel as nat),
        r matches MatchOut::Hit(e, _) ==> e <= llen,
    decreases fuel,
{
    if fuel == 0 {
        return MatchOut::Gas;
    }
    let mut stack = stack;
    let t = match stack.pop() {
        Some(t) => t,
        None => {
            return MatchOut::Hit(pos, caps);
        },
    };
    let f = fuel - 1;
    match t {
        Task::Prog(p) => {
            if pos > p {
                m_step(nodes, items, line, llen, stack, pos, caps, f)
            } else {
                MatchOut::Miss
            }
        },
        Task::CapEnd(slot) => {
            if slot < caps.len() {
                match caps[slot] {
                    CapSt::Open(st) => {
                        let mut caps = caps;
                        caps[slot] = CapSt::Done(st, pos);
                        m_step(nodes, items, line, llen, stack, pos, caps, f)
                    },
                    _ => MatchOut::Miss,
                }
            } else {
                MatchOut::Miss
            }
        },
        Task::RepT { child, min, max, bounded } => {
            if bounded && max == 0 {
                m_step(nodes, items, line, llen, stack, pos, caps, f)
            } else if min > 0 {
                let again = Task::RepT {
                    child,
                    min: min - 1,
                    max: if bounded {
                        max - 1
                    } else {
                        max
                    },
                    bounded,
                };
                stack.push(again);
                stack.push(Task::N(child));
                m_step(nodes, items, line, llen, stack, pos, caps, f)
            } else {
                let again = Task::RepT {
                    child,
                    min: 0,
                    max: if bounded {
                        max - 1
                    } else {
                        max
                    },
                    bounded,
                };
                let mut st1 = copy_vec(&stack);
                st1.push(again);
                st1.push(Task::Prog(pos));
                st1.push(Task::N(child));
                let r1 = m_step(nodes, items, line, llen, st1, pos, copy_vec(&caps), f);
                match r1 {
                    MatchOut::Miss => m_step(nodes, items, line, llen, stack, pos, caps, f),
                    _ => r1,
                }
            }
        },
        Task::N(idx) => {
            if !(idx < nodes.len()) {
                return MatchOut::Miss;
            }
            match nodes[idx] {
                Node::Eps => m_step(nodes, items, line, llen, stack, pos, caps, f),
                Node::Lit(c) => {
                    if pos < llen && line.get_char(pos) == c {
                        m_step(nodes, items, line, llen, stack, pos + 1, caps, f)
                    } else {
                        MatchOut::Miss
                    }
                },
                Node::AnyCh => {
                    if pos < llen {
                        m_step(nodes, items, line, llen, stack, pos + 1, caps, f)
                    } else {
                        MatchOut::Miss
                    }
                },
                Node::Dig(neg) => {
                    if pos < llen && is_digit_exec(line.get_char(pos)) != neg {
                        m_step(nodes, items, line, llen, stack, pos + 1, caps, f)
                    } else {
                        MatchOut::Miss
                    }
                },
                Node::Wrd(neg) => {
                    if pos < llen && is_word_exec(line.get_char(pos)) != neg {
                        m_step(nodes, items, line, llen, stack, pos + 1, caps, f)
                    } else {
                        MatchOut::Miss
                    }
                },
                Node::Spc(neg) => {
                    if pos < llen && is_space_exec(line.get_char(pos)) != neg {
                        m_step(nodes, items, line, llen, stack, pos + 1, caps, f)
                    } else {
                        MatchOut::Miss
                    }
                },
                Node::Cls { neg, lo, n } => {
                    if pos < llen && cls_match_exec(items, lo, n, line.get_char(pos)) != neg {
                        m_step(nodes, items, line, llen, stack, pos + 1, caps, f)
                    } else {
                        MatchOut::Miss
                    }
                },
                Node::Bol => {
                    if pos == 0 {
                        m_step(nodes, items, line, llen, stack, pos, caps, f)
                    } else {
                        MatchOut::Miss
                    }
                },
                Node::Eol => {
                    if pos == llen {
                        m_step(nodes, items, line, llen, stack, pos, caps, f)
                    } else {
                        MatchOut::Miss
                    }
                },
                Node::Cat(a, b) => {
                    stack.push(Task::N(b));
                    stack.push(Task::N(a));
                    m_step(nodes, items, line, llen, stack, pos, caps, f)
                },
                Node::Alt(a, b) => {
                    let mut st1 = copy_vec(&stack);
                    st1.push(Task::N(a));
                    let r1 = m_step(nodes, items, line, llen, st1, pos, copy_vec(&caps), f);
                    match r1 {
                        MatchOut::Miss => {
                            stack.push(Task::N(b));
                            m_step(nodes, items, line, llen, stack, pos, caps, f)
                        },
                        _ => r1,
                    }
                },
                Node::Rep { child, min, max, bounded } => {
                    stack.push(Task::RepT { child, min, max, bounded });
                    m_step(nodes, items, line, llen, stack, pos, caps, f)
                },
                Node::Cap { slot, child } => {
                    if slot < caps.len() {
                        let mut caps = caps;
                        caps[slot] = CapSt::Open(pos);
                        stack.push(Task::CapEnd(slot));
                        stack.push(Task::N(child));
                        m_step(nodes, items, line, llen, stack, pos, caps, f)
                    } else {
                        MatchOut::Miss
                    }
                },
            }
        },
    }
}

/// Matches `pat` against `line`, anchored at the start. A hit reports
/// the end of the matched prefix and one capture span per slot.
pub fn match_anchored(pat: &Pattern, nslots: usize, line: &str, llen: usize) -> (r: MatchOut)
    requires
        llen == line@.len(),
    ensures
        mo_view(r) == match_spec(pat.nodes@, pat.items@, nslots as nat, pat.root, line@),
        r matches MatchOut::Hit(e, _) ==> e <= llen,
{
    let mut caps: Vec<CapSt> = Vec::new();
    let mut i: usize = 0;
    let k = nslots;
    while i < k
        invariant
            i <= k,
            caps@ =~= Seq::new(i as nat, |j: int| CapSt::Unset),
        decreases k - i,
    {
        caps.push(CapSt::Unset);
        i = i + 1;
        proof {
            assert(caps@ =~= Seq::new(i as nat, |j: int| CapSt::Unset));
        }
    }
    let mut stack: Vec<Task> = Vec::new();
    stack.push(Task::N(pat.root));
    proof {
        assert(stack@ =~= seq![Task::N(pat.root)]);
        assert(caps@ =~= Seq::new(nslots as nat, |j: int| CapSt::Unset));
    }
    m_step(&pat.nodes, &pat.items, line, llen, stack, 0, caps, 100000)
}

} // verus!
