//! The regular-expression dialect used by template rules: character
//! classes, `\d \w \s` and their complements, `.`, anchors `^ $`,
//! grouping `(?:...)`, named captures `(?P<name>...)`, alternation and
//! the repetitions `* + ? {m} {m,} {m,n}`.
//!
//! A pattern compiles into an arena of plain nodes (children referenced
//! by index), so the very same data is constructed by the specification
//! parser and by the executable parser, which is proved to return
//! exactly what the specification parser describes.

use vstd::prelude::*;
use vstd::string::StrSliceExecFns;
use vstd::string::StringExecFns;

verus! {

/// One member of a character class.
#[derive(Debug, Clone, Copy, PartialEq, Eq)]
pub enum ClsItem {
    Ch(char),
    Range(char, char),
    Dig(bool),
    Wrd(bool),
    Spc(bool),
}

/// One node of a compiled pattern. Children are arena indices.
#[derive(Debug, Clone, Copy, PartialEq, Eq)]
pub enum Node {
    /// Matches the empty string.
    Eps,
    /// One literal character.
    Lit(char),
    /// Any single character.
    AnyCh,
    /// A digit (`true`: anything but a digit).
    Dig(bool),
    /// A word character (`true`: anything but one).
    Wrd(bool),
    /// A whitespace character (`true`: anything but one).
    Spc(bool),
    /// A character class over `items[lo .. lo + n]`.
    Cls { neg: bool, lo: usize, n: usize },
    /// Start of the line.
    Bol,
    /// End of the line.
    Eol,
    /// Concatenation.
    Cat(usize, usize),
    /// Ordered alternation: the left side is preferred.
    Alt(usize, usize),
    /// Greedy repetition; `bounded` tells whether `max` applies.
    Rep { child: usize, min: u32, max: u32, bounded: bool },
    /// Named capture group writing into `slot`.
    Cap { slot: usize, child: usize },
}

/// A compiled pattern: node arena, class-item pool, root node, and the
/// capture-group names in slot order.
pub struct Pattern {
    pub nodes: Vec<Node>,
    pub items: Vec<ClsItem>,
    pub names: Vec<String>,
    pub root: usize,
}

/// The views of a sequence of owned strings.
pub open spec fn strs_view(v: Seq<String>) -> Seq<Seq<char>> {
    v.map_values(|x: String| x@)
}

/// What one parsing step produced: progress and the new arena suffixes.
pub struct GParsed {
    pub ok: bool,
    pub i: int,
    pub nodes: Seq<Node>,
    pub items: Seq<ClsItem>,
    pub names: Seq<Seq<char>>,
    pub root: int,
}

pub open spec fn gp_fail() -> GParsed {
    GParsed {
        ok: false,
        i: 0,
        nodes: Seq::empty(),
        items: Seq::empty(),
        names: Seq::empty(),
        root: 0,
    }
}

/// The node for an escape outside a class: `\d \D \w \W \s \S` are
/// predicates, `\n \t \r` control characters, anything else a literal.
pub open spec fn esc_node(c: char) -> Node {
    if c == 'd' {
        Node::Dig(false)
    } else if c == 'D' {
        Node::Dig(true)
    } else if c == 'w' {
        Node::Wrd(false)
    } else if c == 'W' {
        Node::Wrd(true)
    } else if c == 's' {
        Node::Spc(false)
    } else if c == 'S' {
        Node::Spc(true)
    } else if c == 'n' {
        Node::Lit('\n')
    } else if c == 't' {
        Node::Lit('\t')
    } else if c == 'r' {
        Node::Lit('\r')
    } else {
        Node::Lit(c)
    }
}

/// The class item for an escape inside a class.
pub open spec fn esc_item(c: char) -> ClsItem {
    if c == 'd' {
        ClsItem::Dig(false)
    } else if c == 'D' {
        ClsItem::Dig(true)
    } else if c == 'w' {
        ClsItem::Wrd(false)
    } else if c == 'W' {
        ClsItem::Wrd(true)
    } else if c == 's' {
        ClsItem::Spc(false)
    } else if c == 'S' {
        ClsItem::Spc(true)
    } else if c == 'n' {
        ClsItem::Ch('\n')
    } else if c == 't' {
        ClsItem::Ch('\t')
    } else if c == 'r' {
        ClsItem::Ch('\r')
    } else {
        ClsItem::Ch(c)
    }
}

pub open spec fn is_digit_char(c: char) -> bool {
    '0' as u32 <= c as u32 && c as u32 <= '9' as u32
}

pub open spec fn digit_val(c: char) -> int {
    c as u32 - '0' as u32
}

/// Result of scanning a decimal number or a group name.
pub struct GScan {
    pub ok: bool,
    pub val: int,
    pub i: int,
}

pub open spec fn gs_fail() -> GScan {
    GScan { ok: false, val: 0, i: 0 }
}

/// Digits from `i` on, accumulating onto `acc`; fails past 1000000.
pub open spec fn p_num_rec(s: Seq<char>, i: int, acc: int, fuel: nat) -> GScan
    decreases fuel,
{
    if fuel == 0 {
        gs_fail()
    } else if acc > 1000000 {
        gs_fail()
    } else if 0 <= i < s.len() && is_digit_char(s[i]) {
        p_num_rec(s, i + 1, acc * 10 + digit_val(s[i]), (fuel - 1) as nat)
    } else {
        GScan { ok: true, val: acc, i }
    }
}

/// A decimal number starting at `i`; at least one digit.
pub open spec fn p_num(s: Seq<char>, i: int, fuel: nat) -> GScan {
    if 0 <= i < s.len() && is_digit_char(s[i]) {
        p_num_rec(s, i, 0, fuel)
    } else {
        gs_fail()
    }
}

/// Position of the first `>` at or after `i`.
pub open spec fn p_name_end(s: Seq<char>, i: int, fuel: nat) -> GScan
    decreases fuel,
{
    if fuel == 0 {
        gs_fail()
    } else if !(0 <= i < s.len()) {
        gs_fail()
    } else if s[i] == '>' {
        GScan { ok: true, val: 0, i }
    } else {
        p_name_end(s, i + 1, (fuel - 1) as nat)
    }
}

/// Result of scanning the items of a character class.
pub struct GCls {
    pub ok: bool,
    pub i: int,
    pub items: Seq<ClsItem>,
}

pub open spec fn gc_fail() -> GCls {
    GCls { ok: false, i: 0, items: Seq::empty() }
}

/// Class items up to and including the closing `]`.
pub open spec fn p_cls_items(s: Seq<char>, i: int, fuel: nat) -> GCls
    decreases fuel,
{
    if fuel == 0 {
        gc_fail()
    } else if !(0 <= i < s.len()) {
        gc_fail()
    } else if s[i] == ']' {
        GCls { ok: true, i: i + 1, items: Seq::empty() }
    } else if s[i] == '\\' {
        if i + 1 < s.len() {
            let item = esc_item(s[i + 1]);
            let rest = p_cls_items(s, i + 2, (fuel - 1) as nat);
            if rest.ok {
                GCls { ok: true, i: rest.i, items: seq![item] + rest.items }
            } else {
                gc_fail()
            }
        } else {
            gc_fail()
        }
    } else if i + 2 < s.len() && s[i + 1] == '-' && s[i + 2] != ']' && s[i + 2] != '\\' {
        let item = ClsItem::Range(s[i], s[i + 2]);
        let rest = p_cls_items(s, i + 3, (fuel - 1) as nat);
        if rest.ok {
            GCls { ok: true, i: rest.i, items: seq![item] + rest.items }
        } else {
            gc_fail()
        }
    } else {
        let item = ClsItem::Ch(s[i]);
        let rest = p_cls_items(s, i + 1, (fuel - 1) as nat);
        if rest.ok {
            GCls { ok: true, i: rest.i, items: seq![item] + rest.items }
        } else {
            gc_fail()
        }
    }
}

/// An alternation: concatenations separated by `|`.
pub open spec fn p_alt(s: Seq<char>, i: int, nb: int, ib: int, sb: int, fuel: nat) -> GParsed
    decreases fuel,
{
    if fuel == 0 {
        gp_fail()
    } else {
        let r1 = p_cat(s, i, nb, ib, sb, (fuel - 1) as nat);
        if !r1.ok {
            gp_fail()
        } else if r1.i < s.len() && s[r1.i] == '|' {
            let r2 = p_alt(
                s,
                r1.i + 1,
                nb + r1.nodes.len(),
                ib + r1.items.len(),
                sb + r1.names.len(),
                (fuel - 1) as nat,
            );
            if r2.ok {
                GParsed {
                    ok: true,
                    i: r2.i,
                    nodes: r1.nodes + r2.nodes + seq![
                        Node::Alt(r1.root as usize, r2.root as usize),
                    ],
                    items: r1.items + r2.items,
                    names: r1.names + r2.names,
                    root: nb + r1.nodes.len() + r2.nodes.len(),
                }
            } else {
                gp_fail()
            }
        } else {
            r1
        }
    }
}

/// A concatenation: repetitions until `|`, `)` or the end.
pub open spec fn p_cat(s: Seq<char>, i: int, nb: int, ib: int, sb: int, fuel: nat) -> GParsed
    decreases fuel,
{
    if fuel == 0 {
        gp_fail()
    } else if !(0 <= i < s.len()) || s[i] == '|' || s[i] == ')' {
        GParsed { ok: true, i, nodes: seq![Node::Eps], items: Seq::empty(), names: Seq::empty(), root: nb }
    } else {
        let r1 = p_rep(s, i, nb, ib, sb, (fuel - 1) as nat);
        if !r1.ok {
            gp_fail()
        } else if !(r1.i < s.len()) || s[r1.i] == '|' || s[r1.i] == ')' {
            r1
        } else {
            let r2 = p_cat(
                s,
                r1.i,
                nb + r1.nodes.len(),
                ib + r1.items.len(),
                sb + r1.names.len(),
                (fuel - 1) as nat,
            );
            if r2.ok {
                GParsed {
                    ok: true,
                    i: r2.i,
                    nodes: r1.nodes + r2.nodes + seq![
                        Node::Cat(r1.root as usize, r2.root as usize),
                    ],
                    items: r1.items + r2.items,
                    names: r1.names + r2.names,
                    root: nb + r1.nodes.len() + r2.nodes.len(),
                }
            } else {
                gp_fail()
            }
        }
    }
}

/// An atom with an optional repetition suffix.
pub open spec fn p_rep(s: Seq<char>, i: int, nb: int, ib: int, sb: int, fuel: nat) -> GParsed
    decreases fuel,
{
    if fuel == 0 {
        gp_fail()
    } else {
        let r = p_atom(s, i, nb, ib, sb, (fuel - 1) as nat);
        if !r.ok {
            gp_fail()
        } else if r.i < s.len() && s[r.i] == '*' {
            GParsed {
                ok: true,
                i: r.i + 1,
                nodes: r.nodes + seq![
                    Node::Rep { child: r.root as usize, min: 0u32, max: 0u32, bounded: false },
                ],
                items: r.items,
                names: r.names,
                root: nb + r.nodes.len(),
            }
        } else if r.i < s.len() && s[r.i] == '+' {
            GParsed {
                ok: true,
                i: r.i + 1,
                nodes: r.nodes + seq![
                    Node::Rep { child: r.root as usize, min: 1u32, max: 0u32, bounded: false },
                ],
                items: r.items,
                names: r.names,
                root: nb + r.nodes.len(),
            }
        } else if r.i < s.len() && s[r.i] == '?' {
            GParsed {
                ok: true,
                i: r.i + 1,
                nodes: r.nodes + seq![
                    Node::Rep { child: r.root as usize, min: 0u32, max: 1u32, bounded: true },
                ],
                items: r.items,
                names: r.names,
                root: nb + r.nodes.len(),
            }
        } else if r.i < s.len() && s[r.i] == '{' {
            let m = p_num(s, r.i + 1, fuel);
            if !m.ok {
                gp_fail()
            } else if m.i < s.len() && s[m.i] == '}' {
                GParsed {
                    ok: true,
                    i: m.i + 1,
                    nodes: r.nodes + seq![
                        Node::Rep {
                            child: r.root as usize,
                            min: m.val as u32,
                            max: m.val as u32,
                            bounded: true,
                        },
                    ],
                    items: r.items,
                    names: r.names,
                    root: nb + r.nodes.len(),
                }
            } else if m.i < s.len() && s[m.i] == ',' {
                if m.i + 1 < s.len() && s[m.i + 1] == '}' {
                    GParsed {
                        ok: true,
                        i: m.i + 2,
                        nodes: r.nodes + seq![
                            Node::Rep {
                                child: r.root as usize,
                                min: m.val as u32,
                                max: 0u32,
                                bounded: false,
                            },
                        ],
                        items: r.items,
                        names: r.names,
                        root: nb + r.nodes.len(),
                    }
                } else {
                    let x = p_num(s, m.i + 1, fuel);
                    if !x.ok || x.val < m.val {
                        gp_fail()
                    } else if x.i < s.len() && s[x.i] == '}' {
                        GParsed {
                            ok: true,
                            i: x.i + 1,
                            nodes: r.nodes + seq![
                                Node::Rep {
                                    child: r.root as usize,
                                    min: m.val as u32,
                                    max: x.val as u32,
                                    bounded: true,
                                },
                            ],
                            items: r.items,
                            names: r.names,
                            root: nb + r.nodes.len(),
                        }
                    } else {
                        gp_fail()
                    }
                }
            } else {
                gp_fail()
            }
        } else {
            r
        }
    }
}

/// A single atom.
pub open spec fn p_atom(s: Seq<char>, i: int, nb: int, ib: int, sb: int, fuel: nat) -> GParsed
    decreases fuel,
{
    if fuel == 0 {
        gp_fail()
    } else if !(0 <= i < s.len()) {
        gp_fail()
    } else {
        let c = s[i];
        if c == '(' {
            if i + 2 < s.len() && s[i + 1] == '?' && s[i + 2] == ':' {
                let r = p_alt(s, i + 3, nb, ib, sb, (fuel - 1) as nat);
                if r.ok && r.i < s.len() && s[r.i] == ')' {
                    GParsed { ok: true, i: r.i + 1, nodes: r.nodes, items: r.items, names: r.names, root: r.root }
                } else {
                    gp_fail()
                }
            } else if i + 3 < s.len() && s[i + 1] == '?' && s[i + 2] == 'P' && s[i + 3] == '<' {
                let ne = p_name_end(s, i + 4, fuel);
                if !ne.ok || ne.i == i + 4 {
                    gp_fail()
                } else {
                    let name = s.subrange(i + 4, ne.i);
                    let r = p_alt(s, ne.i + 1, nb, ib, sb + 1, (fuel - 1) as nat);
                    if r.ok && r.i < s.len() && s[r.i] == ')' {
                        GParsed {
                            ok: true,
                            i: r.i + 1,
                            nodes: r.nodes + seq![
                                Node::Cap { slot: sb as usize, child: r.root as usize },
                            ],
                            items: r.items,
                            names: seq![name] + r.names,
                            root: nb + r.nodes.len(),
                        }
                    } else {
                        gp_fail()
                    }
                }
            } else {
                let r = p_alt(s, i + 1, nb, ib, sb, (fuel - 1) as nat);
                if r.ok && r.i < s.len() && s[r.i] == ')' {
                    GParsed { ok: true, i: r.i + 1, nodes: r.nodes, items: r.items, names: r.names, root: r.root }
                } else {
                    gp_fail()
                }
            }
        } else if c == '[' {
            let start = if i + 1 < s.len() && s[i + 1] == '^' {
                i + 2
            } else {
                i + 1
            };
            let neg = i + 1 < s.len() && s[i + 1] == '^';
            let r = p_cls_items(s, start, fuel);
            if r.ok {
                GParsed {
                    ok: true,
                    i: r.i,
                    nodes: seq![
                        Node::Cls { neg, lo: ib as usize, n: r.items.len() as usize },
                    ],
                    items: r.items,
                    names: Seq::empty(),
                    root: nb,
                }
            } else {
                gp_fail()
            }
        } else if c == '\\' {
            if i + 1 < s.len() {
                GParsed {
                    ok: true,
                    i: i + 2,
                    nodes: seq![esc_node(s[i + 1])],
                    items: Seq::empty(),
                    names: Seq::empty(),
                    root: nb,
                }
            } else {
                gp_fail()
            }
        } else if c == '.' {
            GParsed { ok: true, i: i + 1, nodes: seq![Node::AnyCh], items: Seq::empty(), names: Seq::empty(), root: nb }
        } else if c == '^' {
            GParsed { ok: true, i: i + 1, nodes: seq![Node::Bol], items: Seq::empty(), names: Seq::empty(), root: nb }
        } else if c == '$' {
            GParsed { ok: true, i: i + 1, nodes: seq![Node::Eol], items: Seq::empty(), names: Seq::empty(), root: nb }
        } else if c == ')' || c == '|' || c == '*' || c == '+' || c == '?' || c == '{' || c == ']'
            || c == '}' {
            gp_fail()
        } else {
            GParsed { ok: true, i: i + 1, nodes: seq![Node::Lit(c)], items: Seq::empty(), names: Seq::empty(), root: nb }
        }
    }
}

/// The fuel that the pattern parser starts with: a generous bound on
/// its recursion depth.
pub open spec fn parse_fuel(len: nat) -> nat {
    8 * len + 16
}

/// What compiling a pattern text yields: the whole text must parse.
pub open spec fn compile_pattern_spec(s: Seq<char>) -> GParsed {
    if s.len() > 1000000 {
        gp_fail()
    } else {
        let r = p_alt(s, 0, 0, 0, 0, parse_fuel(s.len()));
        if r.ok && r.i == s.len() {
            r
        } else {
            gp_fail()
        }
    }
}

fn is_digit_exec(c: char) -> (r: bool)
    ensures
        r == is_digit_char(c),
{
    let u = c as u32;
    48 <= u && u <= 57
}

fn esc_node_exec(c: char) -> (r: Node)
    ensures
        r == esc_node(c),
{
    if c == 'd' {
        Node::Dig(false)
    } else if c == 'D' {
        Node::Dig(true)
    } else if c == 'w' {
        Node::Wrd(false)
    } else if c == 'W' {
        Node::Wrd(true)
    } else if c == 's' {
        Node::Spc(false)
    } else if c == 'S' {
        Node::Spc(true)
    } else if c == 'n' {
        Node::Lit('\n')
    } else if c == 't' {
        Node::Lit('\t')
    } else if c == 'r' {
        Node::Lit('\r')
    } else {
        Node::Lit(c)
    }
}

fn esc_item_exec(c: char) -> (r: ClsItem)
    ensures
        r == esc_item(c),
{
    if c == 'd' {
        ClsItem::Dig(false)
    } else if c == 'D' {
        ClsItem::Dig(true)
    } else if c == 'w' {
        ClsItem::Wrd(false)
    } else if c == 'W' {
        ClsItem::Wrd(true)
    } else if c == 's' {
        ClsItem::Spc(false)
    } else if c == 'S' {
        ClsItem::Spc(true)
    } else if c == 'n' {
        ClsItem::Ch('\n')
    } else if c == 't' {
        ClsItem::Ch('\t')
    } else if c == 'r' {
        ClsItem::Ch('\r')
    } else {
        ClsItem::Ch(c)
    }
}

fn e_num_rec(s: &str, n: usize, i: usize, acc: u32, fuel: u64) -> (r: Result<(u32, usize), ()>)
    requires
        n == s@.len(),
        n <= 1000000,
        i <= n,
    ensures
        ({
            let g = p_num_rec(s@, i as int, acc as int, fuel as nat);
            match r {
                Ok(pr) => g.ok && pr.0 as int == g.val && pr.1 as int == g.i && i <= pr.1 <= n,
                Err(_) => !g.ok,
            }
        }),
    decreases fuel,
{
    if fuel == 0 {
        Err(())
    } else if acc > 1000000 {
        Err(())
    } else if i < n && is_digit_exec(s.get_char(i)) {
        let d = (s.get_char(i) as u32) - 48;
        e_num_rec(s, n, i + 1, acc * 10 + d, fuel - 1)
    } else {
        Ok((acc, i))
    }
}

fn e_num(s: &str, n: usize, i: usize, fuel: u64) -> (r: Result<(u32, usize), ()>)
    requires
        n == s@.len(),
        n <= 1000000,
        i <= n,
    ensures
        ({
            let g = p_num(s@, i as int, fuel as nat);
            match r {
                Ok(pr) => g.ok && pr.0 as int == g.val && pr.1 as int == g.i && i <= pr.1 <= n,
                Err(_) => !g.ok,
            }
        }),
{
    if i < n && is_digit_exec(s.get_char(i)) {
        e_num_rec(s, n, i, 0, fuel)
    } else {
        Err(())
    }
}

fn e_name_end(s: &str, n: usize, i: usize, fuel: u64) -> (r: Result<usize, ()>)
    requires
        n == s@.len(),
        n <= 1000000,
        i <= n,
    ensures
        ({
            let g = p_name_end(s@, i as int, fuel as nat);
            match r {
                Ok(ni) => g.ok && ni as int == g.i && i <= ni < n,
                Err(_) => !g.ok,
            }
        }),
    decreases fuel,
{
    if fuel == 0 {
        Err(())
    } else if !(i < n) {
        Err(())
    } else if s.get_char(i) == '>' {
        Ok(i)
    } else {
        e_name_end(s, n, i + 1, fuel - 1)
    }
}

#[verifier::rlimit(80)]
fn e_cls_items(s: &str, n: usize, i: usize, items: &mut Vec<ClsItem>, fuel: u64) -> (r: Result<
    usize,
    (),
>)
    requires
        n == s@.len(),
        n <= 1000000,
        i <= n,
    ensures
        ({
            let g = p_cls_items(s@, i as int, fuel as nat);
            match r {
                Ok(ni) => g.ok && ni as int == g.i && i <= ni <= n && final(items)@ == old(items)@
                    + g.items,
                Err(_) => !g.ok,
            }
        }),
    decreases fuel,
{
    if fuel == 0 {
        Err(())
    } else if !(i < n) {
        Err(())
    } else if s.get_char(i) == ']' {
        proof {
            assert(final(items)@ =~= old(items)@ + Seq::<ClsItem>::empty());
        }
        Ok(i + 1)
    } else if s.get_char(i) == '\\' {
        if i + 1 < n {
            let item = esc_item_exec(s.get_char(i + 1));
            items.push(item);
            let rest = e_cls_items(s, n, i + 2, items, fuel - 1);
            match rest {
                Ok(ni) => {
                    proof {
                        let g = p_cls_items(s@, i as int, fuel as nat);
                        assert(final(items)@ =~= old(items)@ + g.items);
                    }
                    Ok(ni)
                },
                Err(_) => Err(()),
            }
        } else {
            Err(())
        }
    } else if i + 2 < n && s.get_char(i + 1) == '-' && s.get_char(i + 2) != ']' && s.get_char(
        i + 2,
    ) != '\\' {
        let item = ClsItem::Range(s.get_char(i), s.get_char(i + 2));
        items.push(item);
        let rest = e_cls_items(s, n, i + 3, items, fuel - 1);
        match rest {
            Ok(ni) => {
                proof {
                    let g = p_cls_items(s@, i as int, fuel as nat);
                    assert(final(items)@ =~= old(items)@ + g.items);
                }
                Ok(ni)
            },
            Err(_) => Err(()),
        }
    } else {
        let item = ClsItem::Ch(s.get_char(i));
        items.push(item);
        let rest = e_cls_items(s, n, i + 1, items, fuel - 1);
        match rest {
            Ok(ni) => {
                proof {
                    let g = p_cls_items(s@, i as int, fuel as nat);
                    assert(final(items)@ =~= old(items)@ + g.items);
                }
                Ok(ni)
            },
            Err(_) => Err(()),
        }
    }
}

#[verifier::rlimit(80)]
fn e_alt(
    s: &str,
    n: usize,
    i: usize,
    nodes: &mut Vec<Node>,
    items: &mut Vec<ClsItem>,
    names: &mut Vec<String>,
    fuel: u64,
) -> (r: Result<(usize, usize), ()>)
    requires
        n == s@.len(),
        n <= 1000000,
        i <= n,
    ensures
        ({
            let g = p_alt(
                s@,
                i as int,
                old(nodes)@.len() as int,
                old(items)@.len() as int,
                old(names)@.len() as int,
                fuel as nat,
            );
            match r {
                Ok(pr) => g.ok && pr.0 as int == g.i && pr.1 as int == g.root && i <= pr.0 <= n
                    && final(nodes)@ == old(nodes)@ + g.nodes && final(items)@ == old(items)@
                    + g.items && strs_view(final(names)@) == strs_view(old(names)@) + g.names,
                Err(_) => !g.ok,
            }
        }),
    decreases fuel, 3int,
{
    if fuel == 0 {
        return Err(());
    }
    let r1 = match e_cat(s, n, i, nodes, items, names, fuel - 1) {
        Ok(pr) => pr,
        Err(_) => {
            return Err(());
        },
    };
    if r1.0 < n && s.get_char(r1.0) == '|' {
        let ghost nb0 = old(nodes)@.len() as int;
        let ghost ib0 = old(items)@.len() as int;
        let ghost sb0 = old(names)@.len() as int;
        let ghost g1 = p_cat(s@, i as int, nb0, ib0, sb0, (fuel - 1) as nat);
        let ghost nb2 = nodes@.len() as int;
        let ghost ib2 = items@.len() as int;
        let ghost sb2 = names@.len() as int;
        proof {
            assert(sb2 == sb0 + g1.names.len()) by {
                assert(strs_view(names@).len() == names@.len());
                assert(strs_view(old(names)@).len() == old(names)@.len());
            }
        }
        let r2 = match e_alt(s, n, r1.0 + 1, nodes, items, names, fuel - 1) {
            Ok(pr) => pr,
            Err(_) => {
                proof {
                    let g2 = p_alt(s@, r1.0 + 1 as int, nb2, ib2, sb2, (fuel - 1) as nat);
                    assert(!g2.ok);
                    assert(!p_alt(s@, i as int, nb0, ib0, sb0, fuel as nat).ok);
                }
                return Err(());
            },
        };
        let root = nodes.len();
        nodes.push(Node::Alt(r1.1, r2.1));
        proof {
            let g = p_alt(
                s@,
                i as int,
                old(nodes)@.len() as int,
                old(items)@.len() as int,
                old(names)@.len() as int,
                fuel as nat,
            );
            assert(nodes@ =~= old(nodes)@ + g.nodes);
            assert(items@ =~= old(items)@ + g.items);
            assert(strs_view(names@) =~= strs_view(old(names)@) + g.names);
        }
        Ok((r2.0, root))
    } else {
        Ok(r1)
    }
}

#[verifier::rlimit(80)]
fn e_cat(
    s: &str,
    n: usize,
    i: usize,
    nodes: &mut Vec<Node>,
    items: &mut Vec<ClsItem>,
    names: &mut Vec<String>,
    fuel: u64,
) -> (r: Result<(usize, usize), ()>)
    requires
        n == s@.len(),
        n <= 1000000,
        i <= n,
    ensures
        ({
            let g = p_cat(
                s@,
                i as int,
                old(nodes)@.len() as int,
                old(items)@.len() as int,
                old(names)@.len() as int,
                fuel as nat,
            );
            match r {
                Ok(pr) => g.ok && pr.0 as int == g.i && pr.1 as int == g.root && i <= pr.0 <= n
                    && final(nodes)@ == old(nodes)@ + g.nodes && final(items)@ == old(items)@
                    + g.items && strs_view(final(names)@) == strs_view(old(names)@) + g.names,
                Err(_) => !g.ok,
            }
        }),
    decreases fuel, 2int,
{
    if fuel == 0 {
        return Err(());
    }
    if !(i < n) || s.get_char(i) == '|' || s.get_char(i) == ')' {
        let root = nodes.len();
        nodes.push(Node::Eps);
        proof {
            let g = p_cat(
                s@,
                i as int,
                old(nodes)@.len() as int,
                old(items)@.len() as int,
                old(names)@.len() as int,
                fuel as nat,
            );
            assert(nodes@ =~= old(nodes)@ + g.nodes);
            assert(items@ =~= old(items)@ + g.items);
            assert(strs_view(names@) =~= strs_view(old(names)@) + g.names);
        }
        return Ok((i, root));
    }
    let r1 = match e_rep(s, n, i, nodes, items, names, fuel - 1) {
        Ok(pr) => pr,
        Err(_) => {
            return Err(());
        },
    };
    if !(r1.0 < n) || s.get_char(r1.0) == '|' || s.get_char(r1.0) == ')' {
        return Ok(r1);
    }
    let ghost nb0 = old(nodes)@.len() as int;
    let ghost ib0 = old(items)@.len() as int;
    let ghost sb0 = old(names)@.len() as int;
    let ghost g1 = p_rep(s@, i as int, nb0, ib0, sb0, (fuel - 1) as nat);
    let ghost nb2 = nodes@.len() as int;
    let ghost ib2 = items@.len() as int;
    let ghost sb2 = names@.len() as int;
    proof {
        assert(nb2 == nb0 + g1.nodes.len());
        assert(ib2 == ib0 + g1.items.len());
        assert(sb2 == sb0 + g1.names.len()) by {
            assert(strs_view(names@).len() == names@.len());
            assert(strs_view(old(names)@).len() == old(names)@.len());
        }
    }
    let r2 = match e_cat(s, n, r1.0, nodes, items, names, fuel - 1) {
        Ok(pr) => pr,
        Err(_) => {
            proof {
                let g2 = p_cat(s@, r1.0 as int, nb2, ib2, sb2, (fuel - 1) as nat);
                assert(!g2.ok);
                assert(!p_cat(s@, i as int, nb0, ib0, sb0, fuel as nat).ok);
            }
            return Err(());
        },
    };
    let root = nodes.len();
    nodes.push(Node::Cat(r1.1, r2.1));
    proof {
        let g = p_cat(
            s@,
            i as int,
            old(nodes)@.len() as int,
            old(items)@.len() as int,
            old(names)@.len() as int,
            fuel as nat,
        );
        assert(nodes@ =~= old(nodes)@ + g.nodes);
        assert(items@ =~= old(items)@ + g.items);
        assert(strs_view(names@) =~= strs_view(old(names)@) + g.names);
    }
    Ok((r2.0, root))
}

#[verifier::rlimit(80)]
fn e_rep(
    s: &str,
    n: usize,
    i: usize,
    nodes: &mut Vec<Node>,
    items: &mut Vec<ClsItem>,
    names: &mut Vec<String>,
    fuel: u64,
) -> (r: Result<(usize, usize), ()>)
    requires
        n == s@.len(),
        n <= 1000000,
        i <= n,
    ensures
        ({
            let g = p_rep(
                s@,
                i as int,
                old(nodes)@.len() as int,
                old(items)@.len() as int,
                old(names)@.len() as int,
                fuel as nat,
            );
            match r {
                Ok(pr) => g.ok && pr.0 as int == g.i && pr.1 as int == g.root && i <= pr.0 <= n
                    && final(nodes)@ == old(nodes)@ + g.nodes && final(items)@ == old(items)@
                    + g.items && strs_view(final(names)@) == strs_view(old(names)@) + g.names,
                Err(_) => !g.ok,
            }
        }),
    decreases fuel, 1int,
{
    if fuel == 0 {
        return Err(());
    }
    let ra = match e_atom(s, n, i, nodes, items, names, fuel - 1) {
        Ok(pr) => pr,
        Err(_) => {
            return Err(());
        },
    };
    let ghost g = p_rep(
        s@,
        i as int,
        old(nodes)@.len() as int,
        old(items)@.len() as int,
        old(names)@.len() as int,
        fuel as nat,
    );
    if ra.0 < n && s.get_char(ra.0) == '*' {
        let root = nodes.len();
        nodes.push(Node::Rep { child: ra.1, min: 0, max: 0, bounded: false });
        proof {
            assert(nodes@ =~= old(nodes)@ + g.nodes);
        }
        Ok((ra.0 + 1, root))
    } else if ra.0 < n && s.get_char(ra.0) == '+' {
        let root = nodes.len();
        nodes.push(Node::Rep { child: ra.1, min: 1, max: 0, bounded: false });
        proof {
            assert(nodes@ =~= old(nodes)@ + g.nodes);
        }
        Ok((ra.0 + 1, root))
    } else if ra.0 < n && s.get_char(ra.0) == '?' {
        let root = nodes.len();
        nodes.push(Node::Rep { child: ra.1, min: 0, max: 1, bounded: true });
        proof {
            assert(nodes@ =~= old(nodes)@ + g.nodes);
        }
        Ok((ra.0 + 1, root))
    } else if ra.0 < n && s.get_char(ra.0) == '{' {
        let m = match e_num(s, n, ra.0 + 1, fuel) {
            Ok(pr) => pr,
            Err(_) => {
                return Err(());
            },
        };
        if m.1 < n && s.get_char(m.1) == '}' {
            let root = nodes.len();
            nodes.push(Node::Rep { child: ra.1, min: m.0, max: m.0, bounded: true });
            proof {
                assert(nodes@ =~= old(nodes)@ + g.nodes);
            }
            Ok((m.1 + 1, root))
        } else if m.1 < n && s.get_char(m.1) == ',' {
            if m.1 + 1 < n && s.get_char(m.1 + 1) == '}' {
                let root = nodes.len();
                nodes.push(Node::Rep { child: ra.1, min: m.0, max: 0, bounded: false });
                proof {
                    assert(nodes@ =~= old(nodes)@ + g.nodes);
                }
                Ok((m.1 + 2, root))
            } else {
                let x = match e_num(s, n, m.1 + 1, fuel) {
                    Ok(pr) => pr,
                    Err(_) => {
                        return Err(());
                    },
                };
                if x.0 < m.0 {
                    return Err(());
                }
                if x.1 < n && s.get_char(x.1) == '}' {
                    let root = nodes.len();
                    nodes.push(Node::Rep { child: ra.1, min: m.0, max: x.0, bounded: true });
                    proof {
                        assert(nodes@ =~= old(nodes)@ + g.nodes);
                    }
                    Ok((x.1 + 1, root))
                } else {
                    Err(())
                }
            }
        } else {
            Err(())
        }
    } else {
        Ok(ra)
    }
}

#[verifier::rlimit(80)]
fn e_atom(
    s: &str,
    n: usize,
    i: usize,
    nodes: &mut Vec<Node>,
    items: &mut Vec<ClsItem>,
    names: &mut Vec<String>,
    fuel: u64,
) -> (r: Result<(usize, usize), ()>)
    requires
        n == s@.len(),
        n <= 1000000,
        i <= n,
    ensures
        ({
            let g = p_atom(
                s@,
                i as int,
                old(nodes)@.len() as int,
                old(items)@.len() as int,
                old(names)@.len() as int,
                fuel as nat,
            );
            match r {
                Ok(pr) => g.ok && pr.0 as int == g.i && pr.1 as int == g.root && i <= pr.0 <= n
                    && final(nodes)@ == old(nodes)@ + g.nodes && final(items)@ == old(items)@
                    + g.items && strs_view(final(names)@) == strs_view(old(names)@) + g.names,
                Err(_) => !g.ok,
            }
        }),
    decreases fuel, 0int,
{
    if fuel == 0 {
        return Err(());
    }
    if !(i < n) {
        return Err(());
    }
    let ghost g = p_atom(
        s@,
        i as int,
        old(nodes)@.len() as int,
        old(items)@.len() as int,
        old(names)@.len() as int,
        fuel as nat,
    );
    let c = s.get_char(i);
    if c == '(' {
        if i + 2 < n && s.get_char(i + 1) == '?' && s.get_char(i + 2) == ':' {
            let rr = match e_alt(s, n, i + 3, nodes, items, names, fuel - 1) {
                Ok(pr) => pr,
                Err(_) => {
                    return Err(());
                },
            };
            if rr.0 < n && s.get_char(rr.0) == ')' {
                Ok((rr.0 + 1, rr.1))
            } else {
                Err(())
            }
        } else if i + 3 < n && s.get_char(i + 1) == '?' && s.get_char(i + 2) == 'P' && s.get_char(
            i + 3,
        ) == '<' {
            let ne = match e_name_end(s, n, i + 4, fuel) {
                Ok(v) => v,
                Err(_) => {
                    return Err(());
                },
            };
            if ne == i + 4 {
                return Err(());
            }
            let nm = s.substring_char(i + 4, ne);
            let slot = names.len();
            names.push(String::from_str(nm));
            let rr = match e_alt(s, n, ne + 1, nodes, items, names, fuel - 1) {
                Ok(pr) => pr,
                Err(_) => {
                    return Err(());
                },
            };
            if rr.0 < n && s.get_char(rr.0) == ')' {
                let root = nodes.len();
                nodes.push(Node::Cap { slot, child: rr.1 });
                proof {
                    assert(nodes@ =~= old(nodes)@ + g.nodes);
                    assert(strs_view(names@) =~= strs_view(old(names)@) + g.names);
                }
                Ok((rr.0 + 1, root))
            } else {
                Err(())
            }
        } else {
            let rr = match e_alt(s, n, i + 1, nodes, items, names, fuel - 1) {
                Ok(pr) => pr,
                Err(_) => {
                    return Err(());
                },
            };
            if rr.0 < n && s.get_char(rr.0) == ')' {
                Ok((rr.0 + 1, rr.1))
            } else {
                Err(())
            }
        }
    } else if c == '[' {
        let neg = i + 1 < n && s.get_char(i + 1) == '^';
        let start = if neg {
            i + 2
        } else {
            i + 1
        };
        let lo = items.len();
        let ni = match e_cls_items(s, n, start, items, fuel) {
            Ok(v) => v,
            Err(_) => {
                return Err(());
            },
        };
        let cnt = items.len() - lo;
        let root = nodes.len();
        nodes.push(Node::Cls { neg, lo, n: cnt });
        proof {
            assert(nodes@ =~= old(nodes)@ + g.nodes);
            assert(strs_view(names@) =~= strs_view(old(names)@) + g.names);
        }
        Ok((ni, root))
    } else if c == '\\' {
        if i + 1 < n {
            let nd = esc_node_exec(s.get_char(i + 1));
            let root = nodes.len();
            nodes.push(nd);
            proof {
                assert(nodes@ =~= old(nodes)@ + g.nodes);
                assert(items@ =~= old(items)@ + g.items);
                assert(strs_view(names@) =~= strs_view(old(names)@) + g.names);
            }
            Ok((i + 2, root))
        } else {
            Err(())
        }
    } else if c == '.' {
        let root = nodes.len();
        nodes.push(Node::AnyCh);
        proof {
            assert(nodes@ =~= old(nodes)@ + g.nodes);
            assert(items@ =~= old(items)@ + g.items);
            assert(strs_view(names@) =~= strs_view(old(names)@) + g.names);
        }
        Ok((i + 1, root))
    } else if c == '^' {
        let root = nodes.len();
        nodes.push(Node::Bol);
        proof {
            assert(nodes@ =~= old(nodes)@ + g.nodes);
            assert(items@ =~= old(items)@ + g.items);
            assert(strs_view(names@) =~= strs_view(old(names)@) + g.names);
        }
        Ok((i + 1, root))
    } else if c == '$' {
        let root = nodes.len();
        nodes.push(Node::Eol);
        proof {
            assert(nodes@ =~= old(nodes)@ + g.nodes);
            assert(items@ =~= old(items)@ + g.items);
            assert(strs_view(names@) =~= strs_view(old(names)@) + g.names);
        }
        Ok((i + 1, root))
    } else if c == ')' || c == '|' || c == '*' || c == '+' || c == '?' || c == '{' || c == ']' || c
        == '}' {
        Err(())
    } else {
        let root = nodes.len();
        nodes.push(Node::Lit(c));
        proof {
            assert(nodes@ =~= old(nodes)@ + g.nodes);
            assert(items@ =~= old(items)@ + g.items);
            assert(strs_view(names@) =~= strs_view(old(names)@) + g.names);
        }
        Ok((i + 1, root))
    }
}

/// Compiles one pattern text. `Err` exactly when the specification
/// parser rejects the text.
#[verifier::rlimit(80)]
pub fn compile_pattern(s: &str) -> (r: Result<Pattern, ()>)
    ensures
        ({
            let g = compile_pattern_spec(s@);
            match r {
                Ok(p) => g.ok && p.nodes@ == g.nodes && p.items@ == g.items && strs_view(p.names@)
                    == g.names && p.root as int == g.root,
                Err(_) => !g.ok,
            }
        }),
{
    let n = s.unicode_len();
    if n > 1000000 {
        return Err(());
    }
    let mut nodes: Vec<Node> = Vec::new();
    let mut items: Vec<ClsItem> = Vec::new();
    let mut names: Vec<String> = Vec::new();
    let fuel: u64 = 8 * (n as u64) + 16;
    proof {
        assert(fuel as nat == parse_fuel(s@.len()));
    }
    match e_alt(s, n, 0, &mut nodes, &mut items, &mut names, fuel) {
        Ok(pr) => {
            if pr.0 == n {
                proof {
                    assert(strs_view(names@) =~= Seq::<Seq<char>>::empty() + compile_pattern_spec(
                        s@,
                    ).names);
                }
                Ok(Pattern { nodes, items, names, root: pr.1 })
            } else {
                Err(())
            }
        },
        Err(_) => Err(()),
    }
}

} // verus!
