//! The template registry: command normalization, platform aliases, and
//! the `(platform, command key)` to template lookup.
//!
//! A raw command spelling is split on whitespace and `|`, each word is
//! lowercased with hyphens turned into underscores and expanded from a
//! fixed table of well-known abbreviations, and the words are joined
//! with underscores. A raw form without abbreviation expansion serves
//! as a fallback lookup key.

use vstd::prelude::*;
use vstd::string::StrSliceExecFns;
use vstd::string::StringExecFns;
use crate::text::map_key;
use crate::text::map_key_str;
use crate::text::str_eq;

verus! {

/// Word separators in a raw command: whitespace and the pipe.
pub open spec fn is_sep(c: char) -> bool {
    c == ' ' || c == '\t' || c == '\n' || c == '\r' || c == '|'
}

/// Index just past the word that starts at `i`.
pub open spec fn word_end(s: Seq<char>, i: int) -> int
    decreases s.len() - i,
{
    if i >= s.len() {
        s.len() as int
    } else if is_sep(s[i]) {
        i
    } else {
        word_end(s, i + 1)
    }
}

pub proof fn word_end_bounds(s: Seq<char>, i: int)
    requires
        0 <= i <= s.len(),
    ensures
        i <= word_end(s, i) <= s.len(),
        i < s.len() && !is_sep(s[i]) ==> i < word_end(s, i),
    decreases s.len() - i,
{
    if i < s.len() && !is_sep(s[i]) {
        word_end_bounds(s, i + 1);
    }
}

/// The abbreviation table: well-known single-token short forms and the
/// words they stand for.
pub open spec fn expand_full(w: Seq<char>) -> Seq<char> {
    if w == "sh"@ || w == "sho"@ {
        "show"@
    } else if w == "int"@ {
        "interface"@
    } else if w == "br"@ {
        "brief"@
    } else if w == "ex"@ {
        "exclude"@
    } else if w == "unas"@ {
        "unassigned"@
    } else if w == "desc"@ {
        "description"@
    } else if w == "neigh"@ || w == "nei"@ {
        "neighbors"@
    } else if w == "sum"@ {
        "summary"@
    } else if w == "det"@ {
        "detail"@
    } else if w == "inv"@ {
        "inventory"@
    } else if w == "env"@ {
        "environment"@
    } else if w == "ver"@ {
        "version"@
    } else if w == "trans"@ {
        "transceiver"@
    } else if w == "stat"@ {
        "status"@
    } else if w == "proc"@ {
        "processes"@
    } else if w == "addr"@ {
        "address"@
    } else if w == "conf"@ {
        "config"@
    } else if w == "run"@ {
        "running"@
    } else if w == "temp"@ {
        "temperature"@
    } else {
        w
    }
}

/// The raw form expands only the `show` verb.
pub open spec fn expand_raw(w: Seq<char>) -> Seq<char> {
    if w == "sh"@ || w == "sho"@ {
        "show"@
    } else {
        w
    }
}

/// One word of a command after per-word mapping and expansion.
pub open spec fn norm_word(s: Seq<char>, i: int, j: int, raw: bool) -> Seq<char> {
    let w = map_key(s.subrange(i, j), false);
    if raw {
        expand_raw(w)
    } else {
        expand_full(w)
    }
}

/// Normalized words after the first, each preceded by an underscore.
pub open spec fn norm_tail(s: Seq<char>, i: int, raw: bool) -> Seq<char>
    decreases s.len() - i, s.len() - i + 1,
        via norm_tail_dec
{
    if i < 0 || i >= s.len() {
        Seq::empty()
    } else if is_sep(s[i]) {
        norm_tail(s, i + 1, raw)
    } else {
        let j = word_end(s, i);
        seq!['_'] + norm_word(s, i, j, raw) + norm_tail(s, j, raw)
    }
}

#[via_fn]
proof fn norm_tail_dec(s: Seq<char>, i: int, raw: bool) {
    if 0 <= i < s.len() && !is_sep(s[i]) {
        word_end_bounds(s, i);
    }
}

/// The whole normalized command: the first word, then the tail.
pub open spec fn norm_head(s: Seq<char>, i: int, raw: bool) -> Seq<char>
    decreases s.len() - i, s.len() - i + 1,
        via norm_head_dec
{
    if i < 0 || i >= s.len() {
        Seq::empty()
    } else if is_sep(s[i]) {
        norm_head(s, i + 1, raw)
    } else {
        let j = word_end(s, i);
        norm_word(s, i, j, raw) + norm_tail(s, j, raw)
    }
}

#[via_fn]
proof fn norm_head_dec(s: Seq<char>, i: int, raw: bool) {
    if 0 <= i < s.len() && !is_sep(s[i]) {
        word_end_bounds(s, i);
    }
}

/// Canonical key of a raw command spelling, abbreviations expanded.
pub open spec fn normalize_command_spec(s: Seq<char>) -> Seq<char> {
    norm_head(s, 0, false)
}

/// Fallback key: same split and case folding, but no expansion beyond
/// the `show` verb.
pub open spec fn normalize_raw_spec(s: Seq<char>) -> Seq<char> {
    norm_head(s, 0, true)
}

/// Platform alias resolution.
pub open spec fn resolve_platform_spec(p: Seq<char>) -> Seq<char> {
    if p == "cisco_iosxe"@ {
        "cisco_ios"@
    } else if p == "nokia_sros"@ {
        "alcatel_sros"@
    } else if p == "cisco_iosxr"@ {
        "cisco_xr"@
    } else {
        p
    }
}

fn is_sep_exec(c: char) -> (r: bool)
    ensures
        r == is_sep(c),
{
    c == ' ' || c == '\t' || c == '\n' || c == '\r' || c == '|'
}

fn word_end_exec(s: &str, n: usize, i: usize) -> (j: usize)
    requires
        n == s@.len(),
        i <= n,
    ensures
        j == word_end(s@, i as int),
        i <= j <= n,
{
    let mut j = i;
    while j < n
        invariant
            n == s@.len(),
            i <= j <= n,
            word_end(s@, i as int) == word_end(s@, j as int),
            forall|k: int| i <= k < j ==> !is_sep(s@[k]),
        decreases n - j,
    {
        let c = s.get_char(j);
        if is_sep_exec(c) {
            proof {
                assert(word_end(s@, j as int) == j);
            }
            return j;
        }
        j = j + 1;
    }
    proof {
        assert(word_end(s@, j as int) == j);
    }
    j
}

/// Expands a single lowercased word from the abbreviation table.
pub fn expand_abbreviation<'a>(word: &'a str) -> (r: &'a str)
    ensures
        r@ == expand_full(word@),
{
    if str_eq(word, "sh") || str_eq(word, "sho") {
        "show"
    } else if str_eq(word, "int") {
        "interface"
    } else if str_eq(word, "br") {
        "brief"
    } else if str_eq(word, "ex") {
        "exclude"
    } else if str_eq(word, "unas") {
        "unassigned"
    } else if str_eq(word, "desc") {
        "description"
    } else if str_eq(word, "neigh") || str_eq(word, "nei") {
        "neighbors"
    } else if str_eq(word, "sum") {
        "summary"
    } else if str_eq(word, "det") {
        "detail"
    } else if str_eq(word, "inv") {
        "inventory"
    } else if str_eq(word, "env") {
        "environment"
    } else if str_eq(word, "ver") {
        "version"
    } else if str_eq(word, "trans") {
        "transceiver"
    } else if str_eq(word, "stat") {
        "status"
    } else if str_eq(word, "proc") {
        "processes"
    } else if str_eq(word, "addr") {
        "address"
    } else if str_eq(word, "conf") {
        "config"
    } else if str_eq(word, "run") {
        "running"
    } else if str_eq(word, "temp") {
        "temperature"
    } else {
        word
    }
}

fn expand_raw_exec<'a>(word: &'a str) -> (r: &'a str)
    ensures
        r@ == expand_raw(word@),
{
    if str_eq(word, "sh") || str_eq(word, "sho") {
        "show"
    } else {
        word
    }
}

fn normalize_words(command: &str, raw: bool) -> (r: String)
    ensures
        r@ == norm_head(command@, 0, raw),
{
    let n = command.unicode_len();
    let mut out = String::new();
    let mut i: usize = 0;
    let mut started = false;
    while i < n
        invariant
            n == command@.len(),
            i <= n,
            !started ==> out@ =~= Seq::<char>::empty() && norm_head(command@, 0, raw)
                == norm_head(command@, i as int, raw),
            started ==> norm_head(command@, 0, raw) =~= out@ + norm_tail(
                command@,
                i as int,
                raw,
            ),
        decreases n - i,
    {
        let c = command.get_char(i);
        if is_sep_exec(c) {
            i = i + 1;
        } else {
            let j = word_end_exec(command, n, i);
            proof {
                word_end_bounds(command@, i as int);
            }
            let piece = command.substring_char(i, j);
            let mapped = map_key_str(piece, false);
            let expanded = if raw {
                expand_raw_exec(mapped.as_str())
            } else {
                expand_abbreviation(mapped.as_str())
            };
            if started {
                out.append("_");
                proof {
                    reveal_strlit("_");
                }
            }
            out.append(expanded);
            proof {
                assert(expanded@ == norm_word(command@, i as int, j as int, raw));
            }
            started = true;
            i = j;
        }
    }
    proof {
        assert(norm_tail(command@, i as int, raw) =~= Seq::<char>::empty());
        assert(norm_head(command@, i as int, raw) =~= Seq::<char>::empty());
        assert(out@ =~= norm_head(command@, 0, raw));
    }
    out
}

/// Canonical key of a raw command: split, fold, expand, join.
pub fn normalize_command(command: &str) -> (r: String)
    ensures
        r@ == normalize_command_spec(command@),
{
    normalize_words(command, false)
}

/// Fallback key of a raw command: no abbreviation expansion.
pub fn normalize_raw(command: &str) -> (r: String)
    ensures
        r@ == normalize_raw_spec(command@),
{
    normalize_words(command, true)
}

/// Resolves a platform alias to the canonical platform slug.
pub fn resolve_platform<'a>(platform: &'a str) -> (r: &'a str)
    ensures
        r@ == resolve_platform_spec(platform@),
{
    if str_eq(platform, "cisco_iosxe") {
        "cisco_ios"
    } else if str_eq(platform, "nokia_sros") {
        "alcatel_sros"
    } else if str_eq(platform, "cisco_iosxr") {
        "cisco_xr"
    } else {
        platform
    }
}

/// Result of a command lookup: the key that was tried and what it hit.
#[verifier::ext_equal]
pub struct GLook {
    pub key: Seq<char>,
    pub entry: Option<crate::resources::GEntry>,
}

/// What looking a `(platform, command key)` pair up yields: the
/// platform alias is resolved, then the table consulted.
pub open spec fn lookup_spec(p: Seq<char>, k: Seq<char>) -> Option<crate::resources::GEntry> {
    crate::resources::lookup_canon_spec(resolve_platform_spec(p), k)
}

/// What looking a raw command up yields: the expanded key, then the
/// raw key as a fallback.
pub open spec fn lookup_command_spec(p: Seq<char>, c: Seq<char>) -> GLook {
    let e = normalize_command_spec(c);
    match lookup_spec(p, e) {
        Some(en) => GLook { key: e, entry: Some(en) },
        None => {
            let rw = normalize_raw_spec(c);
            if rw != e {
                match lookup_spec(p, rw) {
                    Some(en2) => GLook { key: rw, entry: Some(en2) },
                    None => GLook { key: e, entry: None },
                }
            } else {
                GLook { key: e, entry: None }
            }
        },
    }
}

/// Looks a template up by platform (aliases resolved) and command key.
pub fn lookup(platform: &str, command_key: &str) -> (r: Option<crate::resources::RegistryEntry>)
    ensures
        ({
            let g = lookup_spec(platform@, command_key@);
            match r {
                Some(e) => g == Some(crate::resources::entry_view(e)),
                None => g is None,
            }
        }),
{
    let canon = resolve_platform(platform);
    crate::resources::lookup_canon(canon, command_key)
}

/// Looks a raw command up: the normalized key is tried first, the raw
/// (unexpanded) key as a fallback. Returns the key that was used.
pub fn lookup_command(platform: &str, command: &str) -> (r: (
    String,
    Option<crate::resources::RegistryEntry>,
))
    ensures
        ({
            let g = lookup_command_spec(platform@, command@);
            r.0@ == g.key && (match r.1 {
                Some(e) => g.entry == Some(crate::resources::entry_view(e)),
                None => g.entry is None,
            })
        }),
{
    let expanded = normalize_command(command);
    match lookup(platform, expanded.as_str()) {
        Some(e) => (expanded, Some(e)),
        None => {
            let raw = normalize_raw(command);
            if !str_eq(raw.as_str(), expanded.as_str()) {
                match lookup(platform, raw.as_str()) {
                    Some(e2) => (raw, Some(e2)),
                    None => (expanded, None),
                }
            } else {
                (expanded, None)
            }
        },
    }
}

/// Retrieves the template text an entry names.
pub fn load_template_text(entry: &crate::resources::RegistryEntry) -> (r: Option<String>)
    ensures
        ({
            let g = crate::resources::template_text_spec(entry.template@);
            match r {
                Some(t) => g == Some(t@),
                None => g is None,
            }
        }),
{
    crate::resources::template_text(entry.template.as_str())
}

} // verus!
