//! Verified helpers for character-level work on `&str` and `String`:
//! exact string equality, ASCII lowercasing, and the character mapping
//! used to turn raw command spellings into registry keys.

use vstd::prelude::*;
use vstd::string::StrSliceExecFns;
use vstd::string::StringExecFns;

verus! {

/// ASCII lowercase of one character; anything but `A`..`Z` is unchanged.
pub open spec fn lower_char(c: char) -> char {
    if c == 'A' { 'a' } else if c == 'B' { 'b' } else if c == 'C' { 'c' } else if c == 'D' { 'd' } else if c == 'E' { 'e' } else if c == 'F' { 'f' } else if c == 'G' { 'g' } else if c == 'H' { 'h' } else if c == 'I' { 'i' } else if c == 'J' { 'j' } else if c == 'K' { 'k' } else if c == 'L' { 'l' } else if c == 'M' { 'm' } else if c == 'N' { 'n' } else if c == 'O' { 'o' } else if c == 'P' { 'p' } else if c == 'Q' { 'q' } else if c == 'R' { 'r' } else if c == 'S' { 's' } else if c == 'T' { 't' } else if c == 'U' { 'u' } else if c == 'V' { 'v' } else if c == 'W' { 'w' } else if c == 'X' { 'x' } else if c == 'Y' { 'y' } else if c == 'Z' { 'z' } else { c }
}

/// The mapping applied to each character of a command or platform name:
/// `-` becomes `_`, letters are lowercased, and when `space_us` is set a
/// space becomes `_` as well.
pub open spec fn key_char(c: char, space_us: bool) -> char {
    if c == '-' {
        '_'
    } else if space_us && c == ' ' {
        '_'
    } else {
        lower_char(c)
    }
}

/// `key_char` applied pointwise.
pub open spec fn map_key(s: Seq<char>, space_us: bool) -> Seq<char> {
    Seq::new(s.len(), |i: int| key_char(s[i], space_us))
}

/// Appends the character `s[i]` to `out`, unchanged.
pub fn append_char_at(out: &mut String, s: &str, i: usize)
    requires
        i < s@.len(),
        s@.len() <= usize::MAX,
    ensures
        final(out)@ == old(out)@.push(s@[i as int]),
{
    let piece = s.substring_char(i, i + 1);
    out.append(piece);
    proof {
        assert(out@ =~= old(out)@.push(s@[i as int]));
    }
}

/// Appends `key_char(s[i], space_us)` to `out`.
pub fn append_key_char(out: &mut String, s: &str, i: usize, space_us: bool)
    requires
        i < s@.len(),
        s@.len() <= usize::MAX,
    ensures
        final(out)@ == old(out)@.push(key_char(s@[i as int], space_us)),
{
    let c = s.get_char(i);
    if c == '-' {
        out.append("_");
        proof {
            reveal_strlit("_");
            assert(out@ =~= old(out)@.push(key_char(s@[i as int], space_us)));
        }
    } else if space_us && c == ' ' {
        out.append("_");
        proof {
            reveal_strlit("_");
            assert(out@ =~= old(out)@.push(key_char(s@[i as int], space_us)));
        }
    } else if c == 'A' {
        out.append("a");
        proof {
            reveal_strlit("a");
            assert(out@ =~= old(out)@.push(key_char(s@[i as int], space_us)));
        }
    } else if c == 'B' {
        out.append("b");
        proof {
            reveal_strlit("b");
            assert(out@ =~= old(out)@.push(key_char(s@[i as int], space_us)));
        }
    } else if c == 'C' {
        out.append("c");
        proof {
            reveal_strlit("c");
            assert(out@ =~= old(out)@.push(key_char(s@[i as int], space_us)));
        }
    } else if c == 'D' {
        out.append("d");
        proof {
            reveal_strlit("d");
            assert(out@ =~= old(out)@.push(key_char(s@[i as int], space_us)));
        }
    } else if c == 'E' {
        out.append("e");
        proof {
            reveal_strlit("e");
            assert(out@ =~= old(out)@.push(key_char(s@[i as int], space_us)));
        }
    } else if c == 'F' {
        out.append("f");
        proof {
            reveal_strlit("f");
            assert(out@ =~= old(out)@.push(key_char(s@[i as int], space_us)));
        }
    } else if c == 'G' {
        out.append("g");
        proof {
            reveal_strlit("g");
            assert(out@ =~= old(out)@.push(key_char(s@[i as int], space_us)));
        }
    } else if c == 'H' {
        out.append("h");
        proof {
            reveal_strlit("h");
            assert(out@ =~= old(out)@.push(key_char(s@[i as int], space_us)));
        }
    } else if c == 'I' {
        out.append("i");
        proof {
            reveal_strlit("i");
            assert(out@ =~= old(out)@.push(key_char(s@[i as int], space_us)));
        }
    } else if c == 'J' {
        out.append("j");
        proof {
            reveal_strlit("j");
            assert(out@ =~= old(out)@.push(key_char(s@[i as int], space_us)));
        }
    } else if c == 'K' {
        out.append("k");
        proof {
            reveal_strlit("k");
            assert(out@ =~= old(out)@.push(key_char(s@[i as int], space_us)));
        }
    } else if c == 'L' {
        out.append("l");
        proof {
            reveal_strlit("l");
            assert(out@ =~= old(out)@.push(key_char(s@[i as int], space_us)));
        }
    } else if c == 'M' {
        out.append("m");
        proof {
            reveal_strlit("m");
            assert(out@ =~= old(out)@.push(key_char(s@[i as int], space_us)));
        }
    } else if c == 'N' {
        out.append("n");
        proof {
            reveal_strlit("n");
            assert(out@ =~= old(out)@.push(key_char(s@[i as int], space_us)));
        }
    } else if c == 'O' {
        out.append("o");
        proof {
            reveal_strlit("o");
            assert(out@ =~= old(out)@.push(key_char(s@[i as int], space_us)));
        }
    } else if c == 'P' {
        out.append("p");
        proof {
            reveal_strlit("p");
            assert(out@ =~= old(out)@.push(key_char(s@[i as int], space_us)));
        }
    } else if c == 'Q' {
        out.append("q");
        proof {
            reveal_strlit("q");
            assert(out@ =~= old(out)@.push(key_char(s@[i as int], space_us)));
        }
    } else if c == 'R' {
        out.append("r");
        proof {
            reveal_strlit("r");
            assert(out@ =~= old(out)@.push(key_char(s@[i as int], space_us)));
        }
    } else if c == 'S' {
        out.append("s");
        proof {
            reveal_strlit("s");
            assert(out@ =~= old(out)@.push(key_char(s@[i as int], space_us)));
        }
    } else if c == 'T' {
        out.append("t");
        proof {
            reveal_strlit("t");
            assert(out@ =~= old(out)@.push(key_char(s@[i as int], space_us)));
        }
    } else if c == 'U' {
        out.append("u");
        proof {
            reveal_strlit("u");
            assert(out@ =~= old(out)@.push(key_char(s@[i as int], space_us)));
        }
    } else if c == 'V' {
        out.append("v");
        proof {
            reveal_strlit("v");
            assert(out@ =~= old(out)@.push(key_char(s@[i as int], space_us)));
        }
    } else if c == 'W' {
        out.append("w");
        proof {
            reveal_strlit("w");
            assert(out@ =~= old(out)@.push(key_char(s@[i as int], space_us)));
        }
    } else if c == 'X' {
        out.append("x");
        proof {
            reveal_strlit("x");
            assert(out@ =~= old(out)@.push(key_char(s@[i as int], space_us)));
        }
    } else if c == 'Y' {
        out.append("y");
        proof {
            reveal_strlit("y");
            assert(out@ =~= old(out)@.push(key_char(s@[i as int], space_us)));
        }
    } else if c == 'Z' {
        out.append("z");
        proof {
            reveal_strlit("z");
            assert(out@ =~= old(out)@.push(key_char(s@[i as int], space_us)));
        }
    } else {
        append_char_at(out, s, i);
    }
}

/// `map_key` over a whole string.
pub fn map_key_str(s: &str, space_us: bool) -> (r: String)
    ensures
        r@ == map_key(s@, space_us),
{
    let n = s.unicode_len();
    let mut out = String::new();
    let mut i: usize = 0;
    while i < n
        invariant
            n == s@.len(),
            i <= n,
            out@ =~= map_key(s@, space_us).take(i as int),
        decreases n - i,
    {
        append_key_char(&mut out, s, i, space_us);
        i = i + 1;
        proof {
            assert(out@ =~= map_key(s@, space_us).take(i as int));
        }
    }
    proof {
        assert(out@ =~= map_key(s@, space_us));
    }
    out
}

/// Exact equality of two string slices, character by character.
pub fn str_eq(a: &str, b: &str) -> (r: bool)
    ensures
        r == (a@ == b@),
{
    let la = a.unicode_len();
    let lb = b.unicode_len();
    if la != lb {
        proof {
            assert(a@ != b@);
        }
        return false;
    }
    let mut i: usize = 0;
    while i < la
        invariant
            la == a@.len(),
            lb == b@.len(),
            la == lb,
            i <= la,
            forall|j: int| 0 <= j < i ==> a@[j] == b@[j],
        decreases la - i,
    {
        if a.get_char(i) != b.get_char(i) {
            return false;
        }
        i = i + 1;
    }
    proof {
        assert(a@ =~= b@);
    }
    true
}

/// The decimal digit character for `d` (0 to 9).
pub open spec fn digit_char(d: nat) -> char {
    if d == 0 { '0' } else if d == 1 { '1' } else if d == 2 { '2' } else if d == 3 { '3' } else if d == 4 { '4' } else if d == 5 { '5' } else if d == 6 { '6' } else if d == 7 { '7' } else if d == 8 { '8' } else { '9' }
}

/// The decimal spelling of a natural number.
pub open spec fn dec_str(n: nat) -> Seq<char>
    decreases n,
{
    if n < 10 {
        seq![digit_char(n)]
    } else {
        dec_str(n / 10) + seq![digit_char(n % 10)]
    }
}

fn append_digit(out: &mut String, d: u64)
    requires
        d < 10,
    ensures
        final(out)@ == old(out)@.push(digit_char(d as nat)),
{
    if d == 0 {
        out.append("0");
        proof {
            reveal_strlit("0");
            assert(out@ =~= old(out)@.push(digit_char(0 as nat)));
        }
    } else if d == 1 {
        out.append("1");
        proof {
            reveal_strlit("1");
            assert(out@ =~= old(out)@.push(digit_char(1 as nat)));
        }
    } else if d == 2 {
        out.append("2");
        proof {
            reveal_strlit("2");
            assert(out@ =~= old(out)@.push(digit_char(2 as nat)));
        }
    } else if d == 3 {
        out.append("3");
        proof {
            reveal_strlit("3");
            assert(out@ =~= old(out)@.push(digit_char(3 as nat)));
        }
    } else if d == 4 {
        out.append("4");
        proof {
            reveal_strlit("4");
            assert(out@ =~= old(out)@.push(digit_char(4 as nat)));
        }
    } else if d == 5 {
        out.append("5");
        proof {
            reveal_strlit("5");
            assert(out@ =~= old(out)@.push(digit_char(5 as nat)));
        }
    } else if d == 6 {
        out.append("6");
        proof {
            reveal_strlit("6");
            assert(out@ =~= old(out)@.push(digit_char(6 as nat)));
        }
    } else if d == 7 {
        out.append("7");
        proof {
            reveal_strlit("7");
            assert(out@ =~= old(out)@.push(digit_char(7 as nat)));
        }
    } else if d == 8 {
        out.append("8");
        proof {
            reveal_strlit("8");
            assert(out@ =~= old(out)@.push(digit_char(8 as nat)));
        }
    } else if d == 9 {
        out.append("9");
        proof {
            reveal_strlit("9");
            assert(out@ =~= old(out)@.push(digit_char(9 as nat)));
        }
    } else {
        proof {
            assert(false);
        }
    }
}

/// Appends the decimal spelling of `x` to `out`.
pub fn append_dec(out: &mut String, x: u64)
    ensures
        final(out)@ == old(out)@ + dec_str(x as nat),
    decreases x,
{
    if x < 10 {
        append_digit(out, x);
        proof {
            assert(out@ =~= old(out)@ + dec_str(x as nat));
        }
    } else {
        append_dec(out, x / 10);
        append_digit(out, x % 10);
        proof {
            assert(out@ =~= old(out)@ + dec_str(x as nat));
        }
    }
}

/// Whether `p` is a prefix of `s`.
pub open spec fn has_prefix(s: Seq<char>, p: Seq<char>) -> bool {
    s.len() >= p.len() && s.subrange(0, p.len() as int) == p
}

/// Prefix test on string slices.
pub fn str_has_prefix(s: &str, p: &str) -> (r: bool)
    ensures
        r == has_prefix(s@, p@),
{
    let ls = s.unicode_len();
    let lp = p.unicode_len();
    if ls < lp {
        proof {
            assert(!has_prefix(s@, p@));
        }
        return false;
    }
    let mut i: usize = 0;
    while i < lp
        invariant
            ls == s@.len(),
            lp == p@.len(),
            lp <= ls,
            i <= lp,
            forall|j: int| 0 <= j < i ==> s@[j] == p@[j],
        decreases lp - i,
    {
        if s.get_char(i) != p.get_char(i) {
            proof {
                assert(s@.subrange(0, p@.len() as int)[i as int] != p@[i as int]);
            }
            return false;
        }
        i = i + 1;
    }
    proof {
        assert(s@.subrange(0, p@.len() as int) =~= p@);
    }
    true
}

} // verus!
