//! Building the JSON envelopes returned at the public boundary. The
//! builders are verified against specification-level string functions,
//! so an envelope's exact text is pinned down.

use vstd::prelude::*;
use vstd::string::StrSliceExecFns;
use vstd::string::StringExecFns;
use crate::records::GField;
use crate::records::GVal;
use crate::records::Field;
use crate::records::FieldVal;
use crate::records::Record;
use crate::records::field_view;
use crate::records::record_view;
use crate::records::records_view;
use crate::text::append_char_at;

verus! {

/// The escape of one character inside a JSON string: quote and
/// backslash are escaped, the common control characters shortened, any
/// other character stands for itself. (Other control characters do not
/// occur in device output or templates.)
pub open spec fn esc_char(c: char) -> Seq<char> {
    if c == '"' {
        seq!['\\', '"']
    } else if c == '\\' {
        seq!['\\', '\\']
    } else if c == '\n' {
        seq!['\\', 'n']
    } else if c == '\t' {
        seq!['\\', 't']
    } else if c == '\r' {
        seq!['\\', 'r']
    } else {
        seq![c]
    }
}

/// The body of a JSON string: every character escaped.
pub open spec fn esc(s: Seq<char>, i: int) -> Seq<char>
    decreases s.len() - i,
{
    if !(0 <= i < s.len()) {
        Seq::empty()
    } else {
        esc_char(s[i]) + esc(s, i + 1)
    }
}

/// A quoted JSON string.
pub open spec fn jstr(s: Seq<char>) -> Seq<char> {
    seq!['"'] + esc(s, 0) + seq!['"']
}

/// A JSON array of strings.
pub open spec fn jlist(xs: Seq<Seq<char>>, i: int) -> Seq<char>
    decreases xs.len() - i,
{
    if !(0 <= i < xs.len()) {
        Seq::empty()
    } else {
        (if i > 0 {
            seq![',']
        } else {
            Seq::empty()
        }) + jstr(xs[i]) + jlist(xs, i + 1)
    }
}

/// A field's JSON value.
pub open spec fn jval(v: GVal) -> Seq<char> {
    match v {
        GVal::S(s) => jstr(s),
        GVal::L(xs) => seq!['['] + jlist(xs, 0) + seq![']'],
    }
}

/// The members of one record object.
pub open spec fn jfields(fs: Seq<GField>, i: int) -> Seq<char>
    decreases fs.len() - i,
{
    if !(0 <= i < fs.len()) {
        Seq::empty()
    } else {
        (if i > 0 {
            seq![',']
        } else {
            Seq::empty()
        }) + jstr(fs[i].name) + seq![':'] + jval(fs[i].value) + jfields(fs, i + 1)
    }
}

pub open spec fn jrecord(fs: Seq<GField>) -> Seq<char> {
    seq!['{'] + jfields(fs, 0) + seq!['}']
}

/// The `records` array.
pub open spec fn jrecords(rs: Seq<Seq<GField>>, i: int) -> Seq<char>
    decreases rs.len() - i,
{
    if !(0 <= i < rs.len()) {
        Seq::empty()
    } else {
        (if i > 0 {
            seq![',']
        } else {
            Seq::empty()
        }) + jrecord(rs[i]) + jrecords(rs, i + 1)
    }
}

/// A success envelope, with a caller-chosen name for the platform (or
/// vendor) member.
pub open spec fn success_env_spec(
    pname: Seq<char>,
    platform: Seq<char>,
    key: Seq<char>,
    recs: Seq<Seq<GField>>,
) -> Seq<char> {
    "{\"ok\":true,\""@ + pname + "\":"@ + jstr(platform) + ",\"commandKey\":"@ + jstr(key)
        + ",\"records\":["@ + jrecords(recs, 0) + "]}"@
}

/// An error envelope.
pub open spec fn error_env_spec(code: Seq<char>, message: Seq<char>) -> Seq<char> {
    "{\"ok\":false,\"error\":{\"code\":"@ + jstr(code) + ",\"message\":"@ + jstr(message)
        + "}}"@
}

fn append_escaped(out: &mut String, s: &str, n: usize, i: usize)
    requires
        n == s@.len(),
        i <= n,
    ensures
        final(out)@ == old(out)@ + esc(s@, i as int),
    decreases n - i,
{
    if !(i < n) {
        proof {
            assert(out@ =~= old(out)@ + esc(s@, i as int));
        }
        return ;
    }
    let c = s.get_char(i);
    if c == '"' {
        out.append("\\\"");
        proof {
            reveal_strlit("\\\"");
        }
    } else if c == '\\' {
        out.append("\\\\");
        proof {
            reveal_strlit("\\\\");
        }
    } else if c == '\n' {
        out.append("\\n");
        proof {
            reveal_strlit("\\n");
        }
    } else if c == '\t' {
        out.append("\\t");
        proof {
            reveal_strlit("\\t");
        }
    } else if c == '\r' {
        out.append("\\r");
        proof {
            reveal_strlit("\\r");
        }
    } else {
        append_char_at(out, s, i);
    }
    proof {
        assert(out@ =~= old(out)@ + esc_char(s@[i as int]));
    }
    append_escaped(out, s, n, i + 1);
    proof {
        assert(out@ =~= old(out)@ + esc(s@, i as int));
    }
}

/// Appends a quoted, escaped JSON string.
pub fn append_jstr(out: &mut String, s: &str)
    ensures
        final(out)@ == old(out)@ + jstr(s@),
{
    let n = s.unicode_len();
    out.append("\"");
    append_escaped(out, s, n, 0);
    out.append("\"");
    proof {
        reveal_strlit("\"");
        assert(out@ =~= old(out)@ + jstr(s@));
    }
}

fn append_jlist(out: &mut String, xs: &Vec<String>, i: usize)
    requires
        i <= xs@.len(),
    ensures
        final(out)@ == old(out)@ + jlist(xs@.map_values(|x: String| x@), i as int),
    decreases xs@.len() - i,
{
    if !(i < xs.len()) {
        proof {
            assert(out@ =~= old(out)@ + jlist(xs@.map_values(|x: String| x@), i as int));
        }
        return ;
    }
    proof {
        assert(xs@.map_values(|x: String| x@)[i as int] == xs@[i as int]@);
    }
    if i > 0 {
        out.append(",");
        proof {
            reveal_strlit(",");
        }
    }
    append_jstr(out, xs[i].as_str());
    append_jlist(out, xs, i + 1);
    proof {
        assert(out@ =~= old(out)@ + jlist(xs@.map_values(|x: String| x@), i as int));
    }
}

fn append_jval(out: &mut String, v: &FieldVal)
    ensures
        final(out)@ == old(out)@ + jval(crate::records::val_view(*v)),
{
    match v {
        FieldVal::S(s) => {
            append_jstr(out, s.as_str());
        },
        FieldVal::L(xs) => {
            out.append("[");
            append_jlist(out, xs, 0);
            out.append("]");
            proof {
                reveal_strlit("[");
                reveal_strlit("]");
                assert(out@ =~= old(out)@ + jval(crate::records::val_view(*v)));
            }
        },
    }
}

fn append_jfields(out: &mut String, fields: &Vec<Field>, i: usize)
    requires
        i <= fields@.len(),
    ensures
        final(out)@ == old(out)@ + jfields(
            fields@.map_values(|f: Field| field_view(f)),
            i as int,
        ),
    decreases fields@.len() - i,
{
    if !(i < fields.len()) {
        proof {
            assert(out@ =~= old(out)@ + jfields(
                fields@.map_values(|f: Field| field_view(f)),
                i as int,
            ));
        }
        return ;
    }
    proof {
        assert(fields@.map_values(|f: Field| field_view(f))[i as int] == field_view(
            fields@[i as int],
        ));
    }
    if i > 0 {
        out.append(",");
        proof {
            reveal_strlit(",");
        }
    }
    append_jstr(out, fields[i].name.as_str());
    out.append(":");
    proof {
        reveal_strlit(":");
    }
    append_jval(out, &fields[i].value);
    append_jfields(out, fields, i + 1);
    proof {
        assert(out@ =~= old(out)@ + jfields(
            fields@.map_values(|f: Field| field_view(f)),
            i as int,
        ));
    }
}

fn append_jrecords(out: &mut String, recs: &Vec<Record>, i: usize)
    requires
        i <= recs@.len(),
    ensures
        final(out)@ == old(out)@ + jrecords(records_view(recs@), i as int),
    decreases recs@.len() - i,
{
    if !(i < recs.len()) {
        proof {
            assert(out@ =~= old(out)@ + jrecords(records_view(recs@), i as int));
        }
        return ;
    }
    proof {
        assert(records_view(recs@)[i as int] == record_view(recs@[i as int]));
    }
    if i > 0 {
        out.append(",");
        proof {
            reveal_strlit(",");
        }
    }
    out.append("{");
    proof {
        reveal_strlit("{");
    }
    append_jfields(out, &recs[i].fields, 0);
    out.append("}");
    proof {
        reveal_strlit("}");
    }
    append_jrecords(out, recs, i + 1);
    proof {
        assert(out@ =~= old(out)@ + jrecords(records_view(recs@), i as int));
    }
}

/// Builds a success envelope; `pname` names the platform member (the
/// command-level interface calls it `platform`, the raw template
/// interface `vendor`).
pub fn success_envelope(pname: &str, platform: &str, key: &str, recs: &Vec<Record>) -> (r: String)
    ensures
        r@ == success_env_spec(pname@, platform@, key@, records_view(recs@)),
{
    let mut out = String::new();
    out.append("{\"ok\":true,\"");
    out.append(pname);
    out.append("\":");
    append_jstr(&mut out, platform);
    out.append(",\"commandKey\":");
    append_jstr(&mut out, key);
    out.append(",\"records\":[");
    append_jrecords(&mut out, recs, 0);
    out.append("]}");
    proof {
        assert(out@ =~= success_env_spec(pname@, platform@, key@, records_view(recs@)));
    }
    out
}

/// Builds an error envelope.
pub fn error_envelope(code: &str, message: &str) -> (r: String)
    ensures
        r@ == error_env_spec(code@, message@),
{
    let mut out = String::new();
    out.append("{\"ok\":false,\"error\":{\"code\":");
    append_jstr(&mut out, code);
    out.append(",\"message\":");
    append_jstr(&mut out, message);
    out.append("}}");
    proof {
        assert(out@ =~= error_env_spec(code@, message@));
    }
    out
}

} // verus!
