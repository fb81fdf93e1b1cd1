//! Emitted records: ordered fields mapping a value name to a captured
//! string or list of strings.

use vstd::prelude::*;

verus! {

/// A field's content: one string, or the gathered list of a `List`
/// value.
#[derive(Debug, Clone, PartialEq, Eq)]
pub enum FieldVal {
    S(String),
    L(Vec<String>),
}

/// Ghost counterpart of `FieldVal`.
pub enum GVal {
    S(Seq<char>),
    L(Seq<Seq<char>>),
}

pub open spec fn val_view(v: FieldVal) -> GVal {
    match v {
        FieldVal::S(s) => GVal::S(s@),
        FieldVal::L(xs) => GVal::L(xs@.map_values(|x: String| x@)),
    }
}

/// One named field of a record.
#[derive(Debug, Clone, PartialEq, Eq)]
pub struct Field {
    pub name: String,
    pub value: FieldVal,
}

/// Ghost counterpart of `Field`.
#[verifier::ext_equal]
pub struct GField {
    pub name: Seq<char>,
    pub value: GVal,
}

pub open spec fn field_view(f: Field) -> GField {
    GField { name: f.name@, value: val_view(f.value) }
}

/// One emitted record: fields in value-declaration order.
#[derive(Debug, Clone, PartialEq, Eq)]
pub struct Record {
    pub fields: Vec<Field>,
}

pub open spec fn record_view(r: Record) -> Seq<GField> {
    r.fields@.map_values(|f: Field| field_view(f))
}

pub open spec fn records_view(rs: Seq<Record>) -> Seq<Seq<GField>> {
    rs.map_values(|r: Record| record_view(r))
}

/// The scalar content of the first field with this name: the field's
/// string for a scalar field, nothing for a list field or a missing
/// name.
pub open spec fn record_get(fields: Seq<GField>, name: Seq<char>) -> Option<Seq<char>>
    decreases fields.len(),
{
    if fields.len() == 0 {
        None
    } else if fields[0].name == name {
        match fields[0].value {
            GVal::S(s) => Some(s),
            GVal::L(_) => None,
        }
    } else {
        record_get(fields.drop_first(), name)
    }
}

impl Record {
    /// Looks a scalar field up by name.
    pub fn get(&self, name: &str) -> (r: Option<String>)
        ensures
            ({
                let g = record_get(record_view(*self), name@);
                match r {
                    Some(s) => g == Some(s@),
                    None => g is None,
                }
            }),
    {
        let mut i: usize = 0;
        proof {
            assert(record_view(*self).skip(0) =~= record_view(*self));
        }
        while i < self.fields.len()
            invariant
                i <= self.fields@.len(),
                record_get(record_view(*self), name@) == record_get(
                    record_view(*self).skip(i as int),
                    name@,
                ),
        decreases self.fields@.len() - i,
        {
            proof {
                assert(record_view(*self)[i as int] == field_view(self.fields@[i as int]));
                assert(record_view(*self).skip(i as int)[0] == record_view(*self)[i as int]);
                assert(record_view(*self).skip(i as int).drop_first() =~= record_view(
                    *self,
                ).skip(i as int + 1));
            }
            if crate::text::str_eq(self.fields[i].name.as_str(), name) {
                match &self.fields[i].value {
                    FieldVal::S(s) => {
                        let out = s.clone();
                        return Some(out);
                    },
                    FieldVal::L(_) => {
                        return None;
                    },
                }
            }
            i = i + 1;
        }
        proof {
            assert(record_view(*self).skip(i as int) =~= Seq::<GField>::empty());
        }
        None
    }
}

} // verus!
