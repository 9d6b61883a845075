use vstd::prelude::*;
use crate::error::ErrorKind;
use crate::text::str_eq;
use crate::time::{timestamp_of, Timestamp};
use crate::uri::{url_parse, Uri};

verus! {

/// A payload as it arrives: the tree of values that a peer has sent, before
/// anything is known of its shape.
#[derive(Debug)]
pub enum WireValue {
    Null,
    Bool(bool),
    /// A number, as the literal that was sent.
    Number(String),
    Text(String),
    List(Vec<WireValue>),
    Object(Vec<WireField>),
}

/// One member of an object: a name and what stands under it.
#[derive(Debug)]
pub struct WireField {
    pub name: String,
    pub value: WireValue,
}

/// What an object holds under a name.
pub enum Lookup<T> {
    /// No member has the name.
    Missing,
    /// One member has the name, with this value.
    One(T),
    /// Several members have the name.
    Repeated,
}

/// Whether member `i` is the only one called `name`.
pub open spec fn sole(fields: Seq<WireField>, name: Seq<char>, i: int) -> bool {
    &&& 0 <= i < fields.len()
    &&& fields[i].name@ == name
    &&& forall|j: int| 0 <= j < fields.len() && j != i ==> (#[trigger] fields[j]).name@ != name
}

/// What `fields` holds under `name`.
pub open spec fn field(fields: Seq<WireField>, name: Seq<char>) -> Lookup<WireValue> {
    if forall|j: int| 0 <= j < fields.len() ==> (#[trigger] fields[j]).name@ != name {
        Lookup::Missing
    } else if exists|i: int| sole(fields, name, i) {
        Lookup::One(fields[choose|i: int| sole(fields, name, i)].value)
    } else {
        Lookup::Repeated
    }
}

/// Looks up what an object holds under a name.
pub fn lookup<'a>(fields: &'a Vec<WireField>, name: &str) -> (r: Lookup<&'a WireValue>)
    ensures
        match r {
            Lookup::Missing => field(fields@, name@) is Missing,
            Lookup::One(v) => field(fields@, name@) == Lookup::One(*v),
            Lookup::Repeated => field(fields@, name@) is Repeated,
        },
{
    let mut first: Option<usize> = None;
    let mut i: usize = 0;
    while i < fields.len()
        invariant
            i <= fields@.len(),
            match first {
                Some(f) => f < i && fields@[f as int].name@ == name@ && forall|j: int|
                    0 <= j < i && j != f ==> (#[trigger] fields@[j]).name@ != name@,
                None => forall|j: int| 0 <= j < i ==> (#[trigger] fields@[j]).name@ != name@,
            },
        decreases fields@.len() - i,
    {
        if str_eq(fields[i].name.as_str(), name) {
            match first {
                Some(f) => {
                    proof {
                        let s = fields@;
                        assert(s[f as int].name@ == name@);
                        assert(s[i as int].name@ == name@);
                        assert forall|k: int| !sole(s, name@, k) by {
                            if sole(s, name@, k) {
                                if k == f as int {
                                    assert(s[i as int].name@ != name@);
                                } else {
                                    assert(s[f as int].name@ != name@);
                                }
                            }
                        }
                    }
                    return Lookup::Repeated;
                },
                None => {
                    first = Some(i);
                },
            }
        }
        i += 1;
    }
    match first {
        Some(f) => {
            proof {
                let s = fields@;
                assert(sole(s, name@, f as int));
                let k = choose|k: int| sole(s, name@, k);
                assert(k == f as int) by {
                    if k != f as int {
                        assert(s[f as int].name@ != name@);
                    }
                }
            }
            Lookup::One(&fields[f].value)
        },
        None => Lookup::Missing,
    }
}

/// Whether `r` is what reading gives where `expected` is read: a value whose
/// content is `expected`, or the refusal of a payload that has no reading.
pub open spec fn reads<T: DeepView>(r: Result<T, ErrorKind>, expected: Option<T::V>) -> bool {
    match expected {
        Some(v) => r is Ok && r->Ok_0.deep_view() == v,
        None => r == Err::<T, ErrorKind>(ErrorKind::MalformedObject),
    }
}

/// Whether nothing stands in a place: the member is missing or null.
pub open spec fn absent(found: Lookup<WireValue>) -> bool {
    found is Missing || found == Lookup::One(WireValue::Null)
}

/// A text that may be left out. The outer `None` is a malformed member.
pub open spec fn optional_text(found: Lookup<WireValue>) -> Option<Option<Seq<char>>> {
    match found {
        Lookup::Missing => Some(None),
        Lookup::One(WireValue::Null) => Some(None),
        Lookup::One(WireValue::Text(s)) => Some(Some(s@)),
        _ => None,
    }
}

/// A flag that may be left out.
pub open spec fn optional_flag(found: Lookup<WireValue>) -> Option<Option<bool>> {
    match found {
        Lookup::Missing => Some(None),
        Lookup::One(WireValue::Null) => Some(None),
        Lookup::One(WireValue::Bool(b)) => Some(Some(b)),
        _ => None,
    }
}

/// A text that must be there.
pub open spec fn required_text(found: Lookup<WireValue>) -> Option<Seq<char>> {
    match found {
        Lookup::One(WireValue::Text(s)) => Some(s@),
        _ => None,
    }
}

/// Whether the member is the text `tag`.
pub open spec fn tagged(found: Lookup<WireValue>, tag: Seq<char>) -> bool {
    required_text(found) == Some(tag)
}

/// The identity that a value spells.
pub open spec fn uri_of(value: WireValue) -> Option<Seq<char>> {
    match value {
        WireValue::Text(s) => url_parse(s@),
        _ => None,
    }
}

/// An identity that must be there.
pub open spec fn required_uri(found: Lookup<WireValue>) -> Option<Seq<char>> {
    match found {
        Lookup::One(v) => uri_of(v),
        _ => None,
    }
}

/// An identity that may be left out.
pub open spec fn optional_uri(found: Lookup<WireValue>) -> Option<Option<Seq<char>>> {
    match found {
        Lookup::Missing => Some(None),
        Lookup::One(WireValue::Null) => Some(None),
        Lookup::One(v) => match uri_of(v) {
            Some(u) => Some(Some(u)),
            None => None,
        },
        Lookup::Repeated => None,
    }
}

/// A point in time that may be left out.
pub open spec fn optional_time(found: Lookup<WireValue>) -> Option<Option<Timestamp>> {
    match found {
        Lookup::Missing => Some(None),
        Lookup::One(WireValue::Null) => Some(None),
        Lookup::One(WireValue::Text(s)) => match timestamp_of(s@) {
            Some(t) => Some(Some(t)),
            None => None,
        },
        _ => None,
    }
}

/// The readings of all `items`, where each of them has one.
pub open spec fn each<V>(items: Seq<WireValue>, read: spec_fn(WireValue) -> Option<V>) -> Option<Seq<V>> {
    if forall|i: int| 0 <= i < items.len() ==> read(#[trigger] items[i]) is Some {
        Some(Seq::new(items.len(), |i: int| read(items[i])->0))
    } else {
        None
    }
}

/// The identities that a value lists: peers send one identity or a list of
/// them in the same place.
pub open spec fn one_or_many_uris(value: WireValue) -> Option<Seq<Seq<char>>> {
    match value {
        WireValue::List(items) => each(items@, |v: WireValue| uri_of(v)),
        v => match uri_of(v) {
            Some(u) => Some(seq![u]),
            None => None,
        },
    }
}

/// The identities that a member lists. Where `optional`, a missing member
/// lists none.
pub open spec fn addressed(found: Lookup<WireValue>, optional: bool) -> Option<Seq<Seq<char>>> {
    match found {
        Lookup::Missing => if optional {
            Some(Seq::empty())
        } else {
            None
        },
        Lookup::One(v) => one_or_many_uris(v),
        Lookup::Repeated => None,
    }
}

/// Reads a text that may be left out.
pub fn read_optional_text(fields: &Vec<WireField>, name: &str) -> (r: Result<Option<String>, ErrorKind>)
    ensures
        reads(r, optional_text(field(fields@, name@))),
{
    match lookup(fields, name) {
        Lookup::Missing => Ok(None),
        Lookup::One(WireValue::Null) => Ok(None),
        Lookup::One(WireValue::Text(s)) => Ok(Some(s.clone())),
        _ => Err(ErrorKind::MalformedObject),
    }
}

/// Reads a flag that may be left out.
pub fn read_optional_flag(fields: &Vec<WireField>, name: &str) -> (r: Result<Option<bool>, ErrorKind>)
    ensures
        reads(r, optional_flag(field(fields@, name@))),
{
    match lookup(fields, name) {
        Lookup::Missing => Ok(None),
        Lookup::One(WireValue::Null) => Ok(None),
        Lookup::One(WireValue::Bool(b)) => Ok(Some(*b)),
        _ => Err(ErrorKind::MalformedObject),
    }
}

/// Reads a text that must be there.
pub fn read_required_text(fields: &Vec<WireField>, name: &str) -> (r: Result<String, ErrorKind>)
    ensures
        reads(r, required_text(field(fields@, name@))),
{
    match lookup(fields, name) {
        Lookup::One(WireValue::Text(s)) => Ok(s.clone()),
        _ => Err(ErrorKind::MalformedObject),
    }
}

/// Whether the member called `name` is the text `tag`.
pub fn has_tag(fields: &Vec<WireField>, name: &str, tag: &str) -> (r: bool)
    ensures
        r == tagged(field(fields@, name@), tag@),
{
    match lookup(fields, name) {
        Lookup::One(WireValue::Text(s)) => str_eq(s.as_str(), tag),
        _ => false,
    }
}

/// Reads the identity that a value spells.
pub fn read_uri(value: &WireValue) -> (r: Result<Uri, ErrorKind>)
    ensures
        reads(r, uri_of(*value)),
{
    match value {
        WireValue::Text(s) => match Uri::parse(s.as_str()) {
            Some(u) => Ok(u),
            None => Err(ErrorKind::MalformedObject),
        },
        _ => Err(ErrorKind::MalformedObject),
    }
}

/// Reads an identity that must be there.
pub fn read_required_uri(fields: &Vec<WireField>, name: &str) -> (r: Result<Uri, ErrorKind>)
    ensures
        reads(r, required_uri(field(fields@, name@))),
{
    match lookup(fields, name) {
        Lookup::One(v) => read_uri(v),
        _ => Err(ErrorKind::MalformedObject),
    }
}

/// Reads an identity that may be left out.
pub fn read_optional_uri(fields: &Vec<WireField>, name: &str) -> (r: Result<Option<Uri>, ErrorKind>)
    ensures
        reads(r, optional_uri(field(fields@, name@))),
{
    match lookup(fields, name) {
        Lookup::Missing => Ok(None),
        Lookup::One(WireValue::Null) => Ok(None),
        Lookup::One(v) => match read_uri(v) {
            Ok(u) => Ok(Some(u)),
            Err(e) => Err(e),
        },
        Lookup::Repeated => Err(ErrorKind::MalformedObject),
    }
}

/// Reads a point in time that may be left out.
pub fn read_optional_time(fields: &Vec<WireField>, name: &str) -> (r: Result<Option<Timestamp>, ErrorKind>)
    ensures
        reads(r, optional_time(field(fields@, name@))),
{
    match lookup(fields, name) {
        Lookup::Missing => Ok(None),
        Lookup::One(WireValue::Null) => Ok(None),
        Lookup::One(WireValue::Text(s)) => match Timestamp::parse(s.as_str()) {
            Some(t) => Ok(Some(t)),
            None => Err(ErrorKind::MalformedObject),
        },
        _ => Err(ErrorKind::MalformedObject),
    }
}

/// Reads one identity, or a list of them.
pub fn read_one_or_many_uris(value: &WireValue) -> (r: Result<Vec<Uri>, ErrorKind>)
    ensures
        reads(r, one_or_many_uris(*value)),
{
    match value {
        WireValue::List(items) => {
            let ghost read = |v: WireValue| uri_of(v);
            let mut out: Vec<Uri> = Vec::new();
            let mut i: usize = 0;
            while i < items.len()
                invariant
                    i <= items@.len(),
                    *value == WireValue::List(*items),
                    read == (|v: WireValue| uri_of(v)),
                    forall|j: int| 0 <= j < i ==> read(#[trigger] items@[j]) is Some,
                    out@.len() == i,
                    forall|j: int| 0 <= j < i ==> (#[trigger] out@[j])@ == uri_of(items@[j])->0,
                decreases items@.len() - i,
            {
                match read_uri(&items[i]) {
                    Ok(u) => {
                        out.push(u);
                    },
                    Err(e) => {
                        assert(read(items@[i as int]) is None);
                        return Err(e);
                    },
                }
                i += 1;
            }
            assert(out.deep_view() =~= Seq::new(items@.len(), |j: int| read(items@[j])->0));
            Ok(out)
        },
        v => match read_uri(v) {
            Ok(u) => {
                let mut out: Vec<Uri> = Vec::new();
                let ghost id = u@;
                out.push(u);
                assert(out.deep_view() =~= seq![id]);
                Ok(out)
            },
            Err(e) => Err(e),
        },
    }
}

/// Reads the identities that a member lists.
pub fn read_addressed(fields: &Vec<WireField>, name: &str, optional: bool) -> (r: Result<Vec<Uri>, ErrorKind>)
    ensures
        reads(r, addressed(field(fields@, name@), optional)),
{
    match lookup(fields, name) {
        Lookup::Missing => {
            if optional {
                let out: Vec<Uri> = Vec::new();
                assert(out.deep_view() =~= Seq::<Seq<char>>::empty());
                Ok(out)
            } else {
                Err(ErrorKind::MalformedObject)
            }
        },
        Lookup::One(v) => read_one_or_many_uris(v),
        Lookup::Repeated => Err(ErrorKind::MalformedObject),
    }
}

} // verus!
