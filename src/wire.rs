use vstd::prelude::*;

use crate::json::{find, member, Json};

verus! {

/// Why a document could not be read as an archive.
#[derive(Debug)]
pub enum ParseError {
    /// The file could not be read; holds the reason.
    Io(String),
    /// The content is not JSON, or a required field is absent or of the wrong
    /// shape; holds a description, or the wire name of the field at fault.
    Format(String),
}

/// A `Format` error with a description to show.
pub open spec fn format_error(e: ParseError) -> bool {
    e matches ParseError::Format(m) && m@.len() > 0
}

/// Relies on std's `format!`: `{}` writes a `str` as it is, so the result is
/// `a`, a colon and a space, then `b`.
#[verifier::external_body]
fn joined(a: &str, b: &str) -> (r: String)
    ensures
        r@ == a@ + ": "@ + b@,
{
    format!("{}: {}", a, b)
}

/// A `Format` error that says `what` went wrong.
pub fn shape_error(what: &str) -> (e: ParseError)
    ensures
        format_error(e),
{
    let m = joined("wrong type", what);
    proof {
        reveal_strlit(": ");
    }
    ParseError::Format(m)
}

/// The `Format` error of member `key`, which is absent.
pub fn missing_error(key: &str) -> (e: ParseError)
    ensures
        format_error(e),
{
    let m = joined(key, "missing");
    proof {
        reveal_strlit(": ");
    }
    ParseError::Format(m)
}

/// The error `e`, which arose inside member `key`, with the key in front.
pub fn within(key: &str, e: ParseError) -> (r: ParseError)
    requires
        format_error(e),
    ensures
        format_error(r),
{
    match e {
        ParseError::Format(m) => {
            let m2 = joined(key, m.as_str());
            ParseError::Format(m2)
        },
        ParseError::Io(m) => ParseError::Io(m),
    }
}

/// A type with a fixed JSON shape: `decode_spec` says which trees are a value
/// of the type and which value, and `encode` writes a tree that decodes back.
pub trait Wire: Sized + View {
    spec fn decode_spec(j: Json) -> Option<Self::V>;

    fn decode(j: &Json) -> (r: Result<Self, ParseError>)
        ensures
            match r {
                Ok(x) => Self::decode_spec(*j) == Some(x@),
                Err(e) => Self::decode_spec(*j) is None && format_error(e),
            },
    ;

    fn encode(&self) -> (r: Json)
        ensures
            Self::decode_spec(r) == Some(self@),
    ;
}

/// The views of the items of a sequence.
pub open spec fn views<T: View>(s: Seq<T>) -> Seq<T::V> {
    s.map_values(|x: T| x@)
}

/// The view of an optional value.
pub open spec fn opt_view<T: View>(o: Option<T>) -> Option<T::V> {
    match o {
        Some(x) => Some(x@),
        None => None,
    }
}

/// A required member: present, and a value of `T`.
pub open spec fn required_spec<T: Wire>(j: Json, key: Seq<char>) -> Option<T::V> {
    match member(j, key) {
        Some(v) => T::decode_spec(v),
        None => None,
    }
}

/// An optional member: absent or null gives `Some(None)`; any other value must
/// be a value of `T`.
pub open spec fn optional_spec<T: Wire>(j: Json, key: Seq<char>) -> Option<Option<T::V>> {
    match member(j, key) {
        None => Some(None),
        Some(Json::Null) => Some(None),
        Some(v) => match T::decode_spec(v) {
            Some(x) => Some(Some(x)),
            None => None,
        },
    }
}

/// An array whose items are all values of `T`, in order.
pub open spec fn list_spec<T: Wire>(j: Json) -> Option<Seq<T::V>> {
    match j {
        Json::Array(items) => if forall|i: int|
            0 <= i < items@.len() ==> (#[trigger] T::decode_spec(items@[i])) is Some {
            Some(Seq::new(items@.len(), |i: int| T::decode_spec(items@[i])->Some_0))
        } else {
            None
        },
        _ => None,
    }
}

/// A required member that is an array of values of `T`.
pub open spec fn required_list_spec<T: Wire>(j: Json, key: Seq<char>) -> Option<Seq<T::V>> {
    match member(j, key) {
        Some(v) => list_spec::<T>(v),
        None => None,
    }
}

/// An optional member that is, where present and not null, an array of values of `T`.
pub open spec fn optional_list_spec<T: Wire>(j: Json, key: Seq<char>) -> Option<
    Option<Seq<T::V>>,
> {
    match member(j, key) {
        None => Some(None),
        Some(Json::Null) => Some(None),
        Some(v) => match list_spec::<T>(v) {
            Some(x) => Some(Some(x)),
            None => None,
        },
    }
}

/// Reads required member `key` of `j`.
pub fn required<T: Wire>(j: &Json, key: &str) -> (r: Result<T, ParseError>)
    ensures
        match r {
            Ok(x) => required_spec::<T>(*j, key@) == Some(x@),
            Err(e) => required_spec::<T>(*j, key@) is None && format_error(e),
        },
{
    match find(j, key) {
        Some(v) => match T::decode(v) {
            Ok(x) => Ok(x),
            Err(e) => Err(within(key, e)),
        },
        None => Err(missing_error(key)),
    }
}

/// Reads optional member `key` of `j`.
pub fn optional<T: Wire>(j: &Json, key: &str) -> (r: Result<Option<T>, ParseError>)
    ensures
        match r {
            Ok(x) => optional_spec::<T>(*j, key@) == Some(opt_view(x)),
            Err(e) => optional_spec::<T>(*j, key@) is None && format_error(e),
        },
{
    match find(j, key) {
        None => Ok(None),
        Some(Json::Null) => Ok(None),
        Some(v) => match T::decode(v) {
            Ok(x) => Ok(Some(x)),
            Err(e) => Err(within(key, e)),
        },
    }
}

/// Reads the items of an array, each as a value of `T`.
pub fn decode_list<T: Wire>(j: &Json) -> (r: Result<Vec<T>, ParseError>)
    ensures
        match r {
            Ok(xs) => list_spec::<T>(*j) == Some(views(xs@)),
            Err(e) => list_spec::<T>(*j) is None && format_error(e),
        },
{
    match j {
        Json::Array(items) => {
            let mut out: Vec<T> = Vec::new();
            let mut i: usize = 0;
            while i < items.len()
                invariant
                    i <= items.len(),
                    out@.len() == i,
                    *j == Json::Array(*items),
                    forall|k: int| 0 <= k < i ==> T::decode_spec(items@[k]) == Some(out@[k]@),
                decreases items.len() - i,
            {
                match T::decode(&items[i]) {
                    Ok(x) => out.push(x),
                    Err(e) => return Err(e),
                }
                i += 1;
            }
            assert(views(out@) =~= Seq::new(
                items@.len(),
                |i: int| T::decode_spec(items@[i])->Some_0,
            ));
            Ok(out)
        },
        _ => Err(shape_error("expected an array")),
    }
}

/// Reads required member `key` of `j`, an array of values of `T`.
pub fn required_list<T: Wire>(j: &Json, key: &str) -> (r: Result<Vec<T>, ParseError>)
    ensures
        match r {
            Ok(xs) => required_list_spec::<T>(*j, key@) == Some(views(xs@)),
            Err(e) => required_list_spec::<T>(*j, key@) is None && format_error(e),
        },
{
    match find(j, key) {
        Some(v) => match decode_list(v) {
            Ok(xs) => Ok(xs),
            Err(e) => Err(within(key, e)),
        },
        None => Err(missing_error(key)),
    }
}

/// Reads optional member `key` of `j`, an array of values of `T`.
pub fn optional_list<T: Wire>(j: &Json, key: &str) -> (r: Result<Option<Vec<T>>, ParseError>)
    ensures
        match r {
            Ok(Some(xs)) => optional_list_spec::<T>(*j, key@) == Some(Some(views(xs@))),
            Ok(None) => optional_list_spec::<T>(*j, key@) == Some(None::<Seq<T::V>>),
            Err(e) => optional_list_spec::<T>(*j, key@) is None && format_error(e),
        },
{
    match find(j, key) {
        None => Ok(None),
        Some(Json::Null) => Ok(None),
        Some(v) => match decode_list(v) {
            Ok(xs) => Ok(Some(xs)),
            Err(e) => Err(within(key, e)),
        },
    }
}

/// Writes the items of a sequence as a JSON array.
pub fn encode_list<T: Wire>(xs: &Vec<T>) -> (r: Json)
    ensures
        list_spec::<T>(r) == Some(views(xs@)),
{
    let mut items: Vec<Json> = Vec::new();
    let mut i: usize = 0;
    while i < xs.len()
        invariant
            i <= xs.len(),
            items@.len() == i,
            forall|k: int| 0 <= k < i ==> T::decode_spec(#[trigger] items@[k]) == Some(xs@[k]@),
        decreases xs.len() - i,
    {
        let j = xs[i].encode();
        items.push(j);
        i += 1;
    }
    let r = Json::Array(items);
    assert(views(xs@) =~= Seq::new(
        items@.len(),
        |i: int| T::decode_spec(items@[i])->Some_0,
    ));
    r
}

impl Wire for String {
    open spec fn decode_spec(j: Json) -> Option<Seq<char>> {
        match j {
            Json::Str(s) => Some(s@),
            _ => None,
        }
    }

    fn decode(j: &Json) -> (r: Result<String, ParseError>) {
        match j {
            Json::Str(s) => Ok(s.clone()),
            _ => Err(shape_error("expected a string")),
        }
    }

    fn encode(&self) -> (r: Json) {
        Json::Str(self.clone())
    }
}

impl Wire for i64 {
    open spec fn decode_spec(j: Json) -> Option<i64> {
        match j {
            Json::Int(n) => Some(n),
            _ => None,
        }
    }

    fn decode(j: &Json) -> (r: Result<i64, ParseError>) {
        match j {
            Json::Int(n) => Ok(*n),
            _ => Err(shape_error("expected an integer")),
        }
    }

    fn encode(&self) -> (r: Json) {
        Json::Int(*self)
    }
}

} // verus!
