use vstd::prelude::*;

verus! {

/// A JSON document as a tree. A number that is an integer in the range of
/// `i64` is held as such; any other number is held as its decimal text.
/// An object keeps its members in document order.
#[derive(Debug)]
pub enum Json {
    Null,
    Bool(bool),
    Int(i64),
    Num(String),
    Str(String),
    Array(Vec<Json>),
    Object(Vec<(String, Json)>),
}

/// The value of the first member of `fields` whose key is `key`.
pub open spec fn lookup(fields: Seq<(String, Json)>, key: Seq<char>) -> Option<Json>
    decreases fields.len(),
{
    if fields.len() == 0 {
        None
    } else if fields[0].0@ == key {
        Some(fields[0].1)
    } else {
        lookup(fields.drop_first(), key)
    }
}

/// The value of member `key` of `j`, where `j` is an object that has one.
pub open spec fn member(j: Json, key: Seq<char>) -> Option<Json> {
    match j {
        Json::Object(fields) => lookup(fields@, key),
        _ => None,
    }
}

/// Appending a member leaves the first match of every key where it was.
pub proof fn lemma_lookup_push(fields: Seq<(String, Json)>, p: (String, Json), key: Seq<char>)
    ensures
        lookup(fields.push(p), key) == (if lookup(fields, key) is Some {
            lookup(fields, key)
        } else if p.0@ == key {
            Some(p.1)
        } else {
            None
        }),
    decreases fields.len(),
{
    if fields.len() == 0 {
        assert(fields.push(p).drop_first() =~= Seq::<(String, Json)>::empty());
        assert(lookup(Seq::<(String, Json)>::empty(), key) is None);
        assert(fields.push(p)[0] == p);
    } else {
        assert(fields.push(p).drop_first() =~= fields.drop_first().push(p));
        assert(fields.push(p)[0] == fields[0]);
        lemma_lookup_push(fields.drop_first(), p, key);
    }
}

/// Whether `j` is an object.
pub fn is_object(j: &Json) -> (r: bool)
    ensures
        r == (*j is Object),
{
    match j {
        Json::Object(_) => true,
        _ => false,
    }
}

/// Finds member `key` of `j`.
pub fn find<'a>(j: &'a Json, key: &str) -> (r: Option<&'a Json>)
    ensures
        match r {
            Some(v) => member(*j, key@) == Some(*v),
            None => member(*j, key@) is None,
        },
{
    match j {
        Json::Object(fields) => {
            let k = key.to_owned();
            let mut i: usize = 0;
            assert(fields@.subrange(0, fields@.len() as int) =~= fields@);
            while i < fields.len()
                invariant
                    i <= fields.len(),
                    k@ == key@,
                    member(*j, key@) == lookup(fields@, key@),
                    lookup(fields@, key@) == lookup(
                        fields@.subrange(i as int, fields@.len() as int),
                        key@,
                    ),
                decreases fields.len() - i,
            {
                let ghost rest = fields@.subrange(i as int, fields@.len() as int);
                assert(rest[0] == fields@[i as int]);
                if fields[i].0 == k {
                    return Some(&fields[i].1);
                }
                assert(rest.drop_first() =~= fields@.subrange(i + 1, fields@.len() as int));
                i += 1;
            }
            None
        },
        _ => None,
    }
}

/// Appends member `key` to an object under construction.
pub fn push_member(fields: &mut Vec<(String, Json)>, key: &str, value: Json)
    ensures
        final(fields)@.len() == old(fields)@.len() + 1,
        final(fields)@.drop_last() == old(fields)@,
        final(fields)@.last().0@ == key@,
        final(fields)@.last().1 == value,
        forall|k: Seq<char>|
            #[trigger] lookup(final(fields)@, k) == (if lookup(old(fields)@, k) is Some {
                lookup(old(fields)@, k)
            } else if key@ == k {
                Some(value)
            } else {
                None
            }),
{
    let ghost before = fields@;
    let ghost v = value;
    let p = (key.to_owned(), value);
    fields.push(p);
    assert(fields@.drop_last() =~= before);
    assert forall|k: Seq<char>| #[trigger]
        lookup(fields@, k) == (if lookup(before, k) is Some {
            lookup(before, k)
        } else if key@ == k {
            Some(v)
        } else {
            None
        }) by {
        lemma_lookup_push(before, p, k);
    }
}

} // verus!
