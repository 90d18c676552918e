use vstd::prelude::*;

use crate::har::{Archive, Cache, Entry, Number, Request, Response, Timings};
use crate::json::{member, Json};
use crate::wire::{format_error, list_spec, optional_list_spec, optional_spec, required_spec, ParseError, Wire};

verus! {

/// Reads an archive from its JSON document. Either the whole archive comes
/// back or a `Format` error with a description does; members that the format makes optional may
/// be absent or null.
pub fn parse_archive(doc: &Json) -> (r: Result<Archive, ParseError>)
    ensures
        match r {
            Ok(a) => Archive::decode_spec(*doc) == Some(a@),
            Err(e) => Archive::decode_spec(*doc) is None && format_error(e),
        },
{
    Archive::decode(doc)
}

/// Writes an archive as a JSON document, which reads back as the same archive,
/// field for field and in the same order.
pub fn archive_to_json(archive: &Archive) -> (r: Json)
    ensures
        Archive::decode_spec(r) == Some(archive@),
{
    archive.encode()
}

/// An optional member that is absent or null reads as absent, never as an
/// error, whatever its type.
pub proof fn lemma_absent_optional<T: Wire>(j: Json, key: Seq<char>)
    requires
        member(j, key) is None || member(j, key) == Some(Json::Null),
    ensures
        optional_spec::<T>(j, key) == Some(None::<T::V>),
        optional_list_spec::<T>(j, key) == Some(None::<Seq<T::V>>),
{
}

/// An entry without a server address or a connection id reads exactly when
/// it would read with neither, and has neither. Its time is passed through
/// as it stands, negative or not.
pub proof fn lemma_entry_optional_members(j: Json)
    requires
        member(j, "serverIPAddress"@) is None,
        member(j, "connection"@) is None,
    ensures
        Entry::decode_spec(j) is Some <==> (
            required_spec::<String>(j, "startedDateTime"@) is Some
            && required_spec::<Number>(j, "time"@) is Some
            && required_spec::<Request>(j, "request"@) is Some
            && required_spec::<Response>(j, "response"@) is Some
            && required_spec::<Cache>(j, "cache"@) is Some
            && required_spec::<Timings>(j, "timings"@) is Some),
        Entry::decode_spec(j) is Some ==> ({
            let e = Entry::decode_spec(j)->Some_0;
            e.server_ip_address is None && e.connection is None
                && e.time == required_spec::<Number>(j, "time"@)->Some_0
        }),
{
}

/// A document whose log has an entry without a request is no archive.
pub proof fn lemma_entry_without_request(doc: Json, log: Json, items: Seq<Json>, i: int)
    requires
        member(doc, "log"@) == Some(log),
        match member(log, "entries"@) {
            Some(Json::Array(v)) => v@ == items,
            _ => false,
        },
        0 <= i < items.len(),
        member(items[i], "request"@) is None,
    ensures
        Archive::decode_spec(doc) is None,
{
    let v = member(log, "entries"@)->Some_0;
    assert(Entry::decode_spec(items[i]) is None);
    assert(list_spec::<Entry>(v) is None);
}

} // verus!
