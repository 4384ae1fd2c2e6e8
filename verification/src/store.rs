//! The on-disk cookie export: where the store file lives and how its
//! records' fields map onto [`crate::cookies::CookieRecord`]. The export is
//! a third-party tool's JSON array of objects with PascalCase keys; reading
//! the file and splitting each object into key/value pairs is the caller's
//! business, the schema is fixed here.
//!
//! Field table: `Host`, `Path`, `Name`, `Value` (text); `Secure`,
//! `HttpOnly`, `HasExpires`, `Persistent` (flags); `CreationUTC`,
//! `ExpiresUTC` (integers). `IsHTTPOnly` is accepted as an alias for
//! `HttpOnly`. A duplicated key reads as its first occurrence.

use vstd::prelude::*;
use crate::cookies::CookieRecord;
use crate::output::{join_path, spec_join};
use vstd::string::StringExecFns;

verus! {

/// One JSON scalar of a cookie-export object, as a plain value.
#[derive(Clone)]
pub enum FieldValue {
    Text(String),
    Integer(i64),
    Flag(bool),
}

/// The first value listed under `key`, if any.
pub open spec fn spec_lookup(fs: Seq<(String, FieldValue)>, key: Seq<char>) -> Option<FieldValue>
    decreases fs.len(),
{
    if fs.len() == 0 {
        None
    } else if fs[0].0@ == key {
        Some(fs[0].1)
    } else {
        spec_lookup(fs.drop_first(), key)
    }
}

/// The text under `key`; nothing when absent or of another kind.
pub open spec fn spec_text(fs: Seq<(String, FieldValue)>, key: Seq<char>) -> Option<String> {
    match spec_lookup(fs, key) {
        Some(FieldValue::Text(s)) => Some(s),
        _ => None,
    }
}

/// The flag under `key`; nothing when absent or of another kind.
pub open spec fn spec_flag(fs: Seq<(String, FieldValue)>, key: Seq<char>) -> Option<bool> {
    match spec_lookup(fs, key) {
        Some(FieldValue::Flag(b)) => Some(b),
        _ => None,
    }
}

/// The integer under `key`; nothing when absent or of another kind.
pub open spec fn spec_int(fs: Seq<(String, FieldValue)>, key: Seq<char>) -> Option<i64> {
    match spec_lookup(fs, key) {
        Some(FieldValue::Integer(i)) => Some(i),
        _ => None,
    }
}

/// The http-only flag, read from `HttpOnly` with `IsHTTPOnly` as an alias.
pub open spec fn spec_http_only(fs: Seq<(String, FieldValue)>) -> Option<bool> {
    match spec_flag(fs, "HttpOnly"@) {
        Some(b) => Some(b),
        None => spec_flag(fs, "IsHTTPOnly"@),
    }
}

/// A record read from one export object: every field of the table present
/// and of the right kind, or nothing.
pub open spec fn spec_record(fs: Seq<(String, FieldValue)>) -> Option<CookieRecord> {
    if spec_text(fs, "Host"@) is Some && spec_text(fs, "Path"@) is Some && spec_text(fs, "Name"@)
        is Some && spec_text(fs, "Value"@) is Some && spec_flag(fs, "Secure"@) is Some
        && spec_http_only(fs) is Some && spec_flag(fs, "HasExpires"@) is Some && spec_flag(
        fs,
        "Persistent"@,
    ) is Some && spec_int(fs, "CreationUTC"@) is Some && spec_int(fs, "ExpiresUTC"@) is Some {
        Some(
            CookieRecord {
                host: spec_text(fs, "Host"@)->Some_0,
                path: spec_text(fs, "Path"@)->Some_0,
                name: spec_text(fs, "Name"@)->Some_0,
                value: spec_text(fs, "Value"@)->Some_0,
                secure: spec_flag(fs, "Secure"@)->Some_0,
                http_only: spec_http_only(fs)->Some_0,
                has_expires: spec_flag(fs, "HasExpires"@)->Some_0,
                persistent: spec_flag(fs, "Persistent"@)->Some_0,
                creation_utc: spec_int(fs, "CreationUTC"@)->Some_0,
                expiry_utc: spec_int(fs, "ExpiresUTC"@)->Some_0,
            },
        )
    } else {
        None
    }
}

/// Find the first entry under `key`.
fn lookup(fields: &Vec<(String, FieldValue)>, key: &str) -> (r: Option<usize>)
    ensures
        match r {
            Some(i) => i < fields@.len() && fields@[i as int].0@ == key@ && spec_lookup(
                fields@,
                key@,
            ) == Some(fields@[i as int].1),
            None => spec_lookup(fields@, key@) is None,
        },
{
    let n: usize = fields.len();
    proof {
        assert(fields@.subrange(0, n as int) =~= fields@);
    }
    let mut i: usize = 0;
    while i < n
        invariant
            0 <= i <= n == fields@.len(),
            spec_lookup(fields@, key@) == spec_lookup(fields@.subrange(i as int, n as int), key@),
        decreases n - i,
    {
        proof {
            assert(fields@.subrange(i as int, n as int)[0] == fields@[i as int]);
            assert(fields@.subrange(i as int, n as int).drop_first() =~= fields@.subrange(
                i + 1,
                n as int,
            ));
        }
        if crate::text::str_eq(fields[i].0.as_str(), key) {
            return Some(i);
        }
        i = i + 1;
    }
    proof {
        assert(fields@.subrange(n as int, n as int).len() == 0);
    }
    None
}

/// Read the text under `key`.
fn text_field(fields: &Vec<(String, FieldValue)>, key: &str) -> (r: Option<String>)
    ensures
        r == spec_text(fields@, key@),
{
    match lookup(fields, key) {
        Some(i) => match &fields[i].1 {
            FieldValue::Text(s) => Some(s.clone()),
            _ => None,
        },
        None => None,
    }
}

/// Read the flag under `key`.
fn flag_field(fields: &Vec<(String, FieldValue)>, key: &str) -> (r: Option<bool>)
    ensures
        r == spec_flag(fields@, key@),
{
    match lookup(fields, key) {
        Some(i) => match &fields[i].1 {
            FieldValue::Flag(b) => Some(*b),
            _ => None,
        },
        None => None,
    }
}

/// Read the integer under `key`.
fn int_field(fields: &Vec<(String, FieldValue)>, key: &str) -> (r: Option<i64>)
    ensures
        r == spec_int(fields@, key@),
{
    match lookup(fields, key) {
        Some(i) => match &fields[i].1 {
            FieldValue::Integer(n) => Some(*n),
            _ => None,
        },
        None => None,
    }
}

/// Read one export object as a cookie record; nothing when a field of the
/// table is missing or of the wrong kind.
pub fn record_from_fields(fields: &Vec<(String, FieldValue)>) -> (r: Option<CookieRecord>)
    ensures
        r == spec_record(fields@),
{
    let host = text_field(fields, "Host");
    let path = text_field(fields, "Path");
    let name = text_field(fields, "Name");
    let value = text_field(fields, "Value");
    let secure = flag_field(fields, "Secure");
    let http_only = match flag_field(fields, "HttpOnly") {
        Some(b) => Some(b),
        None => flag_field(fields, "IsHTTPOnly"),
    };
    let has_expires = flag_field(fields, "HasExpires");
    let persistent = flag_field(fields, "Persistent");
    let creation_utc = int_field(fields, "CreationUTC");
    let expiry_utc = int_field(fields, "ExpiresUTC");
    match (host, path, name, value) {
        (Some(host), Some(path), Some(name), Some(value)) => match (
            secure,
            http_only,
            has_expires,
            persistent,
        ) {
            (Some(secure), Some(http_only), Some(has_expires), Some(persistent)) => match (
                creation_utc,
                expiry_utc,
            ) {
                (Some(creation_utc), Some(expiry_utc)) => Some(
                    CookieRecord {
                        host,
                        path,
                        name,
                        value,
                        secure,
                        http_only,
                        has_expires,
                        persistent,
                        creation_utc,
                        expiry_utc,
                    },
                ),
                _ => None,
            },
            _ => None,
        },
        _ => None,
    }
}

/// Read a whole export: every object must read as a record, else the store
/// is malformed and nothing is returned.
pub fn records_from_store(rows: &Vec<Vec<(String, FieldValue)>>) -> (r: Option<Vec<CookieRecord>>)
    ensures
        match r {
            Some(v) => v@.len() == rows@.len() && forall|i: int|
                0 <= i < rows@.len() ==> spec_record(rows@[i]@) == Some(v@[i]),
            None => exists|i: int| 0 <= i < rows@.len() && spec_record(#[trigger] rows@[i]@)
                is None,
        },
{
    let mut out: Vec<CookieRecord> = Vec::new();
    let mut i: usize = 0;
    while i < rows.len()
        invariant
            0 <= i <= rows@.len(),
            out@.len() == i,
            forall|j: int| 0 <= j < i ==> spec_record(rows@[j]@) == Some(out@[j]),
        decreases rows@.len() - i,
    {
        match record_from_fields(&rows[i]) {
            Some(rec) => out.push(rec),
            None => {
                return None;
            },
        }
        i = i + 1;
    }
    Some(out)
}

/// The name of the export file inside the cookies directory.
pub open spec fn store_file() -> Seq<char> {
    "cookies.json"@
}

/// Where the export file is read from: the configured directory when it
/// exists, a fixed scratch directory otherwise.
pub fn store_file_path(configured_dir: &String, dir_exists: bool) -> (r: String)
    ensures
        dir_exists ==> r@ == spec_join(configured_dir@, store_file()),
        !dir_exists ==> r@ == spec_join("/tmp"@, store_file()),
{
    if dir_exists {
        join_path(configured_dir, "cookies.json")
    } else {
        proof {
            reveal_strlit("/tmp");
        }
        let scratch = String::from_str("/tmp");
        join_path(&scratch, "cookies.json")
    }
}

} // verus!
