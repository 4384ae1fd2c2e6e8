//! Cookie store adapter: selects the records of an exported browser-cookie
//! store that apply to a target host and converts them into the normalized
//! form a browsing context consumes. Reading and parsing the store file is
//! the caller's business; the selection rules live here.

use vstd::prelude::*;
use crate::text::seq_contains;

verus! {

/// One record of the external cookie export, already parsed into plain values.
pub struct CookieRecord {
    pub host: String,
    pub path: String,
    pub name: String,
    pub value: String,
    pub secure: bool,
    pub http_only: bool,
    pub has_expires: bool,
    pub persistent: bool,
    pub creation_utc: i64,
    pub expiry_utc: i64,
}

/// The normalized cookie a browsing context consumes.
pub struct SessionCookie {
    pub name: String,
    pub value: String,
    pub domain: String,
    pub path: String,
    pub http_only: bool,
    pub secure: bool,
}

/// The record applies to the target host: its host field contains the target
/// host as a substring (substring, not equality, so that a parent-domain
/// entry matches a subdomain).
pub open spec fn host_matches(r: CookieRecord, host: Seq<char>) -> bool {
    seq_contains(r.host@, host)
}

/// A record with an empty cookie name is not convertible and is dropped.
pub open spec fn convertible(r: CookieRecord) -> bool {
    r.name@.len() > 0
}

/// The one-to-one record-to-session-cookie mapping.
pub open spec fn spec_convert(r: CookieRecord) -> SessionCookie {
    SessionCookie {
        name: r.name,
        value: r.value,
        domain: r.host,
        path: r.path,
        http_only: r.http_only,
        secure: r.secure,
    }
}

/// A record survives selection: it applies to the host and is convertible.
pub open spec fn keeps(r: CookieRecord, host: Seq<char>) -> bool {
    host_matches(r, host) && convertible(r)
}

/// The session cookies that selection yields, in record order.
pub open spec fn spec_selected(rs: Seq<CookieRecord>, host: Seq<char>) -> Seq<SessionCookie>
    decreases rs.len(),
{
    if rs.len() == 0 {
        Seq::empty()
    } else if keeps(rs.last(), host) {
        spec_selected(rs.drop_last(), host).push(spec_convert(rs.last()))
    } else {
        spec_selected(rs.drop_last(), host)
    }
}

/// Convert one record; a record with an empty name yields nothing.
pub fn convert_record(r: &CookieRecord) -> (c: Option<SessionCookie>)
    ensures
        convertible(*r) ==> c == Some(spec_convert(*r)),
        !convertible(*r) ==> c is None,
{
    if r.name.as_str().unicode_len() == 0 {
        None
    } else {
        Some(SessionCookie {
            name: r.name.clone(),
            value: r.value.clone(),
            domain: r.host.clone(),
            path: r.path.clone(),
            http_only: r.http_only,
            secure: r.secure,
        })
    }
}

/// Select the records that apply to `host` and convert them.
pub fn select_cookies(records: &Vec<CookieRecord>, host: &String) -> (r: Vec<SessionCookie>)
    ensures
        r@ == spec_selected(records@, host@),
{
    let mut out: Vec<SessionCookie> = Vec::new();
    let mut i: usize = 0;
    while i < records.len()
        invariant
            0 <= i <= records@.len(),
            out@ == spec_selected(records@.take(i as int), host@),
        decreases records@.len() - i,
    {
        let rec = &records[i];
        if crate::text::str_contains(rec.host.as_str(), host.as_str()) {
            if let Some(c) = convert_record(rec) {
                out.push(c);
            }
        }
        proof {
            let taken = records@.take(i + 1);
            assert(taken.drop_last() =~= records@.take(i as int));
            assert(taken.last() == records@[i as int]);
        }
        i = i + 1;
    }
    proof {
        assert(records@.take(records@.len() as int) =~= records@);
    }
    out
}

/// Load the cookies applicable to `host` from parsed records; absent when
/// nothing applies, which signals "proceed without injection".
pub fn load_session_cookies(records: &Vec<CookieRecord>, host: &String) -> (r: Option<
    Vec<SessionCookie>,
>)
    ensures
        spec_selected(records@, host@).len() == 0 ==> r is None,
        spec_selected(records@, host@).len() > 0 ==> (match r {
            Some(v) => v@ == spec_selected(records@, host@),
            None => false,
        }),
{
    let selected = select_cookies(records, host);
    if selected.len() == 0 {
        None
    } else {
        Some(selected)
    }
}

/// The cookies fit for installation: those with a non-empty value.
pub open spec fn spec_injectable(cs: Seq<SessionCookie>) -> Seq<SessionCookie>
    decreases cs.len(),
{
    if cs.len() == 0 {
        Seq::empty()
    } else if cs.last().value@.len() > 0 {
        spec_injectable(cs.drop_last()).push(cs.last())
    } else {
        spec_injectable(cs.drop_last())
    }
}

/// Drop the cookies whose value is empty; only the rest are installed.
pub fn injectable_cookies(cs: Vec<SessionCookie>) -> (r: Vec<SessionCookie>)
    ensures
        r@ == spec_injectable(cs@),
{
    let mut out: Vec<SessionCookie> = Vec::new();
    let mut i: usize = 0;
    while i < cs.len()
        invariant
            0 <= i <= cs@.len(),
            out@ == spec_injectable(cs@.take(i as int)),
        decreases cs@.len() - i,
    {
        if cs[i].value.as_str().unicode_len() > 0 {
            out.push(SessionCookie {
                name: cs[i].name.clone(),
                value: cs[i].value.clone(),
                domain: cs[i].domain.clone(),
                path: cs[i].path.clone(),
                http_only: cs[i].http_only,
                secure: cs[i].secure,
            });
        }
        proof {
            let taken = cs@.take(i + 1);
            assert(taken.drop_last() =~= cs@.take(i as int));
            assert(taken.last() == cs@[i as int]);
        }
        i = i + 1;
    }
    proof {
        assert(cs@.take(cs@.len() as int) =~= cs@);
    }
    out
}

/// Law: selection is exact. A session cookie is in the selected set if and
/// only if it is the conversion of some record that matches the host and has
/// a non-empty name; in particular no selected cookie has an empty name.
pub proof fn lemma_selection_exact(rs: Seq<CookieRecord>, host: Seq<char>)
    ensures
        forall|c: SessionCookie| #[trigger] spec_selected(rs, host).contains(c) <==> (exists|
            i: int,
        | 0 <= i < rs.len() && keeps(#[trigger] rs[i], host) && c == spec_convert(rs[i])),
        forall|c: SessionCookie| #[trigger] spec_selected(rs, host).contains(c)
            ==> c.name@.len() > 0,
    decreases rs.len(),
{
    if rs.len() > 0 {
        lemma_selection_exact(rs.drop_last(), host);
        let prev = spec_selected(rs.drop_last(), host);
        assert forall|c: SessionCookie| #[trigger] spec_selected(rs, host).contains(c) implies (
        exists|i: int| 0 <= i < rs.len() && keeps(#[trigger] rs[i], host) && c == spec_convert(
            rs[i],
        )) by {
            if keeps(rs.last(), host) && c == spec_convert(rs.last()) {
                assert(rs[rs.len() - 1] == rs.last());
                assert(keeps(rs[rs.len() - 1], host) && c == spec_convert(rs[rs.len() - 1]));
            } else {
                assert(prev.contains(c));
                let i = choose|i: int| 0 <= i < rs.drop_last().len() && keeps(
                    #[trigger] rs.drop_last()[i],
                    host,
                ) && c == spec_convert(rs.drop_last()[i]);
                assert(rs.drop_last()[i] == rs[i]);
                assert(keeps(rs[i], host) && c == spec_convert(rs[i]));
            }
        }
        assert forall|c: SessionCookie| (exists|i: int| 0 <= i < rs.len() && keeps(
            #[trigger] rs[i],
            host,
        ) && c == spec_convert(rs[i])) implies #[trigger] spec_selected(rs, host).contains(c) by {
            let i = choose|i: int| 0 <= i < rs.len() && keeps(#[trigger] rs[i], host) && c
                == spec_convert(rs[i]);
            if i == rs.len() - 1 {
                assert(spec_selected(rs, host).last() == c);
            } else {
                assert(rs.drop_last()[i] == rs[i]);
                assert(prev.contains(c));
                if keeps(rs.last(), host) {
                    let j = choose|j: int| 0 <= j < prev.len() && prev[j] == c;
                    assert(spec_selected(rs, host)[j] == c);
                }
            }
        }
    }
}

/// Law: value filtering is exact. A cookie is installed if and only if it was
/// in the converted set and its value is non-empty; an empty-valued cookie is
/// never installed.
pub proof fn lemma_injectable_exact(cs: Seq<SessionCookie>)
    ensures
        forall|c: SessionCookie| #[trigger] spec_injectable(cs).contains(c) <==> (cs.contains(c)
            && c.value@.len() > 0),
    decreases cs.len(),
{
    if cs.len() > 0 {
        lemma_injectable_exact(cs.drop_last());
        let prev = spec_injectable(cs.drop_last());
        assert forall|c: SessionCookie| #[trigger] spec_injectable(cs).contains(c) implies (
        cs.contains(c) && c.value@.len() > 0) by {
            if cs.last().value@.len() > 0 && c == cs.last() {
                assert(cs[cs.len() - 1] == c);
            } else {
                assert(prev.contains(c));
                let i = choose|i: int| 0 <= i < cs.drop_last().len() && cs.drop_last()[i] == c;
                assert(cs[i] == c);
            }
        }
        assert forall|c: SessionCookie| (cs.contains(c) && c.value@.len() > 0)
            implies #[trigger] spec_injectable(cs).contains(c) by {
            let i = choose|i: int| 0 <= i < cs.len() && cs[i] == c;
            if i == cs.len() - 1 {
                assert(spec_injectable(cs).last() == c);
            } else {
                assert(cs.drop_last()[i] == c);
                assert(cs.drop_last().contains(c));
                assert(prev.contains(c));
                if cs.last().value@.len() > 0 {
                    let j = choose|j: int| 0 <= j < prev.len() && prev[j] == c;
                    assert(spec_injectable(cs)[j] == c);
                }
            }
        }
    }
}

} // verus!
