//! The link registry: create, lookup and delete over a storage backend.
//!
//! `create` is the core: validate, check for an existing code, insert a
//! fresh candidate, and on a uniqueness conflict re-read the winner — an
//! optimistic protocol with no locks, the storage layer's uniqueness
//! constraint on the code column being the single arbiter of races. The
//! operations here drive the step machine of [`crate::protocol`] against
//! the in-memory backend of [`crate::store`]; a server drives the same
//! steps against an external database.

use vstd::prelude::*;
use crate::api::{CreateLinkResponse, InfoResponse};
use crate::auth::{bearer_matches, check_bearer};
use crate::codes::{all_code_chars, generate_random_code};
use crate::errors::{AuthError, CreateError, DeleteOutcome};
use crate::protocol::{create_begin, on_existing, on_insert_result, on_recover};
use crate::protocol::{CreatePhase, FindEvent, InsertEvent};
use crate::store::{code_present, first_code_for_url, remove_code, row_for_code};
use crate::store::{LinkData, MemStore};
use crate::store::{
    lemma_first_code_is_row, lemma_first_code_push, lemma_remove_code_at_first_match,
    lemma_remove_code_absent, lemma_remove_keeps_unique, lemma_row_absent,
    lemma_row_at_first_match, lemma_row_push,
};
use crate::urlcheck::url_ok;

verus! {

/// What one create call does to the store and reports, when it runs
/// uninterleaved: reject an invalid URL untouched; return an existing code
/// as is; insert the candidate when its code is fresh; and fail — the
/// conflict-recovery re-read finds no winner — when the candidate code
/// collides with an unrelated row.
pub open spec fn spec_create(s: Seq<LinkData>, u: Seq<char>, c: Seq<char>, t: int) -> (
    Seq<LinkData>,
    Result<Seq<char>, CreateError>,
) {
    if !url_ok(u) {
        (s, Err(CreateError::InvalidUrl))
    } else {
        match first_code_for_url(s, u) {
            Some(existing) => (s, Ok(existing)),
            None => if code_present(s, c) {
                (s, Err(CreateError::StorageFault))
            } else {
                (s.push(LinkData { code: c, url: u, created_at: t }), Ok(c))
            },
        }
    }
}

/// The code a create call reported, if it succeeded.
pub open spec fn created_code(r: Result<CreateLinkResponse, CreateError>) -> Result<
    Seq<char>,
    CreateError,
> {
    match r {
        Ok(resp) => Ok(resp.code@),
        Err(e) => Err(e),
    }
}

/// Register `url` under the candidate `code`, recording `created_at`,
/// by the create protocol: validate, fast-path lookup, insert, and on a
/// uniqueness conflict one recovery re-read.
pub fn create_with_code(store: &mut MemStore, url: &str, code: &str, created_at: i64) -> (r: Result<
    CreateLinkResponse,
    CreateError,
>)
    requires
        old(store).wf(),
    ensures
        final(store).wf(),
        final(store)@ == spec_create(old(store)@, url@, code@, created_at as int).0,
        created_code(r) == spec_create(old(store)@, url@, code@, created_at as int).1,
        r matches Ok(resp) ==> resp.url@ == url@,
{
    let p0 = create_begin(url);
    if let CreatePhase::Failed { error } = p0 {
        return Err(error);
    }
    let ev = match store.find_code_by_url(url) {
        Some(c) => FindEvent::Found(c),
        None => FindEvent::Absent,
    };
    let p1 = on_existing(url, ev, code.to_owned(), created_at);
    match p1 {
        CreatePhase::Done { response } => Ok(response),
        CreatePhase::TryInsert { code: cand, created_at: stamp } => {
            let ins = match store.insert(cand.as_str(), url, stamp) {
                Ok(()) => InsertEvent::Inserted,
                Err(e) => InsertEvent::Refused(e),
            };
            let p2 = on_insert_result(url, cand, ins);
            match p2 {
                CreatePhase::Done { response } => Ok(response),
                CreatePhase::Recover => {
                    let ev2 = match store.find_code_by_url(url) {
                        Some(c) => FindEvent::Found(c),
                        None => FindEvent::Absent,
                    };
                    match on_recover(url, ev2) {
                        CreatePhase::Done { response } => Ok(response),
                        _ => Err(CreateError::StorageFault),
                    }
                },
                _ => Err(CreateError::StorageFault),
            }
        },
        _ => Err(CreateError::StorageFault),
    }
}

/// Register `url`, generating a fresh candidate code of `code_size`
/// characters and recording `now`. On an already registered URL this is
/// the idempotent fast path; a fresh URL gets a new row unless the random
/// candidate collides with an existing code, which surfaces as a creation
/// fault — no retry.
pub fn create(store: &mut MemStore, url: &str, code_size: usize, now: i64) -> (r: Result<
    CreateLinkResponse,
    CreateError,
>)
    requires
        old(store).wf(),
    ensures
        final(store).wf(),
        !url_ok(url@) ==> r == Err::<CreateLinkResponse, CreateError>(CreateError::InvalidUrl)
            && final(store)@ == old(store)@,
        url_ok(url@) ==> (first_code_for_url(old(store)@, url@) matches Some(c) ==> ({
            &&& final(store)@ == old(store)@
            &&& r matches Ok(resp) && resp.code@ == c && resp.url@ == url@
        })),
        url_ok(url@) && first_code_for_url(old(store)@, url@) is None ==> ({
            ||| (r matches Ok(resp) && resp.url@ == url@ && resp.code@.len() == code_size
                && all_code_chars(resp.code@) && !code_present(old(store)@, resp.code@)
                && final(store)@ == old(store)@.push(
                    LinkData { code: resp.code@, url: url@, created_at: now as int },
                ))
            ||| (r == Err::<CreateLinkResponse, CreateError>(CreateError::StorageFault)
                && final(store)@ == old(store)@)
        }),
{
    let code = generate_random_code(code_size);
    create_with_code(store, url, code.as_str(), now)
}

/// Look a code up for redirection: the URL it stands for, if any.
pub fn resolve_url(store: &MemStore, code: &str) -> (r: Option<String>)
    ensures
        match r {
            Some(u) => row_for_code(store@, code@) matches Some(d) && d.url == u@,
            None => row_for_code(store@, code@) is None,
        },
{
    match store.find_url_by_code(code) {
        Some((u, _)) => Some(u),
        None => None,
    }
}

/// Look a code up for the info endpoint: its URL and creation timestamp,
/// if any. Absence is a normal outcome, not a fault.
pub fn get_link_info(store: &MemStore, code: &str) -> (r: Option<InfoResponse>)
    ensures
        match r {
            Some(info) => info.code@ == code@ && row_for_code(store@, code@) == Some(
                LinkData { code: code@, url: info.url@, created_at: info.created_at as int },
            ),
            None => row_for_code(store@, code@) is None,
        },
{
    match store.find_url_by_code(code) {
        Some((u, t)) => Some(InfoResponse { code: code.to_owned(), url: u, created_at: t }),
        None => None,
    }
}

/// Delete the link under `code`. Zero rows affected maps to
/// [`DeleteOutcome::NotFound`], which is not an error.
pub fn delete(store: &mut MemStore, code: &str) -> (r: DeleteOutcome)
    requires
        old(store).wf(),
    ensures
        final(store).wf(),
        final(store)@ == remove_code(old(store)@, code@),
        r == DeleteOutcome::Deleted <==> code_present(old(store)@, code@),
        r == DeleteOutcome::NotFound <==> !code_present(old(store)@, code@),
{
    let rows = store.delete_by_code(code);
    if rows == 0 {
        DeleteOutcome::NotFound
    } else {
        DeleteOutcome::Deleted
    }
}

/// The delete path as the server exposes it: the bearer token is checked
/// first, and nothing is touched unless it matches.
pub fn delete_link(store: &mut MemStore, code: &str, auth_header: &str, token: &str) -> (r: Result<
    DeleteOutcome,
    AuthError,
>)
    requires
        old(store).wf(),
    ensures
        final(store).wf(),
        !bearer_matches(auth_header@, token@) ==> r == Err::<DeleteOutcome, AuthError>(
            AuthError::Unauthorized,
        ) && final(store)@ == old(store)@,
        bearer_matches(auth_header@, token@) ==> final(store)@ == remove_code(
            old(store)@,
            code@,
        ) && (r == Ok::<DeleteOutcome, AuthError>(DeleteOutcome::Deleted) <==> code_present(
            old(store)@,
            code@,
        )) && (r == Ok::<DeleteOutcome, AuthError>(DeleteOutcome::NotFound) <==> !code_present(
            old(store)@,
            code@,
        )),
{
    if !check_bearer(auth_header, token) {
        return Err(AuthError::Unauthorized);
    }
    Ok(delete(store, code))
}

/// Idempotence of create: once a create for a URL has succeeded, any later
/// create for the same URL — whatever candidate code and timestamp it
/// brings — reports the same code and leaves the store unchanged.
pub proof fn lemma_create_idempotent(
    s: Seq<LinkData>,
    u: Seq<char>,
    c1: Seq<char>,
    t1: int,
    c2: Seq<char>,
    t2: int,
)
    requires
        spec_create(s, u, c1, t1).1 is Ok,
    ensures
        spec_create(spec_create(s, u, c1, t1).0, u, c2, t2).0 == spec_create(s, u, c1, t1).0,
        spec_create(spec_create(s, u, c1, t1).0, u, c2, t2).1 == spec_create(s, u, c1, t1).1,
{
    if first_code_for_url(s, u) is None {
        let d = LinkData { code: c1, url: u, created_at: t1 };
        lemma_first_code_push(s, u, d);
    }
}

/// Looking up the code a successful create reported yields the created
/// URL, with the timestamp recorded at creation: the one the create was
/// given when it inserted a fresh row, and the existing row's original
/// timestamp when the fast path returned it.
pub proof fn lemma_create_then_lookup(s: Seq<LinkData>, u: Seq<char>, c: Seq<char>, t: int)
    requires
        crate::store::codes_unique(s),
        spec_create(s, u, c, t).1 is Ok,
    ensures
        row_for_code(spec_create(s, u, c, t).0, spec_create(s, u, c, t).1->Ok_0) matches Some(d)
            && d.url == u,
        first_code_for_url(s, u) is None ==> row_for_code(
            spec_create(s, u, c, t).0,
            spec_create(s, u, c, t).1->Ok_0,
        ) == Some(LinkData { code: c, url: u, created_at: t }),
{
    if first_code_for_url(s, u) is Some {
        lemma_first_code_is_row(s, u);
        let ce = first_code_for_url(s, u)->Some_0;
        let i = choose|i: int| 0 <= i < s.len() && (#[trigger] s[i]).url == u && s[i].code == ce;
        assert forall|k: int| 0 <= k < i implies (#[trigger] s[k]).code != ce by {
            assert(s[k].code != s[i].code);
        }
        lemma_row_at_first_match(s, ce, i);
    } else {
        let d = LinkData { code: c, url: u, created_at: t };
        assert(forall|k: int| 0 <= k < s.len() ==> (#[trigger] s[k]).code != c);
        lemma_row_absent(s, c);
        lemma_row_push(s, c, d);
    }
}

/// Deleting a code removes it: a later lookup of the same code misses, and
/// deleting it again finds nothing to delete. Deleting a code that was
/// never present changes nothing. Neither case is an error.
pub proof fn lemma_delete_then_lookup(s: Seq<LinkData>, c: Seq<char>)
    requires
        crate::store::codes_unique(s),
    ensures
        !code_present(remove_code(s, c), c),
        row_for_code(remove_code(s, c), c) is None,
        !code_present(s, c) ==> remove_code(s, c) == s,
{
    if code_present(s, c) {
        let i = choose|i: int| 0 <= i < s.len() && (#[trigger] s[i]).code == c;
        assert forall|k: int| 0 <= k < i implies (#[trigger] s[k]).code != c by {
            assert(s[k].code != s[i].code);
        }
        lemma_remove_code_at_first_match(s, c, i);
        lemma_remove_keeps_unique(s, i);
        let t = remove_code(s, c);
        assert(forall|k: int| 0 <= k < t.len() ==> (#[trigger] t[k]).code != c);
        lemma_row_absent(t, c);
    } else {
        assert(forall|k: int| 0 <= k < s.len() ==> (#[trigger] s[k]).code != c);
        lemma_remove_code_absent(s, c);
        lemma_row_absent(s, c);
        assert(remove_code(s, c) =~= s);
    }
}

} // verus!
