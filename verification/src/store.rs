//! The storage capability and its in-memory reference backend.
//!
//! Every backend keeps one table of links, in insertion order, with a
//! uniqueness constraint on the code column. [`MemStore`] implements that
//! capability in memory, with the contract each operation must meet:
//! `find_code_by_url` and `find_url_by_code` are point lookups whose miss is
//! not an error, `insert` reports a normalized [`StoreError::UniqueViolation`]
//! exactly when the code already exists, and `delete_by_code` reports the
//! number of rows it removed.

use vstd::prelude::*;
use crate::config::DatabaseType;
use crate::errors::StoreError;
use crate::strutil::{opt_str_view, str_eq};

verus! {

/// One persisted link, as the mathematical model sees it.
#[verifier::ext_equal]
pub struct LinkData {
    /// The short code, the row's primary key.
    pub code: Seq<char>,
    /// The original URL.
    pub url: Seq<char>,
    /// Unix timestamp (seconds) assigned by the inserting party.
    pub created_at: int,
}

/// One persisted link, as the backend stores it.
#[derive(Clone, Debug)]
pub struct LinkRecord {
    /// The short code, the row's primary key.
    pub code: String,
    /// The original URL.
    pub url: String,
    /// Unix timestamp (seconds) assigned by the inserting party.
    pub created_at: i64,
}

impl View for LinkRecord {
    type V = LinkData;

    open spec fn view(&self) -> LinkData {
        LinkData { code: self.code@, url: self.url@, created_at: self.created_at as int }
    }
}

/// No two rows share a code: the uniqueness constraint the storage layer
/// enforces, and the linchpin of the race-resolution protocol.
pub open spec fn codes_unique(s: Seq<LinkData>) -> bool {
    forall|i: int, j: int| 0 <= i < j < s.len() ==> #[trigger] s[i].code != #[trigger] s[j].code
}

/// Some row holds this code.
pub open spec fn code_present(s: Seq<LinkData>, code: Seq<char>) -> bool {
    exists|i: int| 0 <= i < s.len() && #[trigger] s[i].code == code
}

/// The code of the first row holding `url`, if any: what a point lookup by
/// URL returns.
pub open spec fn first_code_for_url(s: Seq<LinkData>, url: Seq<char>) -> Option<Seq<char>>
    decreases s.len(),
{
    if s.len() == 0 {
        None
    } else if s[0].url == url {
        Some(s[0].code)
    } else {
        first_code_for_url(s.drop_first(), url)
    }
}

/// The first row holding `code`, if any: with unique codes, the one row a
/// point lookup by code returns.
pub open spec fn row_for_code(s: Seq<LinkData>, code: Seq<char>) -> Option<LinkData>
    decreases s.len(),
{
    if s.len() == 0 {
        None
    } else if s[0].code == code {
        Some(s[0])
    } else {
        row_for_code(s.drop_first(), code)
    }
}

/// The rows left after deleting `code`: everything but the first row
/// holding it.
pub open spec fn remove_code(s: Seq<LinkData>, code: Seq<char>) -> Seq<LinkData>
    decreases s.len(),
{
    if s.len() == 0 {
        s
    } else if s[0].code == code {
        s.drop_first()
    } else {
        seq![s[0]] + remove_code(s.drop_first(), code)
    }
}

/// If no row before `i` holds `code` and row `i` does, the lookup by code
/// returns row `i`.
pub proof fn lemma_row_at_first_match(s: Seq<LinkData>, code: Seq<char>, i: int)
    requires
        0 <= i < s.len(),
        s[i].code == code,
        forall|k: int| 0 <= k < i ==> #[trigger] s[k].code != code,
    ensures
        row_for_code(s, code) == Some(s[i]),
    decreases i,
{
    if i == 0 {
    } else {
        assert(s[0].code != code);
        assert(s.drop_first()[i - 1] == s[i]);
        lemma_row_at_first_match(s.drop_first(), code, i - 1);
    }
}

/// If no row holds `code`, the lookup by code misses.
pub proof fn lemma_row_absent(s: Seq<LinkData>, code: Seq<char>)
    requires
        forall|k: int| 0 <= k < s.len() ==> #[trigger] s[k].code != code,
    ensures
        row_for_code(s, code) is None,
    decreases s.len(),
{
    if s.len() > 0 {
        assert(forall|k: int| 0 <= k < s.drop_first().len() ==> #[trigger] s.drop_first()[k].code
            != code) by {
            assert(forall|k: int| 0 <= k < s.drop_first().len() ==> s.drop_first()[k] == s[k + 1]);
        }
        lemma_row_absent(s.drop_first(), code);
    }
}

/// If no row before `i` holds `url` and row `i` does, the lookup by URL
/// returns row `i`'s code.
pub proof fn lemma_url_at_first_match(s: Seq<LinkData>, url: Seq<char>, i: int)
    requires
        0 <= i < s.len(),
        s[i].url == url,
        forall|k: int| 0 <= k < i ==> #[trigger] s[k].url != url,
    ensures
        first_code_for_url(s, url) == Some(s[i].code),
    decreases i,
{
    if i == 0 {
    } else {
        assert(s[0].url != url);
        assert(s.drop_first()[i - 1] == s[i]);
        lemma_url_at_first_match(s.drop_first(), url, i - 1);
    }
}

/// If no row holds `url`, the lookup by URL misses.
pub proof fn lemma_url_absent(s: Seq<LinkData>, url: Seq<char>)
    requires
        forall|k: int| 0 <= k < s.len() ==> #[trigger] s[k].url != url,
    ensures
        first_code_for_url(s, url) is None,
    decreases s.len(),
{
    if s.len() > 0 {
        assert(forall|k: int| 0 <= k < s.drop_first().len() ==> #[trigger] s.drop_first()[k].url
            != url) by {
            assert(forall|k: int| 0 <= k < s.drop_first().len() ==> s.drop_first()[k] == s[k + 1]);
        }
        lemma_url_absent(s.drop_first(), url);
    }
}

/// A hit of the lookup by URL names the code of an actual row with that URL.
pub proof fn lemma_first_code_is_row(s: Seq<LinkData>, url: Seq<char>)
    requires
        first_code_for_url(s, url) is Some,
    ensures
        exists|i: int|
            0 <= i < s.len() && (#[trigger] s[i]).url == url && s[i].code
                == first_code_for_url(s, url)->Some_0,
    decreases s.len(),
{
    if s.len() > 0 && s[0].url != url {
        lemma_first_code_is_row(s.drop_first(), url);
        let i = choose|i: int|
            0 <= i < s.drop_first().len() && (#[trigger] s.drop_first()[i]).url == url
                && s.drop_first()[i].code == first_code_for_url(s.drop_first(), url)->Some_0;
        assert(s[i + 1] == s.drop_first()[i]);
    }
}

/// Appending a row with a fresh URL does not change which row a lookup by
/// an already present URL finds; for the fresh URL it finds the new row.
pub proof fn lemma_first_code_push(s: Seq<LinkData>, url: Seq<char>, d: LinkData)
    ensures
        first_code_for_url(s, url) is Some ==> first_code_for_url(s.push(d), url)
            == first_code_for_url(s, url),
        first_code_for_url(s, url) is None && d.url == url ==> first_code_for_url(s.push(d), url)
            == Some(d.code),
        first_code_for_url(s, url) is None && d.url != url ==> first_code_for_url(s.push(d), url)
            is None,
    decreases s.len(),
{
    if s.len() == 0 {
        assert(s.push(d)[0] == d);
        assert(s.push(d).drop_first() =~= Seq::<LinkData>::empty());
        assert(first_code_for_url(Seq::<LinkData>::empty(), url) is None);
    } else {
        assert(s.push(d)[0] == s[0]);
        assert(s.push(d).drop_first() =~= s.drop_first().push(d));
        lemma_first_code_push(s.drop_first(), url, d);
    }
}

/// Appending a row with a fresh code does not change which row a lookup by
/// an already present code finds; for the fresh code it finds the new row.
pub proof fn lemma_row_push(s: Seq<LinkData>, code: Seq<char>, d: LinkData)
    ensures
        row_for_code(s, code) is Some ==> row_for_code(s.push(d), code) == row_for_code(s, code),
        row_for_code(s, code) is None && d.code == code ==> row_for_code(s.push(d), code) == Some(
            d,
        ),
        row_for_code(s, code) is None && d.code != code ==> row_for_code(s.push(d), code) is None,
    decreases s.len(),
{
    if s.len() == 0 {
        assert(s.push(d)[0] == d);
        assert(s.push(d).drop_first() =~= Seq::<LinkData>::empty());
        assert(row_for_code(Seq::<LinkData>::empty(), code) is None);
    } else {
        assert(s.push(d)[0] == s[0]);
        assert(s.push(d).drop_first() =~= s.drop_first().push(d));
        lemma_row_push(s.drop_first(), code, d);
    }
}

/// Deleting the first row holding `code` is removing it at its index.
pub proof fn lemma_remove_code_at_first_match(s: Seq<LinkData>, code: Seq<char>, i: int)
    requires
        0 <= i < s.len(),
        s[i].code == code,
        forall|k: int| 0 <= k < i ==> #[trigger] s[k].code != code,
    ensures
        remove_code(s, code) =~= s.remove(i),
    decreases i,
{
    if i == 0 {
        assert(s.remove(0) =~= s.drop_first());
    } else {
        assert(s[0].code != code);
        assert(s.drop_first()[i - 1] == s[i]);
        lemma_remove_code_at_first_match(s.drop_first(), code, i - 1);
        assert(seq![s[0]] + s.drop_first().remove(i - 1) =~= s.remove(i));
    }
}

/// Deleting a code that no row holds changes nothing.
pub proof fn lemma_remove_code_absent(s: Seq<LinkData>, code: Seq<char>)
    requires
        forall|k: int| 0 <= k < s.len() ==> #[trigger] s[k].code != code,
    ensures
        remove_code(s, code) =~= s,
    decreases s.len(),
{
    if s.len() > 0 {
        assert(forall|k: int| 0 <= k < s.drop_first().len() ==> #[trigger] s.drop_first()[k].code
            != code) by {
            assert(forall|k: int| 0 <= k < s.drop_first().len() ==> s.drop_first()[k] == s[k + 1]);
        }
        lemma_remove_code_absent(s.drop_first(), code);
        assert(seq![s[0]] + s.drop_first() =~= s);
    }
}

/// Removing a row keeps the remaining codes unique, and if the removed row
/// was the only one holding its code, that code is gone.
pub proof fn lemma_remove_keeps_unique(s: Seq<LinkData>, i: int)
    requires
        codes_unique(s),
        0 <= i < s.len(),
    ensures
        codes_unique(s.remove(i)),
        !code_present(s.remove(i), s[i].code),
{
    let t = s.remove(i);
    assert forall|p: int, q: int| 0 <= p < q < t.len() implies #[trigger] t[p].code
        != #[trigger] t[q].code by {
        let p0 = if p < i { p } else { p + 1 };
        let q0 = if q < i { q } else { q + 1 };
        assert(t[p] == s[p0] && t[q] == s[q0]);
    }
    assert forall|k: int| 0 <= k < t.len() implies #[trigger] t[k].code != s[i].code by {
        let k0 = if k < i { k } else { k + 1 };
        assert(t[k] == s[k0] && k0 != i);
    }
}

/// Appending a row with a fresh code keeps the codes unique.
pub proof fn lemma_push_keeps_unique(s: Seq<LinkData>, d: LinkData)
    requires
        codes_unique(s),
        !code_present(s, d.code),
    ensures
        codes_unique(s.push(d)),
{
    let t = s.push(d);
    assert forall|i: int, j: int| 0 <= i < j < t.len() implies #[trigger] t[i].code
        != #[trigger] t[j].code by {
        if j < s.len() {
            assert(t[i] == s[i] && t[j] == s[j]);
        } else {
            assert(t[j] == d && t[i] == s[i]);
        }
    }
}

/// The in-memory backend: the table of links in insertion order. Its
/// methods carry the contract every storage backend of the registry is
/// expected to provide.
pub struct MemStore {
    links: Vec<LinkRecord>,
}

impl View for MemStore {
    type V = Seq<LinkData>;

    closed spec fn view(&self) -> Seq<LinkData> {
        self.links@.map_values(|r: LinkRecord| r@)
    }
}

impl MemStore {
    /// The uniqueness constraint on the code column holds.
    pub open spec fn wf(&self) -> bool {
        codes_unique(self@)
    }

    /// An empty table: what `ensure_schema` leaves behind on first start.
    pub fn new() -> (s: MemStore)
        ensures
            s@.len() == 0,
            s.wf(),
    {
        MemStore { links: Vec::new() }
    }

    /// How many links are stored.
    pub fn len(&self) -> (n: usize)
        ensures
            n == self@.len(),
    {
        self.links.len()
    }

    /// The index of the first row holding `code`, with nothing before it.
    fn index_of_code(&self, code: &str) -> (r: Option<usize>)
        ensures
            match r {
                Some(i) => i < self@.len() && self@[i as int].code == code@ && forall|k: int|
                    0 <= k < i ==> (#[trigger] self@[k]).code != code@,
                None => forall|k: int|
                    0 <= k < self@.len() ==> (#[trigger] self@[k]).code != code@,
            },
    {
        let n = self.links.len();
        let mut i: usize = 0;
        while i < n
            invariant
                n == self.links.len(),
                i <= n,
                self@.len() == n,
                forall|k: int| 0 <= k < i ==> (#[trigger] self@[k]).code != code@,
            decreases n - i,
        {
            if str_eq(self.links[i].code.as_str(), code) {
                return Some(i);
            }
            i = i + 1;
        }
        None
    }

    /// The index of the first row holding `url`, with nothing before it.
    fn index_of_url(&self, url: &str) -> (r: Option<usize>)
        ensures
            match r {
                Some(i) => i < self@.len() && self@[i as int].url == url@ && forall|k: int|
                    0 <= k < i ==> (#[trigger] self@[k]).url != url@,
                None => forall|k: int| 0 <= k < self@.len() ==> (#[trigger] self@[k]).url != url@,
            },
    {
        let n = self.links.len();
        let mut i: usize = 0;
        while i < n
            invariant
                n == self.links.len(),
                i <= n,
                self@.len() == n,
                forall|k: int| 0 <= k < i ==> (#[trigger] self@[k]).url != url@,
            decreases n - i,
        {
            if str_eq(self.links[i].url.as_str(), url) {
                return Some(i);
            }
            i = i + 1;
        }
        None
    }

    /// Point lookup: the code of the first row holding `url`. Absence is
    /// not an error.
    pub fn find_code_by_url(&self, url: &str) -> (r: Option<String>)
        ensures
            match r {
                Some(c) => first_code_for_url(self@, url@) == Some(c@),
                None => first_code_for_url(self@, url@) is None,
            },
    {
        match self.index_of_url(url) {
            Some(i) => {
                proof {
                    lemma_url_at_first_match(self@, url@, i as int);
                }
                Some(self.links[i].code.clone())
            },
            None => {
                proof {
                    lemma_url_absent(self@, url@);
                }
                None
            },
        }
    }

    /// Point lookup: the URL and creation timestamp of the row holding
    /// `code`. Absence is not an error.
    pub fn find_url_by_code(&self, code: &str) -> (r: Option<(String, i64)>)
        ensures
            match r {
                Some(p) => row_for_code(self@, code@) == Some(
                    LinkData { code: code@, url: p.0@, created_at: p.1 as int },
                ),
                None => row_for_code(self@, code@) is None,
            },
    {
        match self.index_of_code(code) {
            Some(i) => {
                proof {
                    lemma_row_at_first_match(self@, code@, i as int);
                }
                Some((self.links[i].url.clone(), self.links[i].created_at))
            },
            None => {
                proof {
                    lemma_row_absent(self@, code@);
                }
                None
            },
        }
    }

    /// Insert one row. Fails with the normalized uniqueness signal exactly
    /// when the code is already taken; the table is then unchanged.
    pub fn insert(&mut self, code: &str, url: &str, created_at: i64) -> (r: Result<(), StoreError>)
        requires
            old(self).wf(),
        ensures
            final(self).wf(),
            code_present(old(self)@, code@) ==> r == Err::<(), StoreError>(
                StoreError::UniqueViolation,
            ) && final(self)@ == old(self)@,
            !code_present(old(self)@, code@) ==> r is Ok && final(self)@ == old(self)@.push(
                LinkData { code: code@, url: url@, created_at: created_at as int },
            ),
    {
        match self.index_of_code(code) {
            Some(_) => Err(StoreError::UniqueViolation),
            None => {
                let ghost pre = self@;
                let ghost d = LinkData { code: code@, url: url@, created_at: created_at as int };
                let rec = LinkRecord { code: code.to_owned(), url: url.to_owned(), created_at };
                proof {
                    lemma_push_keeps_unique(pre, d);
                }
                self.links.push(rec);
                proof {
                    assert(self@ =~= pre.push(d));
                }
                Ok(())
            },
        }
    }

    /// Delete the row holding `code`, reporting how many rows (0 or 1)
    /// were removed. Deleting an absent code is not an error.
    pub fn delete_by_code(&mut self, code: &str) -> (rows: u64)
        requires
            old(self).wf(),
        ensures
            final(self).wf(),
            final(self)@ == remove_code(old(self)@, code@),
            rows == 1 <==> code_present(old(self)@, code@),
            rows == 0 <==> !code_present(old(self)@, code@),
    {
        match self.index_of_code(code) {
            Some(i) => {
                let ghost pre = self@;
                proof {
                    lemma_remove_code_at_first_match(pre, code@, i as int);
                    lemma_remove_keeps_unique(pre, i as int);
                }
                self.links.remove(i);
                proof {
                    assert(self@ =~= pre.remove(i as int));
                }
                1
            },
            None => {
                proof {
                    lemma_remove_code_absent(self@, code@);
                }
                0
            },
        }
    }
}

/// Whether an engine-specific error code is that engine's way of reporting
/// a unique-constraint violation: Postgres uses SQLSTATE "23505", SQLite
/// the extended result code "2067".
pub open spec fn unique_violation_code(db: DatabaseType, code: Option<Seq<char>>) -> bool {
    match code {
        Some(c) => (db == DatabaseType::Postgres && c == "23505"@) || (db == DatabaseType::Sqlite
            && c == "2067"@),
        None => false,
    }
}

/// Normalize an engine-specific error code into the shared storage signal,
/// so that the create protocol's conflict recovery is backend-agnostic.
pub fn normalize_db_error(db: DatabaseType, sqlstate: Option<&str>) -> (e: StoreError)
    ensures
        e == StoreError::UniqueViolation <==> unique_violation_code(db, opt_str_view(sqlstate)),
{
    match sqlstate {
        Some(s) => {
            let hit = match db {
                DatabaseType::Postgres => str_eq(s, "23505"),
                DatabaseType::Sqlite => str_eq(s, "2067"),
            };
            if hit {
                StoreError::UniqueViolation
            } else {
                StoreError::Other
            }
        },
        None => StoreError::Other,
    }
}

} // verus!
