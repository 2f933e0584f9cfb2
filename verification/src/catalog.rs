//! The engine's catalog: a registry binding dataset names to their sources,
//! together with the query text each read-only operation runs. Names are
//! unique; registering an existing name rebinds it. Reading operations check
//! registration and otherwise only build query text — executing it is the
//! engine's business.

use vstd::prelude::*;

use crate::conn::DataSetConn;
use crate::errors::EngineError;
use crate::text::{dec_str, str_eq, usize_to_string};

verus! {

/// One catalog entry: a dataset name bound to a registered source.
#[derive(Debug)]
pub struct Dataset {
    pub name: String,
    pub conn: DataSetConn,
}

/// Catalog well-formedness: dataset names are unique keys.
pub open spec fn catalog_wf(entries: Seq<Dataset>) -> bool {
    forall|i: int, j: int|
        0 <= i < j < entries.len() ==> entries[i].name@ != entries[j].name@
}

/// Whether some entry is registered under `name`.
pub open spec fn contains_name(entries: Seq<Dataset>, name: Seq<char>) -> bool {
    exists|i: int| 0 <= i < entries.len() && entries[i].name@ == name
}

/// The source registered under `name`, if any: the first binding wins, and
/// under `catalog_wf` it is the only one.
pub open spec fn lookup(entries: Seq<Dataset>, name: Seq<char>) -> Option<DataSetConn>
    decreases entries.len(),
{
    if entries.len() == 0 {
        None
    } else if entries[0].name@ == name {
        Some(entries[0].conn)
    } else {
        lookup(entries.drop_first(), name)
    }
}

/// An entry registered at a known position determines the lookup.
pub proof fn lemma_lookup_found(entries: Seq<Dataset>, name: Seq<char>, i: int)
    requires
        catalog_wf(entries),
        0 <= i < entries.len(),
        entries[i].name@ == name,
    ensures
        lookup(entries, name) == Some(entries[i].conn),
    decreases entries.len(),
{
    if i == 0 {
    } else {
        assert(entries[0].name@ != name);
        assert(catalog_wf(entries.drop_first())) by {
            assert forall|a: int, b: int|
                0 <= a < b < entries.drop_first().len() implies entries.drop_first()[a].name@
                != entries.drop_first()[b].name@ by {
                assert(entries.drop_first()[a] == entries[a + 1]);
                assert(entries.drop_first()[b] == entries[b + 1]);
            }
        }
        assert(entries.drop_first()[i - 1] == entries[i]);
        lemma_lookup_found(entries.drop_first(), name, i - 1);
    }
}

/// A name with no entry has no lookup.
pub proof fn lemma_lookup_absent(entries: Seq<Dataset>, name: Seq<char>)
    requires
        forall|i: int| 0 <= i < entries.len() ==> entries[i].name@ != name,
    ensures
        lookup(entries, name) is None,
    decreases entries.len(),
{
    if entries.len() > 0 {
        assert forall|i: int|
            0 <= i < entries.drop_first().len() implies entries.drop_first()[i].name@ != name by {
            assert(entries.drop_first()[i] == entries[i + 1]);
        }
        lemma_lookup_absent(entries.drop_first(), name);
    }
}

/// The catalog after registering `d`: an existing binding of the same name
/// is removed and the new entry appended; a fresh name is appended.
pub open spec fn entries_upsert(entries: Seq<Dataset>, d: Dataset) -> Seq<Dataset> {
    if contains_name(entries, d.name@) {
        entries.remove(
            choose|i: int| 0 <= i < entries.len() && entries[i].name@ == d.name@,
        ).push(d)
    } else {
        entries.push(d)
    }
}

/// The registry of datasets, owned by the engine for the process lifetime.
#[derive(Debug)]
pub struct Catalog {
    pub entries: Vec<Dataset>,
}

impl Catalog {
    /// An empty catalog.
    pub fn new() -> (r: Catalog)
        ensures
            r.entries@ =~= Seq::<Dataset>::empty(),
            catalog_wf(r.entries@),
    {
        Catalog { entries: Vec::new() }
    }

    /// Whether `name` is registered.
    pub fn contains(&self, name: &str) -> (r: bool)
        ensures
            r == contains_name(self.entries@, name@),
    {
        let mut i: usize = 0;
        while i < self.entries.len()
            invariant
                i <= self.entries@.len(),
                forall|j: int| 0 <= j < i ==> self.entries@[j].name@ != name@,
            decreases self.entries@.len() - i,
        {
            if str_eq(self.entries[i].name.as_str(), name) {
                return true;
            }
            i += 1;
        }
        false
    }

    /// Registers `name` as bound to `conn`: a new name gains an independent
    /// entry, an existing name is rebound, and every other binding is kept.
    pub fn register(&mut self, name: String, conn: DataSetConn)
        requires
            catalog_wf(old(self).entries@),
        ensures
            catalog_wf(final(self).entries@),
            lookup(final(self).entries@, name@) == Some(conn),
            forall|other: Seq<char>|
                other != name@ ==> #[trigger] lookup(final(self).entries@, other) == lookup(
                    old(self).entries@,
                    other,
                ),
            contains_name(final(self).entries@, name@),
            forall|other: Seq<char>|
                other != name@ ==> (#[trigger] contains_name(final(self).entries@, other)
                    == contains_name(old(self).entries@, other)),
            final(self).entries@ == entries_upsert(old(self).entries@, Dataset { name, conn }),
    {
        let ghost pre = self.entries@;
        let mut i: usize = 0;
        let mut found: Option<usize> = None;
        while i < self.entries.len()
            invariant
                i <= self.entries@.len(),
                self.entries@ == pre,
                match found {
                    Some(k) => k < pre.len() && pre[k as int].name@ == name@,
                    None => forall|j: int| 0 <= j < i ==> pre[j].name@ != name@,
                },
            decreases self.entries@.len() - i,
        {
            if found.is_none() && str_eq(self.entries[i].name.as_str(), name.as_str()) {
                found = Some(i);
            }
            i += 1;
        }
        match found {
            Some(k) => {
                let _replaced = self.entries.remove(k);
                self.entries.push(Dataset { name, conn });
                proof {
                    let post = self.entries@;
                    let d = post.last();
                    lemma_register_replaces(pre, post, k as int, d);
                    let i0 = choose|i: int| 0 <= i < pre.len() && pre[i].name@ == d.name@;
                    assert(i0 == k) by {
                        if i0 != k {
                            assert(pre[i0].name@ != pre[k as int].name@);
                        }
                    }
                    assert(post == entries_upsert(pre, d));
                }
            },
            None => {
                self.entries.push(Dataset { name, conn });
                proof {
                    let post = self.entries@;
                    let d = post.last();
                    lemma_register_appends(pre, post, d);
                    assert(!contains_name(pre, d.name@));
                    assert(post == entries_upsert(pre, d));
                }
            },
        }
    }

    /// The query text of the schema operation for `name`, or the unknown
    /// dataset error for an unregistered name.
    pub fn schema(&self, name: &str) -> (r: Result<String, EngineError>)
        ensures
            contains_name(self.entries@, name@) ==> (r matches Ok(s) && s@ == schema_query(name@)),
            !contains_name(self.entries@, name@) ==> (r matches Err(
                EngineError::UnknownDataset(m),
            ) && m@ == name@),
    {
        if self.contains(name) {
            Ok(schema_sql(name))
        } else {
            Err(EngineError::UnknownDataset(name.to_owned()))
        }
    }

    /// The query text fetching the first `n` rows of `name` — `n` of zero
    /// included, which yields a well-formed zero-row result — or the unknown
    /// dataset error for an unregistered name.
    pub fn head(&self, name: &str, n: usize) -> (r: Result<String, EngineError>)
        ensures
            contains_name(self.entries@, name@) ==> (r matches Ok(s) && s@ == head_query(
                name@,
                n as nat,
            )),
            !contains_name(self.entries@, name@) ==> (r matches Err(
                EngineError::UnknownDataset(m),
            ) && m@ == name@),
    {
        if self.contains(name) {
            Ok(head_sql(name, n))
        } else {
            Err(EngineError::UnknownDataset(name.to_owned()))
        }
    }

    /// The query text whose result the describe engine summarizes: the full
    /// scan of `name` — or the unknown dataset error for an unregistered
    /// name.
    pub fn describe_source(&self, name: &str) -> (r: Result<String, EngineError>)
        ensures
            contains_name(self.entries@, name@) ==> (r matches Ok(s) && s@ == select_star_query(
                name@,
            )),
            !contains_name(self.entries@, name@) ==> (r matches Err(
                EngineError::UnknownDataset(m),
            ) && m@ == name@),
    {
        if self.contains(name) {
            Ok(select_star_sql(name))
        } else {
            Err(EngineError::UnknownDataset(name.to_owned()))
        }
    }
}

/// After rebinding at position `k`, the new binding wins and all others are
/// kept.
proof fn lemma_register_replaces(pre: Seq<Dataset>, post: Seq<Dataset>, k: int, d: Dataset)
    requires
        catalog_wf(pre),
        0 <= k < pre.len(),
        pre[k].name@ == d.name@,
        post == pre.remove(k).push(d),
    ensures
        catalog_wf(post),
        lookup(post, d.name@) == Some(d.conn),
        forall|other: Seq<char>|
            other != d.name@ ==> #[trigger] lookup(post, other) == lookup(pre, other),
        contains_name(post, d.name@),
        forall|other: Seq<char>|
            other != d.name@ ==> (#[trigger] contains_name(post, other) == contains_name(
                pre,
                other,
            )),
{
    let name = d.name@;
    let mid = pre.remove(k);
    assert(catalog_wf(post)) by {
        assert forall|a: int, b: int|
            0 <= a < b < post.len() implies post[a].name@ != post[b].name@ by {
            if b < post.len() - 1 {
                remove_keeps_distinct(pre, k, a, b);
            } else {
                remove_avoids_name(pre, k, a, name);
            }
        }
    }
    assert(contains_name(post, name)) by {
        assert(post[post.len() - 1].name@ == name);
    }
    lemma_lookup_found(post, name, post.len() - 1);
    assert forall|other: Seq<char>| other != name implies #[trigger] lookup(post, other) == lookup(
        pre,
        other,
    ) by {
        lookup_after_replace(pre, post, k, d, other);
    }
    assert forall|other: Seq<char>| other != name implies (#[trigger] contains_name(post, other)
        == contains_name(pre, other)) by {
        if contains_name(post, other) {
            let i = choose|i: int| 0 <= i < post.len() && post[i].name@ == other;
            assert(i < post.len() - 1);
            if i < k {
                assert(pre[i].name@ == other);
            } else {
                assert(pre[i + 1].name@ == other);
            }
        }
        if contains_name(pre, other) {
            let i = choose|i: int| 0 <= i < pre.len() && pre[i].name@ == other;
            assert(i != k);
            if i < k {
                assert(post[i].name@ == other);
            } else {
                assert(post[i - 1].name@ == other);
            }
        }
    }
}

proof fn remove_keeps_distinct(pre: Seq<Dataset>, k: int, a: int, b: int)
    requires
        catalog_wf(pre),
        0 <= k < pre.len(),
        0 <= a < b < pre.len() - 1,
    ensures
        pre.remove(k)[a].name@ != pre.remove(k)[b].name@,
{
    let mid = pre.remove(k);
    if a < k {
        assert(mid[a] == pre[a]);
    } else {
        assert(mid[a] == pre[a + 1]);
    }
    if b < k {
        assert(mid[b] == pre[b]);
    } else {
        assert(mid[b] == pre[b + 1]);
    }
}

proof fn remove_avoids_name(pre: Seq<Dataset>, k: int, a: int, name: Seq<char>)
    requires
        catalog_wf(pre),
        0 <= k < pre.len(),
        pre[k].name@ == name,
        0 <= a < pre.len() - 1,
    ensures
        pre.remove(k)[a].name@ != name,
{
    let mid = pre.remove(k);
    if a < k {
        assert(mid[a] == pre[a]);
    } else {
        assert(mid[a] == pre[a + 1]);
    }
}

proof fn lookup_after_replace(
    pre: Seq<Dataset>,
    post: Seq<Dataset>,
    k: int,
    d: Dataset,
    other: Seq<char>,
)
    requires
        catalog_wf(pre),
        0 <= k < pre.len(),
        pre[k].name@ == d.name@,
        post == pre.remove(k).push(d),
        catalog_wf(post),
        other != d.name@,
    ensures
        lookup(post, other) == lookup(pre, other),
{
    if contains_name(pre, other) {
        let i = choose|i: int| 0 <= i < pre.len() && pre[i].name@ == other;
        lemma_lookup_found(pre, other, i);
        assert(i != k);
        if i < k {
            assert(post[i] == pre[i]);
            lemma_lookup_found(post, other, i);
        } else {
            assert(post[i - 1] == pre[i]);
            lemma_lookup_found(post, other, i - 1);
        }
    } else {
        lemma_lookup_absent(pre, other);
        assert forall|i: int| 0 <= i < post.len() implies post[i].name@ != other by {
            if i < post.len() - 1 {
                if i < k {
                    assert(post[i] == pre[i]);
                } else {
                    assert(post[i] == pre[i + 1]);
                }
            }
        }
        lemma_lookup_absent(post, other);
    }
}

/// After appending a fresh name, the new binding is found and all others are
/// kept.
proof fn lemma_register_appends(pre: Seq<Dataset>, post: Seq<Dataset>, d: Dataset)
    requires
        catalog_wf(pre),
        forall|j: int| 0 <= j < pre.len() ==> pre[j].name@ != d.name@,
        post == pre.push(d),
    ensures
        catalog_wf(post),
        lookup(post, d.name@) == Some(d.conn),
        forall|other: Seq<char>|
            other != d.name@ ==> #[trigger] lookup(post, other) == lookup(pre, other),
        contains_name(post, d.name@),
        forall|other: Seq<char>|
            other != d.name@ ==> (#[trigger] contains_name(post, other) == contains_name(
                pre,
                other,
            )),
{
    let name = d.name@;
    assert(catalog_wf(post)) by {
        assert forall|a: int, b: int|
            0 <= a < b < post.len() implies post[a].name@ != post[b].name@ by {
            if b < post.len() - 1 {
                assert(post[a] == pre[a]);
                assert(post[b] == pre[b]);
            } else {
                assert(post[a] == pre[a]);
            }
        }
    }
    assert(contains_name(post, name)) by {
        assert(post[post.len() - 1].name@ == name);
    }
    lemma_lookup_found(post, name, post.len() - 1);
    assert forall|other: Seq<char>| other != name implies #[trigger] lookup(post, other) == lookup(
        pre,
        other,
    ) by {
        if contains_name(pre, other) {
            let i = choose|i: int| 0 <= i < pre.len() && pre[i].name@ == other;
            lemma_lookup_found(pre, other, i);
            assert(post[i] == pre[i]);
            lemma_lookup_found(post, other, i);
        } else {
            lemma_lookup_absent(pre, other);
            assert forall|i: int| 0 <= i < post.len() implies post[i].name@ != other by {
                if i < post.len() - 1 {
                    assert(post[i] == pre[i]);
                }
            }
            lemma_lookup_absent(post, other);
        }
    }
    assert forall|other: Seq<char>| other != name implies (#[trigger] contains_name(post, other)
        == contains_name(pre, other)) by {
        if contains_name(post, other) {
            let i = choose|i: int| 0 <= i < post.len() && post[i].name@ == other;
            assert(i < post.len() - 1);
            assert(pre[i].name@ == other);
        }
        if contains_name(pre, other) {
            let i = choose|i: int| 0 <= i < pre.len() && pre[i].name@ == other;
            assert(post[i].name@ == other);
        }
    }
}

/// Registering one source under two different names yields two independent
/// catalog entries bound to that same source: afterwards both names resolve
/// to it, so the schema either name's entry reports is the schema of that
/// one source.
pub proof fn lemma_register_round_trip(pre: Seq<Dataset>, d1: Dataset, d2: Dataset)
    requires
        catalog_wf(pre),
        d1.name@ != d2.name@,
        d1.conn == d2.conn,
    ensures
        lookup(entries_upsert(entries_upsert(pre, d1), d2), d1.name@) == Some(d1.conn),
        lookup(entries_upsert(entries_upsert(pre, d1), d2), d2.name@) == Some(d1.conn),
{
    let mid = entries_upsert(pre, d1);
    lemma_upsert(pre, d1);
    lemma_upsert(mid, d2);
}

/// What one registration does to the catalog, at the level of `lookup`:
/// the registered name resolves to the new source and every other name as
/// before; name uniqueness is kept.
pub proof fn lemma_upsert(pre: Seq<Dataset>, d: Dataset)
    requires
        catalog_wf(pre),
    ensures
        catalog_wf(entries_upsert(pre, d)),
        lookup(entries_upsert(pre, d), d.name@) == Some(d.conn),
        forall|other: Seq<char>|
            other != d.name@ ==> #[trigger] lookup(entries_upsert(pre, d), other) == lookup(
                pre,
                other,
            ),
{
    let post = entries_upsert(pre, d);
    if contains_name(pre, d.name@) {
        let k = choose|i: int| 0 <= i < pre.len() && pre[i].name@ == d.name@;
        lemma_register_replaces(pre, post, k, d);
    } else {
        lemma_register_appends(pre, post, d);
    }
}

/// The fixed metadata query listing registered datasets with their kinds.
pub open spec fn list_query() -> Seq<char> {
    "select table_name,table_type from information_schema.tables where table_schema = 'public'"@
}

pub fn list_sql() -> (r: String)
    ensures
        r@ == list_query(),
{
    String::from_str(
        "select table_name,table_type from information_schema.tables where table_schema = 'public'",
    )
}

/// The query text reporting the column list and types of `name`.
pub open spec fn schema_query(name: Seq<char>) -> Seq<char> {
    "DESCRIBE "@ + name
}

pub fn schema_sql(name: &str) -> (r: String)
    ensures
        r@ == schema_query(name@),
{
    String::from_str("DESCRIBE ").concat(name)
}

/// The query text fetching the first `n` rows of `name` by a scan limit.
pub open spec fn head_query(name: Seq<char>, n: nat) -> Seq<char> {
    "SELECT * FROM "@ + name + " LIMIT "@ + dec_str(n)
}

pub fn head_sql(name: &str, n: usize) -> (r: String)
    ensures
        r@ == head_query(name@, n as nat),
{
    String::from_str("SELECT * FROM ").concat(name).concat(" LIMIT ").concat(
        usize_to_string(n).as_str(),
    )
}

/// The full scan of `name`.
pub open spec fn select_star_query(name: Seq<char>) -> Seq<char> {
    "select * from "@ + name
}

pub fn select_star_sql(name: &str) -> (r: String)
    ensures
        r@ == select_star_query(name@),
{
    String::from_str("select * from ").concat(name)
}

/// The confirmation reply of a successful registration.
pub open spec fn connected_text(name: Seq<char>) -> Seq<char> {
    "Connected to dataset: "@ + name
}

pub fn connect_reply(name: &str) -> (r: String)
    ensures
        r@ == connected_text(name@),
{
    String::from_str("Connected to dataset: ").concat(name)
}

} // verus!
