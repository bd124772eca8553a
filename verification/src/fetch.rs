//! Fetch: the URL that encodes a fetch request, and the response keyed by
//! unique ids.

use vstd::prelude::*;
use vstd::string::StringExecFns;
use crate::models::{FetchRequest, Vector};

verus! {

/// The query parameters that a list of ids contributes to a fetch URL:
/// `?ids={first}` then `&ids={next}` for each further id, in order.
pub open spec fn spec_id_params(ids: Seq<Seq<char>>) -> Seq<char>
    decreases ids.len(),
{
    if ids.len() == 0 {
        Seq::empty()
    } else if ids.len() == 1 {
        "?ids="@ + ids[0]
    } else {
        spec_id_params(ids.drop_last()) + "&ids="@ + ids.last()
    }
}

/// The query parameter that a namespace contributes: nothing when there is
/// none; otherwise `?namespace={n}` when it opens the query string and
/// `&namespace={n}` when ids come before it.
pub open spec fn spec_namespace_param(n_ids: nat, namespace: Option<Seq<char>>) -> Seq<char> {
    match namespace {
        Some(n) => (if n_ids == 0 {
            "?namespace="@
        } else {
            "&namespace="@
        }) + n,
        None => Seq::empty(),
    }
}

/// The whole URL of a fetch: the index's data-plane URL, the fixed
/// `/vectors/fetch` path, and the ids and namespace as query parameters.
pub open spec fn spec_fetch_url(
    base: Seq<char>,
    ids: Seq<Seq<char>>,
    namespace: Option<Seq<char>>,
) -> Seq<char> {
    base + "/vectors/fetch"@ + spec_id_params(ids) + spec_namespace_param(ids.len(), namespace)
}

proof fn lemma_id_params_step(ids: Seq<Seq<char>>, i: int)
    requires
        0 <= i < ids.len(),
    ensures
        spec_id_params(ids.take(i + 1)) == spec_id_params(ids.take(i)) + (if i == 0 {
            "?ids="@
        } else {
            "&ids="@
        }) + ids[i],
{
    let t = ids.take(i + 1);
    assert(t.drop_last() =~= ids.take(i));
    assert(t.last() == ids[i]);
    if i == 0 {
        assert(spec_id_params(ids.take(0)) == Seq::<char>::empty());
        assert(spec_id_params(t) == "?ids="@ + t[0]);
        assert(spec_id_params(t) =~= Seq::<char>::empty() + "?ids="@ + ids[0]);
    } else {
        assert(spec_id_params(t) == spec_id_params(t.drop_last()) + "&ids="@ + t.last());
    }
}

impl FetchRequest {
    /// Builds the whole URL the fetch is sent to, from the index's
    /// data-plane URL: `{base}/vectors/fetch`, followed by each id as an
    /// `ids` query parameter in order, followed by the namespace, where
    /// there is one, as a `namespace` query parameter.
    pub fn url(&self, base: String) -> (r: String)
        ensures
            r@ == spec_fetch_url(
                base@,
                self.ids.deep_view(),
                (match self.namespace {
                    Some(n) => Some(n@),
                    None => None::<Seq<char>>,
                }),
            ),
    {
        let ghost base0 = base@;
        let ghost idsv = self.ids.deep_view();
        let mut s = base;
        s.append("/vectors/fetch");
        proof {
            assert(idsv.take(0) =~= Seq::<Seq<char>>::empty());
            assert(s@ =~= base0 + "/vectors/fetch"@ + spec_id_params(idsv.take(0)));
        }
        let mut i: usize = 0;
        while i < self.ids.len()
            invariant
                i <= self.ids@.len(),
                idsv == self.ids.deep_view(),
                idsv.len() == self.ids@.len(),
                s@ == base0 + "/vectors/fetch"@ + spec_id_params(idsv.take(i as int)),
            decreases self.ids@.len() - i,
        {
            if i == 0 {
                s.append("?ids=");
            } else {
                s.append("&ids=");
            }
            s.append(self.ids[i].as_str());
            proof {
                lemma_id_params_step(idsv, i as int);
                assert(idsv[i as int] == self.ids@[i as int]@);
                assert(s@ =~= base0 + "/vectors/fetch"@ + spec_id_params(idsv.take(i + 1 as int)));
            }
            i = i + 1;
        }
        proof {
            assert(idsv.take(self.ids@.len() as int) =~= idsv);
        }
        match &self.namespace {
            Some(n) => {
                if self.ids.len() == 0 {
                    s.append("?namespace=");
                } else {
                    s.append("&namespace=");
                }
                s.append(n.as_str());
                proof {
                    assert(s@ =~= spec_fetch_url(base0, idsv, Some(n@)));
                }
            },
            None => {
                proof {
                    assert(s@ =~= spec_fetch_url(base0, idsv, None::<Seq<char>>));
                }
            },
        }
        s
    }
}

/// One entry of a fetch response: an id and the vector stored under it.
#[derive(Debug, Clone, PartialEq)]
pub struct FetchEntry {
    pub id: String,
    pub vector: Vector,
}

/// What `fetch` returns: the vectors of one namespace, keyed by unique
/// ids. However often an id was asked for, it appears at most once here:
/// [`FetchResponse::insert`] keeps the ids pairwise distinct.
#[derive(Debug, Clone, PartialEq)]
pub struct FetchResponse {
    pub vectors: Vec<FetchEntry>,
    pub namespace: String,
}

/// The ids of an entry sequence are pairwise distinct.
pub open spec fn spec_entries_distinct(s: Seq<FetchEntry>) -> bool {
    forall|i: int, j: int| 0 <= i < j < s.len() ==> s[i].id@ != s[j].id@
}

/// Whether some entry of a sequence carries this id.
pub open spec fn spec_entries_contain(s: Seq<FetchEntry>, k: Seq<char>) -> bool {
    exists|i: int| 0 <= i < s.len() && s[i].id@ == k
}

/// The vector an entry sequence stores under an id, where there is one.
/// Well-defined on a distinct sequence, since at most one entry carries
/// the id.
pub open spec fn spec_entries_get(s: Seq<FetchEntry>, k: Seq<char>) -> Option<Vector> {
    if spec_entries_contain(s, k) {
        let i = choose|i: int| 0 <= i < s.len() && s[i].id@ == k;
        Some(s[i].vector)
    } else {
        None
    }
}

proof fn lemma_entries_choose(s: Seq<FetchEntry>, k: Seq<char>, i: int)
    requires
        spec_entries_distinct(s),
        0 <= i < s.len(),
        s[i].id@ == k,
    ensures
        spec_entries_contain(s, k),
        spec_entries_get(s, k) == Some(s[i].vector),
{
    assert(0 <= i < s.len() && s[i].id@ == k);
    let j = choose|j: int| 0 <= j < s.len() && s[j].id@ == k;
    if j < i {
        assert(s[j].id@ != s[i].id@);
    } else if i < j {
        assert(s[i].id@ != s[j].id@);
    }
}

impl FetchResponse {
    /// The ids are pairwise distinct: the response is keyed by unique ids.
    pub open spec fn wf(self) -> bool {
        spec_entries_distinct(self.vectors@)
    }

    /// Whether some entry carries this id.
    pub open spec fn spec_contains(self, id: Seq<char>) -> bool {
        spec_entries_contain(self.vectors@, id)
    }

    /// The vector stored under an id, where there is one. Well-defined on
    /// a well-formed response, since at most one entry carries the id.
    pub open spec fn spec_get(self, id: Seq<char>) -> Option<Vector> {
        spec_entries_get(self.vectors@, id)
    }

    /// An empty response for a namespace.
    pub fn new(namespace: String) -> (r: FetchResponse)
        ensures
            r.wf(),
            r.vectors@.len() == 0,
            r.namespace == namespace,
    {
        FetchResponse { vectors: Vec::new(), namespace }
    }

    /// How many distinct ids the response holds.
    pub fn len(&self) -> (r: usize)
        ensures
            r == self.vectors@.len(),
    {
        self.vectors.len()
    }

    fn position_of(&self, id: &String) -> (r: Option<usize>)
        ensures
            match r {
                Some(p) => p < self.vectors@.len() && self.vectors@[p as int].id@ == id@,
                None => forall|i: int|
                    0 <= i < self.vectors@.len() ==> self.vectors@[i].id@ != id@,
            },
    {
        let mut i: usize = 0;
        while i < self.vectors.len()
            invariant
                i <= self.vectors@.len(),
                forall|j: int| 0 <= j < i ==> self.vectors@[j].id@ != id@,
            decreases self.vectors@.len() - i,
        {
            if self.vectors[i].id == *id {
                return Some(i);
            }
            i = i + 1;
        }
        None
    }

    /// Stores a vector under an id. A duplicate id never makes a second
    /// entry: an id already present has its vector replaced, so the
    /// response stays keyed by unique ids, and every other id keeps the
    /// vector it had.
    pub fn insert(&mut self, id: String, vector: Vector)
        requires
            old(self).wf(),
        ensures
            final(self).wf(),
            final(self).namespace == old(self).namespace,
            forall|k: Seq<char>|
                final(self).spec_contains(k) <==> (old(self).spec_contains(k) || k == id@),
            final(self).spec_get(id@) == Some(vector),
            forall|k: Seq<char>|
                k != id@ ==> final(self).spec_get(k) == old(self).spec_get(k),
    {
        let ghost s0 = self.vectors@;
        let pos = self.position_of(&id);
        let entry = FetchEntry { id, vector };
        let ghost e = entry;
        match pos {
            Some(p) => {
                self.vectors.remove(p);
                self.vectors.push(entry);
                proof {
                    lemma_insert_replaced(s0, self.vectors@, e, p as int);
                }
            },
            None => {
                self.vectors.push(entry);
                proof {
                    lemma_insert_fresh(s0, self.vectors@, e);
                }
            },
        }
        proof {
            lemma_entries_choose(self.vectors@, e.id@, self.vectors@.len() - 1);
        }
    }

    /// Looks an id up.
    pub fn get(&self, id: &String) -> (r: Option<&Vector>)
        requires
            self.wf(),
        ensures
            match r {
                Some(v) => self.spec_get(id@) == Some(*v),
                None => !self.spec_contains(id@) && self.spec_get(id@) is None,
            },
    {
        let pos = self.position_of(id);
        match pos {
            Some(p) => {
                proof {
                    lemma_entries_choose(self.vectors@, id@, p as int);
                }
                Some(&self.vectors[p].vector)
            },
            None => None,
        }
    }
}

/// A well-formed fetch response is keyed by unique ids: two entries that
/// carry the same id are one and the same entry, however many times the
/// id was asked for. `new` establishes well-formedness and `insert`
/// preserves it, so every response built through them satisfies this.
pub proof fn lemma_fetch_response_unique_ids(r: FetchResponse, i: int, j: int)
    requires
        r.wf(),
        0 <= i < r.vectors@.len(),
        0 <= j < r.vectors@.len(),
        r.vectors@[i].id@ == r.vectors@[j].id@,
    ensures
        i == j,
{
    if i < j {
        assert(r.vectors@[i].id@ != r.vectors@[j].id@);
    } else if j < i {
        assert(r.vectors@[j].id@ != r.vectors@[i].id@);
    }
}

/// After removing the one old entry of `e.id` at `p` and pushing `e`, the
/// entries still have pairwise distinct ids, the ids are the old ids plus
/// `e.id`, and every other id keeps the vector it had.
proof fn lemma_insert_replaced(s0: Seq<FetchEntry>, s1: Seq<FetchEntry>, e: FetchEntry, p: int)
    requires
        spec_entries_distinct(s0),
        0 <= p < s0.len(),
        s0[p].id@ == e.id@,
        s1 == s0.remove(p).push(e),
    ensures
        spec_entries_distinct(s1),
        s1.len() == s0.len(),
        s1.len() >= 1,
        s1[s1.len() - 1] == e,
        forall|k: Seq<char>|
            spec_entries_contain(s1, k) <==> (spec_entries_contain(s0, k) || k == e.id@),
        forall|k: Seq<char>|
            k != e.id@ ==> spec_entries_get(s1, k) == spec_entries_get(s0, k),
{
    let r = s0.remove(p);
    s0.remove_ensures(p);
    assert(s1.len() == s0.len());
    assert(s1[s1.len() - 1] == e);
    // every position but the last of s1 holds a surviving old entry
    assert forall|j: int| 0 <= j < s1.len() - 1 implies s1[j] == (if j < p {
        s0[j]
    } else {
        s0[j + 1]
    }) by {
        assert(s1[j] == r[j]);
    }
    assert forall|a: int, b: int| 0 <= a < b < s1.len() implies s1[a].id@ != s1[b].id@ by {
        let oa = if a < p { a } else { a + 1 };
        assert(s1[a] == s0[oa]);
        if b == s1.len() - 1 {
            // s1[b] is e, and p was the only old position carrying e.id
            assert(oa != p);
            if oa < p {
                assert(s0[oa].id@ != s0[p].id@);
            } else {
                assert(s0[p].id@ != s0[oa].id@);
            }
        } else {
            let ob = if b < p { b } else { b + 1 };
            assert(s1[b] == s0[ob]);
            assert(oa < ob);
        }
    }
    assert forall|k: Seq<char>|
        spec_entries_contain(s1, k) <==> (spec_entries_contain(s0, k) || k == e.id@) by {
        if spec_entries_contain(s1, k) {
            let j = choose|j: int| 0 <= j < s1.len() && s1[j].id@ == k;
            if j == s1.len() - 1 {
                assert(s0[p].id@ == k);
            } else {
                let oj = if j < p { j } else { j + 1 };
                assert(s0[oj].id@ == k);
            }
        }
        if spec_entries_contain(s0, k) {
            let i = choose|i: int| 0 <= i < s0.len() && s0[i].id@ == k;
            if i == p {
                assert(s1[s1.len() - 1].id@ == k);
            } else {
                let j = if i < p { i } else { i - 1 };
                assert(s1[j] == s0[i]);
                assert(s1[j].id@ == k);
            }
        }
        if k == e.id@ {
            assert(s0[p].id@ == k);
        }
    }
    assert forall|k: Seq<char>| k != e.id@ implies spec_entries_get(s1, k) == spec_entries_get(
        s0,
        k,
    ) by {
        if spec_entries_contain(s0, k) {
            let i = choose|i: int| 0 <= i < s0.len() && s0[i].id@ == k;
            assert(i != p);
            let j = if i < p { i } else { i - 1 };
            assert(s1[j] == s0[i]);
            lemma_entries_choose(s0, k, i);
            lemma_entries_choose(s1, k, j);
        } else {
            assert(!spec_entries_contain(s1, k));
        }
    }
}

/// Pushing an entry whose id is fresh keeps the ids pairwise distinct,
/// adds exactly that id, and keeps every old id's vector.
proof fn lemma_insert_fresh(s0: Seq<FetchEntry>, s1: Seq<FetchEntry>, e: FetchEntry)
    requires
        spec_entries_distinct(s0),
        forall|i: int| 0 <= i < s0.len() ==> s0[i].id@ != e.id@,
        s1 == s0.push(e),
    ensures
        spec_entries_distinct(s1),
        s1.len() == s0.len() + 1,
        s1[s1.len() - 1] == e,
        forall|k: Seq<char>|
            spec_entries_contain(s1, k) <==> (spec_entries_contain(s0, k) || k == e.id@),
        forall|k: Seq<char>|
            k != e.id@ ==> spec_entries_get(s1, k) == spec_entries_get(s0, k),
{
    assert forall|a: int, b: int| 0 <= a < b < s1.len() implies s1[a].id@ != s1[b].id@ by {
        assert(s1[a] == s0[a]);
        if b == s1.len() - 1 {
            assert(s1[b] == e);
        } else {
            assert(s1[b] == s0[b]);
        }
    }
    assert forall|k: Seq<char>|
        spec_entries_contain(s1, k) <==> (spec_entries_contain(s0, k) || k == e.id@) by {
        if spec_entries_contain(s1, k) {
            let j = choose|j: int| 0 <= j < s1.len() && s1[j].id@ == k;
            if j < s1.len() - 1 {
                assert(s0[j].id@ == k);
            }
        }
        if spec_entries_contain(s0, k) {
            let i = choose|i: int| 0 <= i < s0.len() && s0[i].id@ == k;
            assert(s1[i].id@ == k);
        }
        if k == e.id@ {
            assert(s1[s1.len() - 1].id@ == k);
        }
    }
    assert forall|k: Seq<char>| k != e.id@ implies spec_entries_get(s1, k) == spec_entries_get(
        s0,
        k,
    ) by {
        if spec_entries_contain(s0, k) {
            let i = choose|i: int| 0 <= i < s0.len() && s0[i].id@ == k;
            assert(s1[i] == s0[i]);
            lemma_entries_choose(s0, k, i);
            lemma_entries_choose(s1, k, i);
        } else {
            assert(!spec_entries_contain(s1, k));
        }
    }
}

} // verus!
