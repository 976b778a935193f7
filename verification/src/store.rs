//! A verified reference model of the vector store's collection and search
//! contracts.
//!
//! The remote store lives behind the network edge; this model states, and
//! implements in memory, exactly the behaviour the pipeline relies on:
//! collections are created explicitly and never implicitly, creating a name
//! twice is a conflict, deleting an absent name is not-found, every vector in
//! a collection has the collection's vector size, and a search returns at
//! most `top_k` results ranked by non-increasing score. The model does not
//! compute distances — scores are floating point at the edge — so each
//! stored point carries the score the store would report for it, which is
//! also how a test configures a double of the store.

use vstd::prelude::*;

use crate::errors::StoreError;
use crate::model::{
    payload_views, result_views, DistanceMetric, EmbeddingVector, PayloadEntry, PayloadFilter,
    ResultView, SearchResult,
};

verus! {

/// One point of a collection: an identifier, the stored vector in the
/// boundary's fixed-point encoding, the score the store reports for it, and
/// the payload's entries.
#[derive(Debug)]
pub struct StoredPoint {
    pub point_id: String,
    pub vector: Vec<i64>,
    pub score: i64,
    pub payload: Vec<PayloadEntry>,
}

/// The mathematical value of one stored point.
#[verifier::ext_equal]
pub struct PointView {
    pub point_id: Seq<char>,
    pub vector: Seq<i64>,
    pub score: int,
    pub payload: Seq<(Seq<char>, Seq<char>)>,
}

impl View for StoredPoint {
    type V = PointView;

    open spec fn view(&self) -> PointView {
        PointView {
            point_id: self.point_id@,
            vector: self.vector@,
            score: self.score as int,
            payload: payload_views(self.payload@),
        }
    }
}

/// A named collection: a fixed vector size, a distance metric, and the
/// points stored in it.
#[derive(Debug)]
pub struct CollectionRecord {
    pub name: String,
    pub vector_size: usize,
    pub metric: DistanceMetric,
    pub points: Vec<StoredPoint>,
}

/// The mathematical value of one collection.
#[verifier::ext_equal]
pub struct CollectionView {
    pub name: Seq<char>,
    pub vector_size: int,
    pub metric: DistanceMetric,
    pub points: Seq<PointView>,
}

impl View for CollectionRecord {
    type V = CollectionView;

    open spec fn view(&self) -> CollectionView {
        CollectionView {
            name: self.name@,
            vector_size: self.vector_size as int,
            metric: self.metric,
            points: self.points@.map_values(|p: StoredPoint| p@),
        }
    }
}

/// Whether some collection of `s` is named `name`.
pub open spec fn has_collection(s: Seq<CollectionView>, name: Seq<char>) -> bool {
    exists|i: int| 0 <= i < s.len() && s[i].name == name
}

/// The index of the collection named `name` (meaningful when names are
/// distinct and `has_collection` holds).
pub open spec fn index_of_name(s: Seq<CollectionView>, name: Seq<char>) -> int {
    choose|i: int| 0 <= i < s.len() && s[i].name == name
}

/// The collection named `name`.
pub open spec fn collection_named(s: Seq<CollectionView>, name: Seq<char>) -> CollectionView {
    s[index_of_name(s, name)]
}

/// No two collections share a name.
pub open spec fn names_distinct(s: Seq<CollectionView>) -> bool {
    forall|i: int, j: int| #![trigger s[i], s[j]] 0 <= i < j < s.len() ==> s[i].name != s[j].name
}

/// Every vector stored in a collection has the collection's vector size.
pub open spec fn dims_consistent(s: Seq<CollectionView>) -> bool {
    forall|i: int, j: int| #![trigger s[i].points[j]]
        0 <= i < s.len() && 0 <= j < s[i].points.len()
            ==> s[i].points[j].vector.len() == s[i].vector_size
}

/// Well-formedness of a store: distinct collection names and consistent
/// vector dimensions.
pub open spec fn store_wf(s: Seq<CollectionView>) -> bool {
    names_distinct(s) && dims_consistent(s)
}

/// The search result the store reports for one stored point.
pub open spec fn result_of(p: PointView) -> ResultView {
    ResultView { point_id: p.point_id, score: p.score, payload: p.payload }
}

/// Whether a payload holds `field` with `value`.
pub open spec fn payload_has(
    payload: Seq<(Seq<char>, Seq<char>)>,
    field: Seq<char>,
    value: Seq<char>,
) -> bool {
    exists|i: int| 0 <= i < payload.len() && payload[i].0 == field && payload[i].1 == value
}

/// The mathematical value of an optional filter.
pub open spec fn filter_view(f: Option<&PayloadFilter>) -> Option<(Seq<char>, Seq<char>)> {
    match f {
        Option::Some(pf) => Option::Some((pf.field@, pf.value@)),
        Option::None => Option::None,
    }
}

/// Whether a point qualifies under an optional filter: with no filter every
/// point does; with one, only points whose payload holds the filter's field
/// with its value.
pub open spec fn point_selected(p: PointView, f: Option<(Seq<char>, Seq<char>)>) -> bool {
    match f {
        Option::None => true,
        Option::Some(fv) => payload_has(p.payload, fv.0, fv.1),
    }
}

/// The candidates of a search: the points an optional filter keeps, in
/// storage order. The filter restricts candidates before ranking.
pub open spec fn candidate_points(
    points: Seq<PointView>,
    f: Option<(Seq<char>, Seq<char>)>,
) -> Seq<PointView> {
    match f {
        Option::None => points,
        Option::Some(fv) => points.filter(|p: PointView| payload_has(p.payload, fv.0, fv.1)),
    }
}

/// The results the store reports for the candidates of a search.
pub open spec fn candidate_results(
    points: Seq<PointView>,
    f: Option<(Seq<char>, Seq<char>)>,
) -> Seq<ResultView> {
    candidate_points(points, f).map_values(|p: PointView| result_of(p))
}

/// The results of every point of a collection, in storage order.
pub open spec fn collection_results(c: CollectionView) -> Seq<ResultView> {
    candidate_results(c.points, Option::None)
}

/// Why a search of `s` for a query of `dim` components against `name` fails,
/// if it fails: an absent collection is not-found, a query whose length is
/// not the collection's vector size is a dimension mismatch — never silently
/// truncated or padded — and otherwise the search succeeds.
pub open spec fn search_error(s: Seq<CollectionView>, name: Seq<char>, dim: int) -> Option<StoreError> {
    if !has_collection(s, name) {
        Option::Some(StoreError::NotFound)
    } else if collection_named(s, name).vector_size != dim {
        Option::Some(StoreError::DimensionMismatch)
    } else {
        Option::None
    }
}

/// Scores never increase along the sequence.
pub open spec fn sorted_desc(s: Seq<ResultView>) -> bool {
    forall|i: int, j: int| #![trigger s[i], s[j]] 0 <= i <= j < s.len() ==> s[i].score >= s[j].score
}

/// `out` is the first `k` results (all of them, when fewer) of some ranking
/// of `all` by non-increasing score.
pub open spec fn ranked_prefix(all: Seq<ResultView>, out: Seq<ResultView>, k: int) -> bool {
    exists|full: Seq<ResultView>|
        {
            &&& full.to_multiset() == all.to_multiset()
            &&& sorted_desc(full)
            &&& out == full.take(vstd::math::min(k, all.len() as int))
        }
}

/// The in-memory store: a sequence of collections with distinct names.
#[derive(Debug)]
pub struct MemoryStore {
    pub collections: Vec<CollectionRecord>,
}

impl View for MemoryStore {
    type V = Seq<CollectionView>;

    open spec fn view(&self) -> Seq<CollectionView> {
        self.collections@.map_values(|c: CollectionRecord| c@)
    }
}

impl MemoryStore {
    /// Well-formedness: established by `new`, preserved by every operation.
    pub open spec fn wf(self) -> bool {
        store_wf(self@)
    }

    /// An empty store.
    pub fn new() -> (s: MemoryStore)
        ensures
            s.wf(),
            s@.len() == 0,
    {
        MemoryStore { collections: Vec::new() }
    }

    /// The index of the collection named `name`, if one exists.
    fn find_index(&self, name: &String) -> (r: Option<usize>)
        ensures
            match r {
                Option::Some(i) => i < self@.len() && self@[i as int].name == name@,
                Option::None => !has_collection(self@, name@),
            },
    {
        let mut i: usize = 0;
        while i < self.collections.len()
            invariant
                i <= self@.len(),
                self@.len() == self.collections@.len(),
                forall|j: int| 0 <= j < i ==> self@[j].name != name@,
            decreases self@.len() - i,
        {
            if self.collections[i].name == *name {
                assert(self@[i as int].name == name@);
                return Option::Some(i);
            }
            i = i + 1;
        }
        Option::None
    }

    /// Create a collection. Creation is explicit and never idempotent: a
    /// second creation under the same name surfaces the store's own conflict
    /// error and changes nothing.
    pub fn create_collection(
        &mut self,
        name: String,
        vector_size: usize,
        metric: DistanceMetric,
    ) -> (r: Result<(), StoreError>)
        requires
            old(self).wf(),
            vector_size >= 1,
        ensures
            final(self).wf(),
            has_collection(old(self)@, name@) ==> r == Err::<(), StoreError>(StoreError::AlreadyExists)
                && final(self)@ == old(self)@,
            !has_collection(old(self)@, name@) ==> r == Ok::<(), StoreError>(())
                && final(self)@ == old(self)@.push(
                    (CollectionView {
                        name: name@,
                        vector_size: vector_size as int,
                        metric,
                        points: Seq::empty(),
                    }),
                ),
    {
        match self.find_index(&name) {
            Option::Some(_) => Err(StoreError::AlreadyExists),
            Option::None => {
                let record = CollectionRecord { name, vector_size, metric, points: Vec::new() };
                let ghost target = old(self)@.push(
                    CollectionView {
                        name: record.name@,
                        vector_size: vector_size as int,
                        metric,
                        points: Seq::empty(),
                    },
                );
                self.collections.push(record);
                proof {
                    assert(self@ =~~= target);
                }
                Ok(())
            },
        }
    }

    /// Delete a collection. Deleting a name that was never created (or is
    /// already gone) surfaces the store's not-found error, never success.
    pub fn delete_collection(&mut self, name: &String) -> (r: Result<(), StoreError>)
        requires
            old(self).wf(),
        ensures
            final(self).wf(),
            !has_collection(old(self)@, name@) ==> r == Err::<(), StoreError>(StoreError::NotFound)
                && final(self)@ == old(self)@,
            has_collection(old(self)@, name@) ==> r == Ok::<(), StoreError>(())
                && final(self)@ == old(self)@.remove(index_of_name(old(self)@, name@)),
    {
        match self.find_index(name) {
            Option::None => Err(StoreError::NotFound),
            Option::Some(i) => {
                let ghost pre = self@;
                self.collections.remove(i);
                proof {
                    assert(self@ =~~= pre.remove(i as int));
                    assert(index_of_name(pre, name@) == i as int) by {
                        let w = index_of_name(pre, name@);
                        assert(0 <= w < pre.len() && pre[w].name == name@);
                    }
                    lemma_store_wf_remove(pre, i as int);
                }
                Ok(())
            },
        }
    }

    /// Store one point in a collection. The point's vector must have the
    /// collection's vector size; a mismatch surfaces the store's dimension
    /// error and stores nothing.
    pub fn insert_point(&mut self, name: &String, point: StoredPoint) -> (r: Result<(), StoreError>)
        requires
            old(self).wf(),
        ensures
            final(self).wf(),
            !has_collection(old(self)@, name@) ==> r == Err::<(), StoreError>(StoreError::NotFound)
                && final(self)@ == old(self)@,
            has_collection(old(self)@, name@)
                && point.vector@.len() != collection_named(old(self)@, name@).vector_size ==> r
                == Err::<(), StoreError>(StoreError::DimensionMismatch) && final(self)@ == old(self)@,
            has_collection(old(self)@, name@)
                && point.vector@.len() == collection_named(old(self)@, name@).vector_size ==> r
                == Ok::<(), StoreError>(()) && final(self)@ == old(self)@.update(
                index_of_name(old(self)@, name@),
                (CollectionView {
                    points: collection_named(old(self)@, name@).points.push(point@),
                    ..collection_named(old(self)@, name@)
                }),
            ),
    {
        match self.find_index(name) {
            Option::None => Err(StoreError::NotFound),
            Option::Some(i) => {
                let ghost pre = self@;
                proof {
                    assert(index_of_name(pre, name@) == i as int) by {
                        let w = index_of_name(pre, name@);
                        assert(0 <= w < pre.len() && pre[w].name == name@);
                        if w != i as int {
                            assert(pre[w].name != pre[i as int].name);
                        }
                    }
                }
                if point.vector.len() != self.collections[i].vector_size {
                    Err(StoreError::DimensionMismatch)
                } else {
                    let ghost p = point@;
                    let rec = &mut self.collections[i];
                    rec.points.push(point);
                    proof {
                        assert(self@ =~~= pre.update(
                            i as int,
                            CollectionView { points: pre[i as int].points.push(p), ..pre[i as int] },
                        ));
                        lemma_store_wf_push_point(pre, i as int, p);
                    }
                    Ok(())
                }
            },
        }
    }

    /// Similarity search: at most `top_k` of the candidates' results, ranked
    /// by non-increasing score; the optional filter restricts the candidates
    /// before ranking. An absent collection is not-found; a query vector
    /// whose length differs from the collection's vector size is a dimension
    /// mismatch, never silently truncated or padded.
    pub fn search(
        &self,
        name: &String,
        query: &EmbeddingVector,
        top_k: usize,
        filter: Option<&PayloadFilter>,
    ) -> (r: Result<Vec<SearchResult>, StoreError>)
        requires
            self.wf(),
        ensures
            search_error(self@, name@, query.dim() as int) matches Option::Some(e) ==> r
                == Err::<Vec<SearchResult>, StoreError>(e),
            search_error(self@, name@, query.dim() as int) is None ==> (r matches Ok(res) && {
                let all = candidate_results(
                    collection_named(self@, name@).points,
                    filter_view(filter),
                );
                &&& result_views(res@).len() == vstd::math::min(top_k as int, all.len() as int)
                &&& sorted_desc(result_views(res@))
                &&& ranked_prefix(all, result_views(res@), top_k as int)
            }),
    {
        match self.find_index(name) {
            Option::None => Err(StoreError::NotFound),
            Option::Some(i) => {
                proof {
                    let w = index_of_name(self@, name@);
                    assert(0 <= w < self@.len() && self@[w].name == name@);
                    if w != i as int {
                        assert(self@[w].name != self@[i as int].name);
                    }
                }
                let col = &self.collections[i];
                if query.dimension() != col.vector_size {
                    Err(StoreError::DimensionMismatch)
                } else {
                    let ghost fv = filter_view(filter);
                    let ghost pts = col@.points;
                    let ghost all = candidate_results(pts, fv);
                    let mut items: Vec<SearchResult> = Vec::new();
                    let mut j: usize = 0;
                    proof {
                        assert(pts.take(0) =~= Seq::<PointView>::empty());
                        lemma_candidate_results_empty(fv);
                        assert(result_views(items@) =~= candidate_results(pts.take(0), fv));
                    }
                    while j < col.points.len()
                        invariant
                            j <= col.points@.len(),
                            fv == filter_view(filter),
                            pts == col@.points,
                            pts.len() == col.points@.len(),
                            result_views(items@) == candidate_results(pts.take(j as int), fv),
                        decreases col.points@.len() - j,
                    {
                        let selected = match filter {
                            Option::Some(pf) => payload_matches(
                                &col.points[j].payload,
                                &pf.field,
                                &pf.value,
                            ),
                            Option::None => true,
                        };
                        proof {
                            assert(pts[j as int] == col.points@[j as int]@);
                            assert(selected == point_selected(pts[j as int], fv));
                            lemma_candidate_results_step(pts, fv, j as int);
                        }
                        if selected {
                            let ghost items_before = items@;
                            let next = result_of_point(&col.points[j]);
                            items.push(next);
                            proof {
                                lemma_result_views_push(items_before, next);
                                assert(next@ == result_of(pts[j as int]));
                                assert(result_views(items@) =~= candidate_results(
                                    pts.take(j + 1),
                                    fv,
                                ));
                            }
                        }
                        j = j + 1;
                    }
                    proof {
                        assert(pts.take(pts.len() as int) =~= pts);
                        assert(result_views(items@) =~= all);
                    }
                    let mut res = rank_results(items);
                    let ghost full = result_views(res@);
                    let k: usize = if top_k < res.len() {
                        top_k
                    } else {
                        res.len()
                    };
                    res.truncate(k);
                    proof {
                        broadcast use vstd::seq_lib::group_to_multiset_ensures;

                        assert(result_views(res@) =~= full.take(k as int));
                        assert(full.to_multiset() == all.to_multiset());
                        assert(full.len() == all.len());
                        assert(k as int == vstd::math::min(top_k as int, all.len() as int));
                        assert(ranked_prefix(all, result_views(res@), top_k as int)) by {
                            assert(full.to_multiset() == all.to_multiset() && sorted_desc(full)
                                && result_views(res@) == full.take(
                                vstd::math::min(top_k as int, all.len() as int),
                            ));
                        }
                    }
                    Ok(res)
                }
            },
        }
    }
}

/// Round trip of creation and search: after a collection is created with a
/// given vector size, a query vector of exactly that length never triggers a
/// dimension error against it — the search is owed success.
pub proof fn lemma_create_then_search_in_dimension(
    pre: Seq<CollectionView>,
    name: Seq<char>,
    vector_size: int,
    metric: DistanceMetric,
)
    requires
        store_wf(pre),
        !has_collection(pre, name),
    ensures
        ({
            let post = pre.push(
                (CollectionView { name, vector_size, metric, points: Seq::empty() }),
            );
            search_error(post, name, vector_size) is None
        }),
{
    let post = pre.push(CollectionView { name, vector_size, metric, points: Seq::empty() });
    assert(post[pre.len() as int].name == name);
    assert(has_collection(post, name));
    let w = index_of_name(post, name);
    assert(0 <= w < post.len() && post[w].name == name);
    if w != pre.len() as int {
        assert(post[w] == pre[w]);
        assert(has_collection(pre, name));
    }
    assert(collection_named(post, name).vector_size == vector_size);
}

/// Every score of `a` is at least every score of `b`.
spec fn dominates(a: Seq<ResultView>, b: Seq<ResultView>) -> bool {
    forall|i: int, j: int| #![trigger a[i], b[j]]
        0 <= i < a.len() && 0 <= j < b.len() ==> a[i].score >= b[j].score
}

proof fn lemma_result_views_push(s: Seq<SearchResult>, x: SearchResult)
    ensures
        result_views(s.push(x)) =~= result_views(s).push(x@),
{
}

proof fn lemma_result_views_remove(s: Seq<SearchResult>, i: int)
    requires
        0 <= i < s.len(),
    ensures
        result_views(s.remove(i)) =~= result_views(s).remove(i),
{
}

/// The search result the store reports for one point, as executable code.
fn result_of_point(p: &StoredPoint) -> (r: SearchResult)
    ensures
        r@ == result_of(p@),
{
    let r = SearchResult {
        point_id: p.point_id.clone(),
        score: p.score,
        payload: clone_payload(&p.payload),
    };
    proof {
        assert(r@ =~= result_of(p@));
    }
    r
}

/// A copy of a payload's entries with the same values.
fn clone_payload(entries: &Vec<PayloadEntry>) -> (r: Vec<PayloadEntry>)
    ensures
        payload_views(r@) == payload_views(entries@),
{
    let mut r: Vec<PayloadEntry> = Vec::new();
    let mut i: usize = 0;
    proof {
        assert(payload_views(r@) =~= payload_views(entries@).take(0));
    }
    while i < entries.len()
        invariant
            i <= entries@.len(),
            payload_views(r@) == payload_views(entries@).take(i as int),
        decreases entries@.len() - i,
    {
        let ghost r_before = r@;
        let e = PayloadEntry { field: entries[i].field.clone(), value: entries[i].value.clone() };
        r.push(e);
        proof {
            assert(payload_views(r@) =~= payload_views(r_before).push(e@));
            assert(e@ == payload_views(entries@)[i as int]);
            assert(payload_views(entries@).take(i + 1) =~= payload_views(entries@).take(
                i as int,
            ).push(payload_views(entries@)[i as int]));
        }
        i = i + 1;
    }
    proof {
        assert(payload_views(entries@).take(entries@.len() as int) =~= payload_views(entries@));
    }
    r
}

/// Whether the payload holds `field` with `value`, as executable code.
fn payload_matches(entries: &Vec<PayloadEntry>, field: &String, value: &String) -> (r: bool)
    ensures
        r == payload_has(payload_views(entries@), field@, value@),
{
    let mut i: usize = 0;
    while i < entries.len()
        invariant
            i <= entries@.len(),
            forall|j: int| #![trigger payload_views(entries@)[j]]
                0 <= j < i ==> !(payload_views(entries@)[j].0 == field@
                    && payload_views(entries@)[j].1 == value@),
        decreases entries@.len() - i,
    {
        if entries[i].field == *field && entries[i].value == *value {
            proof {
                assert(payload_views(entries@)[i as int].0 == field@
                    && payload_views(entries@)[i as int].1 == value@);
            }
            return true;
        }
        i = i + 1;
    }
    false
}

/// No candidates come from an empty point sequence.
proof fn lemma_candidate_results_empty(f: Option<(Seq<char>, Seq<char>)>)
    ensures
        candidate_results(Seq::<PointView>::empty(), f) == Seq::<ResultView>::empty(),
{
    reveal(Seq::filter);
    assert(candidate_results(Seq::<PointView>::empty(), f) =~= Seq::<ResultView>::empty());
}

/// Extending the scanned prefix by one point extends the candidates by that
/// point's result exactly when the filter keeps it.
proof fn lemma_candidate_results_step(
    points: Seq<PointView>,
    f: Option<(Seq<char>, Seq<char>)>,
    j: int,
)
    requires
        0 <= j < points.len(),
    ensures
        point_selected(points[j], f) ==> candidate_results(points.take(j + 1), f)
            == candidate_results(points.take(j), f).push(result_of(points[j])),
        !point_selected(points[j], f) ==> candidate_results(points.take(j + 1), f)
            == candidate_results(points.take(j), f),
{
    let t = points.take(j + 1);
    assert(t.drop_last() =~= points.take(j));
    assert(t.last() == points[j]);
    match f {
        Option::None => {
            assert(candidate_results(t, f) =~= candidate_results(points.take(j), f).push(
                result_of(points[j]),
            ));
        },
        Option::Some(fv) => {
            reveal(Seq::filter);
            if point_selected(points[j], f) {
                assert(candidate_points(t, f) == candidate_points(points.take(j), f).push(
                    points[j],
                ));
                assert(candidate_results(t, f) =~= candidate_results(points.take(j), f).push(
                    result_of(points[j]),
                ));
            } else {
                assert(candidate_points(t, f) == candidate_points(points.take(j), f));
            }
        },
    }
}

/// Order results by non-increasing score. The output is a permutation of the
/// input: same results, ranked.
fn rank_results(items: Vec<SearchResult>) -> (out: Vec<SearchResult>)
    ensures
        out@.len() == items@.len(),
        result_views(out@).to_multiset() == result_views(items@).to_multiset(),
        sorted_desc(result_views(out@)),
{
    broadcast use vstd::seq_lib::group_to_multiset_ensures;
    broadcast use vstd::multiset::group_multiset_axioms;

    let ghost orig = result_views(items@);
    let mut rem = items;
    let mut out: Vec<SearchResult> = Vec::new();
    proof {
        assert(result_views(out@) =~= Seq::<ResultView>::empty());
        assert(result_views(out@).to_multiset().add(result_views(rem@).to_multiset())
            =~= orig.to_multiset());
    }
    while rem.len() > 0
        invariant
            out@.len() + rem@.len() == orig.len(),
            result_views(out@).to_multiset().add(result_views(rem@).to_multiset())
                == orig.to_multiset(),
            sorted_desc(result_views(out@)),
            dominates(result_views(out@), result_views(rem@)),
        decreases rem@.len(),
    {
        let mut m: usize = 0;
        let mut i: usize = 1;
        while i < rem.len()
            invariant
                0 < rem@.len(),
                m < i,
                i <= rem@.len(),
                forall|j: int| 0 <= j < i
                    ==> result_views(rem@)[m as int].score >= result_views(rem@)[j].score,
            decreases rem@.len() - i,
        {
            if rem[i].score > rem[m].score {
                m = i;
            }
            i = i + 1;
        }
        let ghost out_before = out@;
        let ghost rem_before = rem@;
        let ghost ov = result_views(out@);
        let ghost rv = result_views(rem@);
        let ghost xv = rv[m as int];
        let x = rem.remove(m);
        out.push(x);
        proof {
            broadcast use vstd::seq_lib::group_to_multiset_ensures;
            broadcast use vstd::multiset::group_multiset_axioms;
            lemma_result_views_remove(rem_before, m as int);
            assert(x@ == xv);
            lemma_result_views_push(out_before, x);
            assert(result_views(rem@) =~= rv.remove(m as int));
            assert(result_views(out@) =~= ov.push(xv));
            // The extracted maximum moves from one side of the partition to
            // the other; the combined contents do not change.
            assert(rv.contains(xv));
            assert(rv.to_multiset().count(xv) >= 1);
            assert(rv.remove(m as int).to_multiset() =~= rv.to_multiset().remove(xv));
            assert(ov.push(xv).to_multiset() =~= ov.to_multiset().insert(xv));
            assert(ov.to_multiset().insert(xv).add(rv.to_multiset().remove(xv))
                =~= ov.to_multiset().add(rv.to_multiset()));
            // Pushing the maximum of the remainder keeps the output sorted
            // and still dominating the remainder.
            assert forall|a: int, b: int| #![trigger result_views(out@)[a], result_views(out@)[b]]
                0 <= a <= b < result_views(out@).len() implies result_views(out@)[a].score
                >= result_views(out@)[b].score by {
                if b < ov.len() {
                    assert(ov[a].score >= ov[b].score);
                } else {
                    assert(result_views(out@)[b] == xv);
                    if a < ov.len() {
                        assert(ov[a].score >= rv[m as int].score);
                    }
                }
            }
            assert forall|a: int, b: int| #![trigger result_views(out@)[a], result_views(rem@)[b]]
                0 <= a < result_views(out@).len() && 0 <= b < result_views(rem@).len() implies
                result_views(out@)[a].score >= result_views(rem@)[b].score by {
                let b0 = if b < m as int { b } else { b + 1 };
                assert(result_views(rem@)[b] == rv[b0]);
                if a < ov.len() {
                    assert(ov[a].score >= rv[b0].score);
                } else {
                    assert(result_views(out@)[a] == xv);
                    assert(rv[m as int].score >= rv[b0].score);
                }
            }
        }
    }
    proof {
        assert(result_views(rem@) =~= Seq::<ResultView>::empty());
        assert(result_views(rem@).to_multiset().len() == 0);
        vstd::multiset::lemma_multiset_empty_len(result_views(rem@).to_multiset());
        assert(result_views(out@).to_multiset().add(result_views(rem@).to_multiset())
            =~= result_views(out@).to_multiset());
    }
    out
}

/// Removing a collection keeps the store well formed.
proof fn lemma_store_wf_remove(s: Seq<CollectionView>, i: int)
    requires
        store_wf(s),
        0 <= i < s.len(),
    ensures
        store_wf(s.remove(i)),
{
    let t = s.remove(i);
    assert forall|a: int, b: int| 0 <= a < b < t.len() implies t[a].name != t[b].name by {
        let a0 = if a < i { a } else { a + 1 };
        let b0 = if b < i { b } else { b + 1 };
        assert(t[a] == s[a0] && t[b] == s[b0]);
    }
    assert forall|a: int, b: int| 0 <= a < t.len() && 0 <= b < t[a].points.len() implies #[trigger] t[a].points[b].vector.len()
        == t[a].vector_size by {
        let a0 = if a < i { a } else { a + 1 };
        assert(t[a] == s[a0]);
        assert(s[a0].points[b].vector.len() == s[a0].vector_size);
    }
}

/// Adding a well-sized point to a collection keeps the store well formed.
proof fn lemma_store_wf_push_point(s: Seq<CollectionView>, i: int, p: PointView)
    requires
        store_wf(s),
        0 <= i < s.len(),
        p.vector.len() == s[i].vector_size,
    ensures
        store_wf(
            s.update(i, (CollectionView { points: s[i].points.push(p), ..s[i] })),
        ),
{
    let t = s.update(i, CollectionView { points: s[i].points.push(p), ..s[i] });
    assert forall|a: int, b: int| 0 <= a < t.len() && 0 <= b < t[a].points.len() implies #[trigger] t[a].points[b].vector.len()
        == t[a].vector_size by {
        if a == i {
            if b < s[i].points.len() {
                assert(t[a].points[b] == s[i].points[b]);
                assert(s[i].points[b].vector.len() == s[i].vector_size);
            } else {
                assert(t[a].points[b] == p);
            }
        } else {
            assert(t[a] == s[a]);
            assert(s[a].points[b].vector.len() == s[a].vector_size);
        }
    }
}

} // verus!
