use vstd::prelude::*;

use crate::model::{Article, Zettel, ZettelEdge, ZettelTag};
use crate::text::{contains_substring, text_contains};
use crate::similar::{count_true, lemma_count_true_full, lemma_count_true_none,
    lemma_count_true_update, sq_dist, sq_dist_exec};

verus! {

/// The id of some note in `r`.
pub open spec fn in_results(r: Seq<Zettel>, id: i64) -> bool {
    exists|a: int| 0 <= a < r.len() && r[a].id == id
}

/// Why a store operation was refused.
///
/// `NotFound`: a note id that the operation references does not exist.
/// `StoreFault`: a constraint kept the write from happening as a whole
/// (in this store, running out of identifiers; the persistence layer maps
/// its own faults onto this variant as well).
#[derive(Clone, Copy, PartialEq, Eq, Structural, Debug)]
pub enum StoreError {
    NotFound,
    StoreFault,
}

/// Largest note or article count the store accepts: identifiers are `i64`
/// and are assigned densely from 1.
pub const MAX_ROWS: u64 = 0x7fff_ffff_ffff_ffff;

// ---------------------------------------------------------------------------
// Spec-level descriptions of the tag table and its transitions.
// ---------------------------------------------------------------------------

/// The row carries the given note id and exactly the given tag text.
pub open spec fn tag_key_matches(row: ZettelTag, zettel_id: i64, tag: Seq<char>) -> bool {
    row.zettel_id == zettel_id && row.tag@ == tag
}

/// Some row of `tags` carries `(zettel_id, tag)`.
pub open spec fn has_tag_row(tags: Seq<ZettelTag>, zettel_id: i64, tag: Seq<char>) -> bool {
    exists|j: int| 0 <= j < tags.len() && tag_key_matches(tags[j], zettel_id, tag)
}

/// The index of a row carrying `(zettel_id, tag)`; meaningful when such a
/// row exists and the keys are unique.
pub open spec fn tag_row_index(tags: Seq<ZettelTag>, zettel_id: i64, tag: Seq<char>) -> int {
    choose|j: int| 0 <= j < tags.len() && tag_key_matches(tags[j], zettel_id, tag)
}

/// No two rows carry the same `(zettel_id, tag)` pair.
pub open spec fn tag_keys_unique(tags: Seq<ZettelTag>) -> bool {
    forall|j: int, k: int|
        0 <= j < k < tags.len() ==> !(tags[j].zettel_id == tags[k].zettel_id && tags[j].tag@
            == tags[k].tag@)
}

/// The tag table after upserting `row`: an existing row with the same key is
/// replaced (which refreshes its creation time), otherwise `row` is appended.
pub open spec fn spec_upsert_tag(tags: Seq<ZettelTag>, row: ZettelTag) -> Seq<ZettelTag> {
    if has_tag_row(tags, row.zettel_id, row.tag@) {
        tags.update(tag_row_index(tags, row.zettel_id, row.tag@), row)
    } else {
        tags.push(row)
    }
}

/// The tag table after deleting `(zettel_id, tag)`: the carrying row is
/// removed if present, otherwise the table is unchanged.
pub open spec fn spec_remove_tag(tags: Seq<ZettelTag>, zettel_id: i64, tag: Seq<char>) -> Seq<
    ZettelTag,
> {
    if has_tag_row(tags, zettel_id, tag) {
        tags.remove(tag_row_index(tags, zettel_id, tag))
    } else {
        tags
    }
}

/// The rows of `tags` attached to `zettel_id`, in storage order.
pub open spec fn spec_tags_for(tags: Seq<ZettelTag>, zettel_id: i64) -> Seq<ZettelTag>
    decreases tags.len(),
{
    if tags.len() == 0 {
        Seq::empty()
    } else {
        let rest = spec_tags_for(tags.drop_last(), zettel_id);
        if tags.last().zettel_id == zettel_id {
            rest.push(tags.last())
        } else {
            rest
        }
    }
}

/// Some element of `list` is exactly the text `t`.
pub open spec fn contains_text(list: Seq<Seq<char>>, t: Seq<char>) -> bool {
    exists|m: int| 0 <= m < list.len() && list[m] == t
}

/// The distinct tag texts among `tags` that contain `sub`, in first-seen
/// storage order.
pub open spec fn spec_tag_search(tags: Seq<ZettelTag>, sub: Seq<char>) -> Seq<Seq<char>>
    decreases tags.len(),
{
    if tags.len() == 0 {
        Seq::empty()
    } else {
        let rest = spec_tag_search(tags.drop_last(), sub);
        let t = tags.last().tag@;
        if text_contains(t, sub) && !contains_text(rest, t) {
            rest.push(t)
        } else {
            rest
        }
    }
}

/// The note `id` carries at least one of the `wanted` tag texts.
pub open spec fn note_has_any_tag(tags: Seq<ZettelTag>, id: i64, wanted: Seq<Seq<char>>) -> bool {
    exists|j: int|
        0 <= j < tags.len() && (#[trigger] tags[j]).zettel_id == id && contains_text(
            wanted,
            tags[j].tag@,
        )
}

/// The notes carrying at least one of the `wanted` tag texts, in storage
/// order, each listed once; an empty `wanted` selects nothing.
pub open spec fn spec_notes_with_any_tag(
    notes: Seq<Zettel>,
    tags: Seq<ZettelTag>,
    wanted: Seq<Seq<char>>,
) -> Seq<Zettel>
    decreases notes.len(),
{
    if notes.len() == 0 {
        Seq::empty()
    } else {
        let rest = spec_notes_with_any_tag(notes.drop_last(), tags, wanted);
        if note_has_any_tag(tags, notes.last().id, wanted) {
            rest.push(notes.last())
        } else {
            rest
        }
    }
}

/// The texts of a list of tag strings.
pub open spec fn text_views(list: Seq<String>) -> Seq<Seq<char>> {
    list.map_values(|s: String| s@)
}

/// The edge rows recorded for a new note's parents, in the order given.
pub open spec fn parent_edges(child: i64, parents: Seq<i64>) -> Seq<ZettelEdge> {
    Seq::new(parents.len(), |i: int| ZettelEdge { node_id: child, parent_id: Some(parents[i]) })
}

// ---------------------------------------------------------------------------
// The store.
// ---------------------------------------------------------------------------

/// The note graph store: notes with their embeddings, citation edges, tags
/// and published articles, all held as append-ordered tables.
///
/// Note ids are dense: the note with id `i` sits at index `i - 1` of
/// `notes`, and `embeddings[i - 1]` is its embedding. Every operation
/// requires and preserves `wf()`.
pub struct Store {
    pub notes: Vec<Zettel>,
    pub embeddings: Vec<Vec<i32>>,
    pub edges: Vec<ZettelEdge>,
    pub tags: Vec<ZettelTag>,
    pub articles: Vec<Article>,
}

/// Some row of `edges` cites `id` as a parent: `id` is not a leaf.
pub open spec fn is_cited(edges: Seq<ZettelEdge>, id: i64) -> bool {
    exists|k: int| 0 <= k < edges.len() && edges[k].parent_id == Some(id)
}

/// Some row of `edges` has `id` as its child.
pub open spec fn has_child_row(edges: Seq<ZettelEdge>, id: i64) -> bool {
    exists|k: int| 0 <= k < edges.len() && edges[k].node_id == id
}

/// The leaf notes of `notes` — those never cited as a parent — ordered from
/// the newest insertion backwards.
pub open spec fn rev_leaves(notes: Seq<Zettel>, edges: Seq<ZettelEdge>) -> Seq<Zettel>
    decreases notes.len(),
{
    if notes.len() == 0 {
        Seq::empty()
    } else {
        let rest = rev_leaves(notes.drop_last(), edges);
        if !is_cited(edges, notes.last().id) {
            seq![notes.last()] + rest
        } else {
            rest
        }
    }
}


/// What the recent-leaves listing returns: the leaves newest-first, cut to
/// `n`.
pub open spec fn recent_results(s: Store, n: int, r: Seq<Zettel>) -> bool {
    if rev_leaves(s.notes@, s.edges@).len() >= n {
        r == rev_leaves(s.notes@, s.edges@).take(n)
    } else {
        r == rev_leaves(s.notes@, s.edges@)
    }
}

/// What a similarity search returns: `k` stored notes (all of them when
/// fewer are stored), pairwise distinct, ordered by ascending squared
/// distance to `q`, and none farther from `q` than any note left out.
pub open spec fn similar_results(s: Store, q: Seq<i32>, k: int, r: Seq<Zettel>) -> bool {
    &&& if k <= s.notes@.len() {
        r.len() == k
    } else {
        r.len() == s.notes@.len()
    }
    &&& forall|a: int|
        0 <= a < r.len() ==> s.valid_id((#[trigger] r[a]).id) && r[a] == s.notes@[r[a].id - 1]
    &&& forall|a: int, b: int| 0 <= a < b < r.len() ==> r[a].id != r[b].id
    &&& forall|a: int, b: int|
        0 <= a <= b < r.len() ==> sq_dist(q, s.embeddings@[r[a].id - 1]@) <= sq_dist(
            q,
            s.embeddings@[r[b].id - 1]@,
        )
    &&& forall|a: int, m: int|
        0 <= a < r.len() && 0 <= m < s.notes@.len() && !in_results(r, s.notes@[m].id) ==> sq_dist(
            q,
            s.embeddings@[r[a].id - 1]@,
        ) <= sq_dist(q, s.embeddings@[m]@)
}

impl Store {
    /// The id `id` names a stored note.
    pub open spec fn valid_id(self, id: i64) -> bool {
        1 <= id <= self.notes@.len()
    }

    /// The store's internal invariant.
    ///
    /// - ids are dense and in creation order, and creation times never
    ///   decrease along that order;
    /// - each note has exactly one embedding row;
    /// - every edge names existing notes, and every note has at least one
    ///   edge row with its id as the child (its root marker or a parent
    ///   citation);
    /// - tag rows name existing notes and are unique per `(note, tag)`;
    /// - article ids are dense and snapshot existing notes.
    pub open spec fn wf(self) -> bool {
        &&& forall|i: int|
            0 <= i < self.notes@.len() ==> (#[trigger] self.notes@[i]).id == i + 1
        &&& forall|i: int|
            0 <= i < self.notes@.len() - 1 ==> (#[trigger] self.notes@[i]).created_at
                <= self.notes@[i + 1].created_at
        &&& self.embeddings@.len() == self.notes@.len()
        &&& forall|k: int|
            0 <= k < self.edges@.len() ==> 1 <= (#[trigger] self.edges@[k]).node_id
                <= self.notes@.len()
        &&& forall|k: int|
            0 <= k < self.edges@.len() ==> ((#[trigger] self.edges@[k]).parent_id matches Some(p)
                ==> 1 <= p <= self.notes@.len())
        &&& forall|i: int|
            0 <= i < self.notes@.len() ==> has_child_row(
                self.edges@,
                (#[trigger] self.notes@[i]).id,
            )
        &&& tag_keys_unique(self.tags@)
        &&& forall|j: int|
            0 <= j < self.tags@.len() ==> 1 <= (#[trigger] self.tags@[j]).zettel_id
                <= self.notes@.len()
        &&& forall|i: int|
            0 <= i < self.articles@.len() ==> (#[trigger] self.articles@[i]).id == i + 1
        &&& forall|i: int|
            0 <= i < self.articles@.len() ==> 1 <= (#[trigger] self.articles@[i]).zettel_id
                <= self.notes@.len()
    }

    /// An empty store.
    pub fn new() -> (s: Store)
        ensures
            s.wf(),
            s.notes@.len() == 0,
            s.edges@.len() == 0,
            s.tags@.len() == 0,
            s.articles@.len() == 0,
            s.embeddings@.len() == 0,
    {
        Store {
            notes: Vec::new(),
            embeddings: Vec::new(),
            edges: Vec::new(),
            tags: Vec::new(),
            articles: Vec::new(),
        }
    }

    /// Point lookup of a note by id; `NotFound` exactly when no note has
    /// that id.
    pub fn find_by_id(&self, id: i64) -> (r: Result<Zettel, StoreError>)
        requires
            self.wf(),
        ensures
            match r {
                Ok(z) => self.valid_id(id) && z == self.notes@[id - 1],
                Err(e) => e == StoreError::NotFound && !self.valid_id(id),
            },
    {
        if id < 1 {
            return Err(StoreError::NotFound);
        }
        let idx: u64 = (id - 1) as u64;
        if idx >= self.notes.len() as u64 {
            return Err(StoreError::NotFound);
        }
        Ok(self.notes[idx as usize].clone())
    }

    /// Every id in `parent_ids` names a stored note.
    pub open spec fn parents_valid(self, parent_ids: Seq<i64>) -> bool {
        forall|i: int| 0 <= i < parent_ids.len() ==> self.valid_id(#[trigger] parent_ids[i])
    }

    /// Creation is skipped entirely when the text is empty, or when there is
    /// exactly one parent and the text equals that parent's content (a save
    /// without change).
    pub open spec fn creation_noop(self, content: Seq<char>, parent_ids: Seq<i64>) -> bool {
        ||| content.len() == 0
        ||| (parent_ids.len() == 1 && self.valid_id(parent_ids[0])
            && self.notes@[parent_ids[0] - 1].content@ == content)
    }

    /// The creation time the store records next: the wall-clock argument,
    /// clamped so that creation times never decrease along insertion order.
    pub open spec fn next_created_at(self, now: i64) -> i64 {
        if self.notes@.len() == 0 {
            now
        } else if self.notes@.last().created_at > now {
            self.notes@.last().created_at
        } else {
            now
        }
    }

    /// The `n` most recent leaf notes — notes never cited as a parent —
    /// newest first (creation times never decrease along insertion order,
    /// so reverse insertion order is descending creation order).
    pub fn find_n_recent_leaves(&self, n: usize) -> (r: Vec<Zettel>)
        requires
            self.wf(),
        ensures
            recent_results(*self, n as int, r@),
    {
        let ghost full = rev_leaves(self.notes@, self.edges@);
        let mut out: Vec<Zettel> = Vec::new();
        let mut i: usize = self.notes.len();
        proof {
            assert(self.notes@.take(i as int) == self.notes@);
            assert(out@ + full =~= full);
        }
        while i > 0 && out.len() < n
            invariant
                0 <= i <= self.notes@.len(),
                out@.len() <= n,
                full == rev_leaves(self.notes@, self.edges@),
                out@ + rev_leaves(self.notes@.take(i as int), self.edges@) == full,
            decreases i,
        {
            let ghost pre = out@;
            let z = &self.notes[i - 1];
            proof {
                assert(self.notes@.take(i as int).drop_last() == self.notes@.take(i - 1));
                assert(self.notes@.take(i as int).last() == self.notes@[i - 1]);
            }
            if !is_cited_exec(&self.edges, z.id) {
                out.push(z.clone());
                proof {
                    assert(out@ + rev_leaves(self.notes@.take(i - 1), self.edges@) =~= pre + (seq![
                        self.notes@[i - 1],
                    ] + rev_leaves(self.notes@.take(i - 1), self.edges@)));
                }
            }
            i -= 1;
        }
        proof {
            if i == 0 {
                assert(self.notes@.take(0) =~= Seq::<Zettel>::empty());
                assert(rev_leaves(Seq::<Zettel>::empty(), self.edges@) =~= Seq::<Zettel>::empty());
                assert(out@ =~= full);
                if full.len() >= n {
                    assert(out@ =~= full.take(n as int));
                }
            } else {
                assert(out@.len() == n);
                assert(out@ =~= full.take(n as int));
            }
        }
        out
    }

    /// The `k` stored notes nearest to `embedding` under squared Euclidean
    /// distance over common coordinates, most similar first: every returned
    /// note is at most as far from the query as every note left out. Equal
    /// distances are broken by scan order, which is no part of the contract.
    pub fn find_similar(&self, embedding: &Vec<i32>, k: usize) -> (r: Vec<Zettel>)
        requires
            self.wf(),
        ensures
            similar_results(*self, embedding@, k as int, r@),
    {
        let n = self.notes.len();
        let kk: usize = if k <= n {
            k
        } else {
            n
        };
        let mut picked: Vec<bool> = vec![false; n];
        let mut out: Vec<Zettel> = Vec::new();
        proof {
            lemma_count_true_none(picked@);
        }
        while out.len() < kk
            invariant
                self.wf(),
                n == self.notes@.len(),
                kk <= n,
                picked@.len() == n,
                out@.len() <= kk,
                count_true(picked@) == out@.len(),
                forall|m: int|
                    0 <= m < n ==> picked@[m] == in_results(out@, (#[trigger] self.notes@[m]).id),
                forall|a: int|
                    0 <= a < out@.len() ==> 1 <= (#[trigger] out@[a]).id <= n && out@[a]
                        == self.notes@[out@[a].id - 1],
                forall|a: int, b: int| 0 <= a < b < out@.len() ==> out@[a].id != out@[b].id,
                forall|a: int, b: int|
                    0 <= a <= b < out@.len() ==> sq_dist(embedding@, self.embeddings@[out@[a].id
                        - 1]@) <= sq_dist(embedding@, self.embeddings@[out@[b].id - 1]@),
                forall|a: int, m: int|
                    0 <= a < out@.len() && 0 <= m < n && !picked@[m] ==> sq_dist(
                        embedding@,
                        self.embeddings@[out@[a].id - 1]@,
                    ) <= sq_dist(embedding@, self.embeddings@[m]@),
            decreases kk - out@.len(),
        {
            let mut best: usize = n;
            let mut best_d: u128 = 0;
            let mut m: usize = 0;
            while m < n
                invariant
                    n == self.notes@.len(),
                    n == self.embeddings@.len(),
                    picked@.len() == n,
                    0 <= m <= n,
                    best == n || (best < m && !picked@[best as int] && best_d == sq_dist(
                        embedding@,
                        self.embeddings@[best as int]@,
                    )),
                    best == n ==> forall|q: int| 0 <= q < m ==> picked@[q],
                    best < n ==> forall|q: int|
                        0 <= q < m && !picked@[q] ==> best_d <= sq_dist(
                            embedding@,
                            self.embeddings@[q]@,
                        ),
                decreases n - m,
            {
                if !picked[m] {
                    let dm = sq_dist_exec(embedding, &self.embeddings[m]);
                    if best == n || dm < best_d {
                        best = m;
                        best_d = dm;
                    }
                }
                m += 1;
            }
            proof {
                if best == n {
                    lemma_count_true_full(picked@);
                    assert(false);
                }
            }
            let ghost out0 = out@;
            let ghost picked0 = picked@;
            let chosen = self.notes[best].clone();
            out.push(chosen);
            picked.set(best, true);
            proof {
                lemma_count_true_update(picked0, best as int);
                assert(out@[out0.len() as int] == self.notes@[best as int]);
                assert(self.notes@[best as int].id == best + 1);
                assert forall|m2: int|
                    0 <= m2 < n implies picked@[m2] == in_results(
                    out@,
                    (#[trigger] self.notes@[m2]).id,
                ) by {
                    if m2 == best as int {
                        assert(out@[out0.len() as int].id == self.notes@[m2].id);
                        assert(in_results(out@, self.notes@[m2].id));
                    } else {
                        if in_results(out@, self.notes@[m2].id) {
                            let w = choose|a: int|
                                0 <= a < out@.len() && out@[a].id == self.notes@[m2].id;
                            assert(w < out0.len());
                            assert(out@[w] == out0[w]);
                            assert(in_results(out0, self.notes@[m2].id));
                        }
                        if in_results(out0, self.notes@[m2].id) {
                            let w = choose|a: int|
                                0 <= a < out0.len() && out0[a].id == self.notes@[m2].id;
                            assert(out@[w] == out0[w]);
                            assert(in_results(out@, self.notes@[m2].id));
                        }
                    }
                }
                assert forall|a: int, b: int|
                    0 <= a <= b < out@.len() implies sq_dist(
                    embedding@,
                    self.embeddings@[out@[a].id - 1]@,
                ) <= sq_dist(embedding@, self.embeddings@[out@[b].id - 1]@) by {
                    if b < out0.len() {
                        assert(out@[a] == out0[a] && out@[b] == out0[b]);
                    } else if a < out0.len() {
                        assert(out@[a] == out0[a]);
                        assert(out@[b] == self.notes@[best as int]);
                        assert(!picked0[best as int]);
                        assert(sq_dist(embedding@, self.embeddings@[out0[a].id - 1]@) <= sq_dist(
                            embedding@,
                            self.embeddings@[best as int]@,
                        ));
                    }
                }
                assert forall|a: int, m2: int|
                    0 <= a < out@.len() && 0 <= m2 < n && !picked@[m2] implies sq_dist(
                    embedding@,
                    self.embeddings@[out@[a].id - 1]@,
                ) <= sq_dist(embedding@, self.embeddings@[m2]@) by {
                    assert(picked@[m2] == picked0[m2]);
                    if a < out0.len() {
                        assert(out@[a] == out0[a]);
                    } else {
                        assert(out@[a] == self.notes@[best as int]);
                    }
                }
            }
        }
        out
    }


    /// The distinct tag texts that contain `substring`, in first-seen
    /// storage order (the match is case-sensitive).
    pub fn search_tag_text(&self, substring: &String) -> (r: Vec<String>)
        requires
            self.wf(),
        ensures
            text_views(r@) == spec_tag_search(self.tags@, substring@),
    {
        let n = self.tags.len();
        let mut out: Vec<String> = Vec::new();
        let mut j: usize = 0;
        proof {
            assert(text_views(out@) =~= spec_tag_search(self.tags@.take(0), substring@));
        }
        while j < n
            invariant
                0 <= j <= n,
                n == self.tags@.len(),
                text_views(out@) == spec_tag_search(self.tags@.take(j as int), substring@),
            decreases n - j,
        {
            proof {
                assert(self.tags@.take(j + 1).drop_last() == self.tags@.take(j as int));
                assert(self.tags@.take(j + 1).last() == self.tags@[j as int]);
            }
            let t = &self.tags[j].tag;
            if contains_substring(t.as_str(), substring.as_str()) && !string_in(&out, t) {
                let ghost pre = out@;
                out.push(t.clone());
                proof {
                    assert(text_views(out@) =~= text_views(pre).push(self.tags@[j as int].tag@));
                }
            }
            j += 1;
        }
        proof {
            assert(self.tags@.take(n as int) == self.tags@);
        }
        out
    }

    /// The notes carrying at least one of the `wanted` tags, in storage
    /// order, each listed once; an empty `wanted` selects no notes.
    pub fn notes_with_any_tag(&self, wanted: &Vec<String>) -> (r: Vec<Zettel>)
        requires
            self.wf(),
        ensures
            r@ == spec_notes_with_any_tag(self.notes@, self.tags@, text_views(wanted@)),
    {
        let n = self.notes.len();
        let mut out: Vec<Zettel> = Vec::new();
        let mut i: usize = 0;
        proof {
            assert(out@ =~= spec_notes_with_any_tag(
                self.notes@.take(0),
                self.tags@,
                text_views(wanted@),
            ));
        }
        while i < n
            invariant
                0 <= i <= n,
                n == self.notes@.len(),
                out@ == spec_notes_with_any_tag(
                    self.notes@.take(i as int),
                    self.tags@,
                    text_views(wanted@),
                ),
            decreases n - i,
        {
            proof {
                assert(self.notes@.take(i + 1).drop_last() == self.notes@.take(i as int));
                assert(self.notes@.take(i + 1).last() == self.notes@[i as int]);
            }
            if has_any_tag_exec(&self.tags, self.notes[i].id, wanted) {
                out.push(self.notes[i].clone());
            }
            i += 1;
        }
        proof {
            assert(self.notes@.take(n as int) == self.notes@);
        }
        out
    }

    /// Append-only publication of a note's current content under a title;
    /// `NotFound` exactly when the note id is invalid, `StoreFault` when the
    /// store is out of article identifiers.
    pub fn promote(&mut self, zettel_id: i64, title: String, now: i64) -> (r: Result<
        Article,
        StoreError,
    >)
        requires
            old(self).wf(),
        ensures
            final(self).wf(),
            final(self).notes@ == old(self).notes@,
            final(self).embeddings@ == old(self).embeddings@,
            final(self).edges@ == old(self).edges@,
            final(self).tags@ == old(self).tags@,
            match r {
                Ok(a) => {
                    &&& old(self).valid_id(zettel_id)
                    &&& old(self).articles@.len() < MAX_ROWS
                    &&& a.id == old(self).articles@.len() + 1
                    &&& a.zettel_id == zettel_id
                    &&& a.title == title
                    &&& a.content == old(self).notes@[zettel_id - 1].content
                    &&& a.created_at == now
                    &&& final(self).articles@ == old(self).articles@.push(a)
                },
                Err(e) => {
                    &&& final(self).articles@ == old(self).articles@
                    &&& (e == StoreError::NotFound ==> !old(self).valid_id(zettel_id))
                    &&& (e == StoreError::StoreFault ==> old(self).valid_id(zettel_id) && old(self).articles@.len() >= MAX_ROWS)
                    &&& (e == StoreError::NotFound || e == StoreError::StoreFault)
                },
            },
    {
        if zettel_id < 1 || (zettel_id - 1) as u64 >= self.notes.len() as u64 {
            return Err(StoreError::NotFound);
        }
        let arts_u: u64 = self.articles.len() as u64;
        if arts_u >= MAX_ROWS {
            return Err(StoreError::StoreFault);
        }
        let ghost s0 = *self;
        let a = Article {
            id: (arts_u + 1) as i64,
            zettel_id,
            title,
            content: self.notes[(zettel_id - 1) as usize].content.clone(),
            created_at: now,
        };
        let ret = a.clone();
        self.articles.push(a);
        proof {
            let a1 = self.articles@;
            assert forall|m: int| 0 <= m < a1.len() implies (#[trigger] a1[m]).id == m + 1 && 1 <= a1[m].zettel_id
                <= self.notes@.len() by {
                if m < s0.articles@.len() {
                    assert(a1[m] == s0.articles@[m]);
                }
            }
        }
        Ok(ret)
    }

    /// Whether every id in `parent_ids` names a stored note.
    pub fn parents_all_valid(&self, parent_ids: &Vec<i64>) -> (b: bool)
        ensures
            b == self.parents_valid(parent_ids@),
    {
        let np = parent_ids.len();
        let mut i: usize = 0;
        while i < np
            invariant
                0 <= i <= np,
                np == parent_ids@.len(),
                forall|m: int| 0 <= m < i ==> self.valid_id(#[trigger] parent_ids@[m]),
            decreases np - i,
        {
            let p = parent_ids[i];
            if p < 1 || (p - 1) as u64 >= self.notes.len() as u64 {
                proof {
                    assert(!self.valid_id(parent_ids@[i as int]));
                }
                return false;
            }
            i += 1;
        }
        true
    }

    /// Atomic note creation: the note row, its embedding, its root edge and
    /// one edge per parent become visible together, or nothing does.
    ///
    /// `Ok(None)` reports a skipped no-op save; `NotFound` that some parent
    /// id is invalid; `StoreFault` that the store is out of identifiers.
    /// On every outcome but `Ok(Some(..))` the store is unchanged.
    pub fn create_note(
        &mut self,
        content: String,
        embedding: Vec<i32>,
        parent_ids: Vec<i64>,
        now: i64,
    ) -> (r: Result<Option<Zettel>, StoreError>)
        requires
            old(self).wf(),
        ensures
            final(self).wf(),
            final(self).tags@ == old(self).tags@,
            final(self).articles@ == old(self).articles@,
            match r {
                Ok(opt) => match opt {
                    None => {
                        &&& old(self).creation_noop(content@, parent_ids@)
                        &&& *final(self) == *old(self)
                    },
                    Some(z) => {
                        &&& !old(self).creation_noop(content@, parent_ids@)
                        &&& old(self).parents_valid(parent_ids@)
                        &&& old(self).notes@.len() < MAX_ROWS
                        &&& z.id == old(self).notes@.len() + 1
                        &&& z.content == content
                        &&& z.created_at == old(self).next_created_at(now)
                        &&& final(self).notes@ == old(self).notes@.push(z)
                        &&& final(self).embeddings@ == old(self).embeddings@.push(embedding)
                        &&& final(self).edges@ == old(self).edges@.push(
                            ZettelEdge { node_id: z.id, parent_id: None },
                        ) + parent_edges(z.id, parent_ids@)
                    },
                },
                Err(e) => {
                    &&& *final(self) == *old(self)
                    &&& !old(self).creation_noop(content@, parent_ids@)
                    &&& (e == StoreError::NotFound ==> !old(self).parents_valid(parent_ids@))
                    &&& (e == StoreError::StoreFault ==> old(self).parents_valid(parent_ids@)
                        && old(self).notes@.len() >= MAX_ROWS)
                    &&& (e == StoreError::NotFound || e == StoreError::StoreFault)
                },
            },
    {
        let ghost s0 = *self;
        if content.as_str().is_empty() {
            return Ok(None);
        }
        if parent_ids.len() == 1 {
            let p = parent_ids[0];
            if p >= 1 && ((p - 1) as u64) < self.notes.len() as u64 {
                if self.notes[(p - 1) as usize].content == content {
                    return Ok(None);
                }
            }
        }
        let np = parent_ids.len();
        if !self.parents_all_valid(&parent_ids) {
            return Err(StoreError::NotFound);
        }
        let len_u: u64 = self.notes.len() as u64;
        if len_u >= MAX_ROWS {
            return Err(StoreError::StoreFault);
        }
        let id: i64 = (len_u + 1) as i64;
        let created_at: i64 = if self.notes.len() == 0 {
            now
        } else {
            let last = self.notes[self.notes.len() - 1].created_at;
            if last > now {
                last
            } else {
                now
            }
        };
        let z = Zettel { id, content, created_at };
        let ret = z.clone();
        self.notes.push(z);
        self.embeddings.push(embedding);
        self.edges.push(ZettelEdge { node_id: id, parent_id: None });
        let ghost edges1 = self.edges@;
        proof {
            assert(self.edges@ =~= edges1 + parent_edges(ret.id, parent_ids@.take(0)));
        }
        let mut i: usize = 0;
        while i < np
            invariant
                0 <= i <= np,
                np == parent_ids@.len(),
                ret.id == id,
                self.notes@ == s0.notes@.push(ret),
                self.embeddings@ == s0.embeddings@.push(embedding),
                self.tags@ == s0.tags@,
                self.articles@ == s0.articles@,
                edges1 == s0.edges@.push(ZettelEdge { node_id: ret.id, parent_id: None }),
                self.edges@ == edges1 + parent_edges(ret.id, parent_ids@.take(i as int)),
            decreases np - i,
        {
            let ghost pre = self.edges@;
            let p = parent_ids[i];
            self.edges.push(ZettelEdge { node_id: id, parent_id: Some(p) });
            proof {
                assert(self.edges@ == pre.push(
                    ZettelEdge { node_id: ret.id, parent_id: Some(parent_ids@[i as int]) },
                ));
                assert(parent_edges(ret.id, parent_ids@.take(i + 1)) =~= parent_edges(
                    ret.id,
                    parent_ids@.take(i as int),
                ).push(ZettelEdge { node_id: ret.id, parent_id: Some(parent_ids@[i as int]) }));
                assert(self.edges@ =~= edges1 + parent_edges(ret.id, parent_ids@.take(i + 1)));
            }
            i += 1;
        }
        proof {
            assert(parent_ids@.take(np as int) == parent_ids@);
            let e1 = self.edges@;
            let n0 = s0.notes@.len() as int;
            // ids stay dense and creation times stay nondecreasing
            assert forall|i2: int| 0 <= i2 < self.notes@.len() implies (
            #[trigger] self.notes@[i2]).id == i2 + 1 by {
                if i2 < n0 {
                    assert(self.notes@[i2] == s0.notes@[i2]);
                }
            }
            assert forall|i2: int|
                0 <= i2 < self.notes@.len() - 1 implies (#[trigger] self.notes@[i2]).created_at
                <= self.notes@[i2 + 1].created_at by {
                if i2 < n0 - 1 {
                    assert(self.notes@[i2] == s0.notes@[i2]);
                    assert(self.notes@[i2 + 1] == s0.notes@[i2 + 1]);
                } else {
                    assert(self.notes@[i2] == s0.notes@[n0 - 1]);
                    assert(self.notes@[i2 + 1] == ret);
                }
            }
            // every edge row names existing notes
            assert forall|k: int| 0 <= k < e1.len() implies 1 <= (#[trigger] e1[k]).node_id <= n0
                + 1 && (e1[k].parent_id matches Some(p) ==> 1 <= p <= n0 + 1) by {
                if k < s0.edges@.len() {
                    assert(e1[k] == s0.edges@[k]);
                } else if k == s0.edges@.len() {
                    assert(e1[k] == ZettelEdge { node_id: ret.id, parent_id: None });
                } else {
                    let m = k - s0.edges@.len() - 1;
                    assert(e1[k] == parent_edges(ret.id, parent_ids@)[m]);
                    assert(s0.valid_id(parent_ids@[m]));
                }
            }
            // every note still has a child row
            assert forall|i2: int| 0 <= i2 < self.notes@.len() implies has_child_row(
                e1,
                (#[trigger] self.notes@[i2]).id,
            ) by {
                if i2 < n0 {
                    let w = choose|k: int|
                        0 <= k < s0.edges@.len() && s0.edges@[k].node_id == s0.notes@[i2].id;
                    assert(e1[w] == s0.edges@[w]);
                    assert(e1[w].node_id == self.notes@[i2].id);
                } else {
                    let w = s0.edges@.len() as int;
                    assert(e1[w].node_id == ret.id);
                    assert(self.notes@[i2].id == ret.id);
                }
            }
        }
        Ok(Some(ret))
    }

    /// Upsert of a tag on a note: succeeds idempotently, refreshing the
    /// row's creation time; `NotFound` exactly when the note id is invalid.
    pub fn add_tag(&mut self, zettel_id: i64, tag: String, now: i64) -> (r: Result<
        ZettelTag,
        StoreError,
    >)
        requires
            old(self).wf(),
        ensures
            final(self).wf(),
            final(self).notes@ == old(self).notes@,
            final(self).embeddings@ == old(self).embeddings@,
            final(self).edges@ == old(self).edges@,
            final(self).articles@ == old(self).articles@,
            match r {
                Ok(row) => {
                    &&& old(self).valid_id(zettel_id)
                    &&& row.zettel_id == zettel_id
                    &&& row.tag@ == tag@
                    &&& row.created_at == now
                    &&& final(self).tags@ == spec_upsert_tag(old(self).tags@, row)
                },
                Err(e) => {
                    &&& e == StoreError::NotFound
                    &&& !old(self).valid_id(zettel_id)
                    &&& final(self).tags@ == old(self).tags@
                },
            },
    {
        if zettel_id < 1 || (zettel_id - 1) as u64 >= self.notes.len() as u64 {
            return Err(StoreError::NotFound);
        }
        let ghost t0 = self.tags@;
        match find_tag_row(&self.tags, zettel_id, &tag) {
            Some(j) => {
                let row = ZettelTag { zettel_id, tag, created_at: now };
                let ret = row.clone();
                self.tags.set(j, row);
                proof {
                    lemma_tag_index_unique(t0, j as int, zettel_id, ret.tag@);
                    let t1 = self.tags@;
                    assert(t1 == spec_upsert_tag(t0, ret));
                    assert forall|a: int, b: int| 0 <= a < b < t1.len() implies !(t1[a].zettel_id
                        == t1[b].zettel_id && t1[a].tag@ == t1[b].tag@) by {
                        if a == j as int {
                            assert(t1[b] == t0[b]);
                            assert(!(t0[j as int].zettel_id == t0[b].zettel_id
                                && t0[j as int].tag@ == t0[b].tag@));
                        } else if b == j as int {
                            assert(t1[a] == t0[a]);
                            assert(!(t0[a].zettel_id == t0[j as int].zettel_id
                                && t0[a].tag@ == t0[j as int].tag@));
                        } else {
                            assert(t1[a] == t0[a] && t1[b] == t0[b]);
                        }
                    }
                    assert forall|m: int| 0 <= m < t1.len() implies 1 <= (
                    #[trigger] t1[m]).zettel_id <= self.notes@.len() by {
                        if m != j as int {
                            assert(t1[m] == t0[m]);
                        }
                    }
                }
                Ok(ret)
            },
            None => {
                let row = ZettelTag { zettel_id, tag, created_at: now };
                let ret = row.clone();
                self.tags.push(row);
                proof {
                    let t1 = self.tags@;
                    assert(t1 == spec_upsert_tag(t0, ret));
                    assert forall|a: int, b: int| 0 <= a < b < t1.len() implies !(t1[a].zettel_id
                        == t1[b].zettel_id && t1[a].tag@ == t1[b].tag@) by {
                        if b == t0.len() as int {
                            assert(t1[a] == t0[a]);
                            assert(!tag_key_matches(t0[a], zettel_id, ret.tag@));
                        } else {
                            assert(t1[a] == t0[a] && t1[b] == t0[b]);
                        }
                    }
                    assert forall|m: int| 0 <= m < t1.len() implies 1 <= (
                    #[trigger] t1[m]).zettel_id <= self.notes@.len() by {
                        if m != t0.len() as int {
                            assert(t1[m] == t0[m]);
                        }
                    }
                }
                Ok(ret)
            },
        }
    }

    /// Exact-match tag deletion: a no-op when the pair is absent;
    /// `NotFound` exactly when the note id is invalid.
    pub fn remove_tag(&mut self, zettel_id: i64, tag: &String) -> (r: Result<(), StoreError>)
        requires
            old(self).wf(),
        ensures
            final(self).wf(),
            final(self).notes@ == old(self).notes@,
            final(self).embeddings@ == old(self).embeddings@,
            final(self).edges@ == old(self).edges@,
            final(self).articles@ == old(self).articles@,
            match r {
                Ok(()) => {
                    &&& old(self).valid_id(zettel_id)
                    &&& final(self).tags@ == spec_remove_tag(old(self).tags@, zettel_id, tag@)
                },
                Err(e) => {
                    &&& e == StoreError::NotFound
                    &&& !old(self).valid_id(zettel_id)
                    &&& final(self).tags@ == old(self).tags@
                },
            },
    {
        if zettel_id < 1 || (zettel_id - 1) as u64 >= self.notes.len() as u64 {
            return Err(StoreError::NotFound);
        }
        let ghost t0 = self.tags@;
        match find_tag_row(&self.tags, zettel_id, tag) {
            Some(j) => {
                self.tags.remove(j);
                proof {
                    lemma_tag_index_unique(t0, j as int, zettel_id, tag@);
                    let t1 = self.tags@;
                    assert(t1 == spec_remove_tag(t0, zettel_id, tag@));
                    assert forall|a: int, b: int| 0 <= a < b < t1.len() implies !(t1[a].zettel_id
                        == t1[b].zettel_id && t1[a].tag@ == t1[b].tag@) by {
                        let a0 = if a < j as int { a } else { a + 1 };
                        let b0 = if b < j as int { b } else { b + 1 };
                        assert(t1[a] == t0[a0] && t1[b] == t0[b0]);
                        assert(!(t0[a0].zettel_id == t0[b0].zettel_id && t0[a0].tag@
                            == t0[b0].tag@));
                    }
                    assert forall|m: int| 0 <= m < t1.len() implies 1 <= (
                    #[trigger] t1[m]).zettel_id <= self.notes@.len() by {
                        let m0 = if m < j as int { m } else { m + 1 };
                        assert(t1[m] == t0[m0]);
                    }
                }
                Ok(())
            },
            None => Ok(()),
        }
    }

    /// The tags attached to a note, in storage order; `NotFound` exactly
    /// when the note id is invalid.
    pub fn tags_for(&self, zettel_id: i64) -> (r: Result<Vec<ZettelTag>, StoreError>)
        requires
            self.wf(),
        ensures
            match r {
                Ok(v) => self.valid_id(zettel_id) && v@ == spec_tags_for(self.tags@, zettel_id),
                Err(e) => e == StoreError::NotFound && !self.valid_id(zettel_id),
            },
    {
        if zettel_id < 1 || (zettel_id - 1) as u64 >= self.notes.len() as u64 {
            return Err(StoreError::NotFound);
        }
        let n = self.tags.len();
        let mut out: Vec<ZettelTag> = Vec::new();
        let mut j: usize = 0;
        while j < n
            invariant
                0 <= j <= n,
                n == self.tags@.len(),
                out@ == spec_tags_for(self.tags@.take(j as int), zettel_id),
            decreases n - j,
        {
            proof {
                assert(self.tags@.take(j + 1).drop_last() == self.tags@.take(j as int));
                assert(self.tags@.take(j + 1).last() == self.tags@[j as int]);
            }
            if self.tags[j].zettel_id == zettel_id {
                out.push(self.tags[j].clone());
            }
            j += 1;
        }
        proof {
            assert(self.tags@.take(n as int) == self.tags@);
        }
        Ok(out)
    }
}

/// Whether some edge row cites `id` as a parent.
fn is_cited_exec(edges: &Vec<ZettelEdge>, id: i64) -> (b: bool)
    ensures
        b == is_cited(edges@, id),
{
    let n = edges.len();
    let mut k: usize = 0;
    while k < n
        invariant
            0 <= k <= n,
            n == edges@.len(),
            forall|m: int| 0 <= m < k ==> (#[trigger] edges@[m]).parent_id != Some(id),
        decreases n - k,
    {
        match edges[k].parent_id {
            Some(p) => {
                if p == id {
                    return true;
                }
            },
            None => {},
        }
        k += 1;
    }
    false
}


/// Whether `s` occurs in `list` (by text).
pub(crate) fn string_in(list: &Vec<String>, s: &String) -> (b: bool)
    ensures
        b == contains_text(text_views(list@), s@),
{
    let n = list.len();
    let mut m: usize = 0;
    while m < n
        invariant
            0 <= m <= n,
            n == list@.len(),
            forall|q: int| 0 <= q < m ==> (#[trigger] list@[q])@ != s@,
        decreases n - m,
    {
        if list[m] == *s {
            proof {
                assert(text_views(list@)[m as int] == s@);
            }
            return true;
        }
        m += 1;
    }
    proof {
        if contains_text(text_views(list@), s@) {
            let w = choose|q: int|
                0 <= q < text_views(list@).len() && text_views(list@)[q] == s@;
            assert(list@[w]@ == s@);
            assert(false);
        }
    }
    false
}

/// Whether note `id` carries at least one of the `wanted` tags.
fn has_any_tag_exec(tags: &Vec<ZettelTag>, id: i64, wanted: &Vec<String>) -> (b: bool)
    ensures
        b == note_has_any_tag(tags@, id, text_views(wanted@)),
{
    let n = tags.len();
    let mut j: usize = 0;
    while j < n
        invariant
            0 <= j <= n,
            n == tags@.len(),
            forall|m: int|
                0 <= m < j ==> !((#[trigger] tags@[m]).zettel_id == id && contains_text(
                    text_views(wanted@),
                    tags@[m].tag@,
                )),
        decreases n - j,
    {
        if tags[j].zettel_id == id && string_in(wanted, &tags[j].tag) {
            return true;
        }
        j += 1;
    }
    proof {
        if note_has_any_tag(tags@, id, text_views(wanted@)) {
            let w = choose|q: int|
                0 <= q < tags@.len() && (#[trigger] tags@[q]).zettel_id == id && contains_text(
                    text_views(wanted@),
                    tags@[q].tag@,
                );
            assert(false);
        }
    }
    false
}

/// The first row carrying `(zettel_id, tag)`, if any.
fn find_tag_row(tags: &Vec<ZettelTag>, zettel_id: i64, tag: &String) -> (r: Option<usize>)
    ensures
        match r {
            Some(j) => j < tags@.len() && tag_key_matches(tags@[j as int], zettel_id, tag@),
            None => !has_tag_row(tags@, zettel_id, tag@),
        },
{
    let n = tags.len();
    let mut j: usize = 0;
    while j < n
        invariant
            0 <= j <= n,
            n == tags@.len(),
            forall|m: int| 0 <= m < j ==> !tag_key_matches(tags@[m], zettel_id, tag@),
        decreases n - j,
    {
        if tags[j].zettel_id == zettel_id && tags[j].tag == *tag {
            return Some(j);
        }
        j += 1;
    }
    proof {
        if has_tag_row(tags@, zettel_id, tag@) {
            let w = tag_row_index(tags@, zettel_id, tag@);
            assert(tag_key_matches(tags@[w], zettel_id, tag@));
            assert(false);
        }
    }
    None
}

/// Under unique keys, the matching row's index is the index of any match.
proof fn lemma_tag_index_unique(tags: Seq<ZettelTag>, j: int, zettel_id: i64, tag: Seq<char>)
    requires
        tag_keys_unique(tags),
        0 <= j < tags.len(),
        tag_key_matches(tags[j], zettel_id, tag),
    ensures
        has_tag_row(tags, zettel_id, tag),
        tag_row_index(tags, zettel_id, tag) == j,
{
    assert(has_tag_row(tags, zettel_id, tag));
    let jj = tag_row_index(tags, zettel_id, tag);
    assert(0 <= jj < tags.len() && tag_key_matches(tags[jj], zettel_id, tag));
    if jj < j {
        assert(!(tags[jj].zettel_id == tags[j].zettel_id && tags[jj].tag@ == tags[j].tag@));
        assert(false);
    } else if j < jj {
        assert(!(tags[j].zettel_id == tags[jj].zettel_id && tags[j].tag@ == tags[jj].tag@));
        assert(false);
    }
}

} // verus!
