use vstd::prelude::*;

use crate::model::{Zettel, ZettelEdge, ZettelTag};
use crate::store::{has_child_row, has_tag_row, in_results, is_cited, note_has_any_tag,
    parent_edges, recent_results, rev_leaves, spec_notes_with_any_tag, spec_remove_tag,
    spec_upsert_tag, tag_key_matches, tag_keys_unique, tag_row_index, Store};

verus! {

// ---------------------------------------------------------------------------
// The self-edge law.
// ---------------------------------------------------------------------------

/// Law: every stored note — created with zero, one, or many parents — has an
/// edge row whose child is that note's id (its root marker or a citation).
pub proof fn lemma_self_edge(s: Store, i: int)
    requires
        s.wf(),
        0 <= i < s.notes@.len(),
    ensures
        has_child_row(s.edges@, s.notes@[i].id),
{
}

// ---------------------------------------------------------------------------
// Tag idempotence laws.
// ---------------------------------------------------------------------------

/// How many rows of `tags` carry `(zettel_id, tag)`.
pub open spec fn tag_count(tags: Seq<ZettelTag>, zettel_id: i64, tag: Seq<char>) -> int
    decreases tags.len(),
{
    if tags.len() == 0 {
        0
    } else {
        tag_count(tags.drop_last(), zettel_id, tag) + if tag_key_matches(
            tags.last(),
            zettel_id,
            tag,
        ) {
            1int
        } else {
            0int
        }
    }
}

/// Under unique keys, a pair is carried by exactly one row or none.
pub proof fn lemma_count_from_unique(tags: Seq<ZettelTag>, zettel_id: i64, tag: Seq<char>)
    requires
        tag_keys_unique(tags),
    ensures
        tag_count(tags, zettel_id, tag) == if has_tag_row(tags, zettel_id, tag) {
            1int
        } else {
            0int
        },
    decreases tags.len(),
{
    if tags.len() > 0 {
        let head = tags.drop_last();
        assert(tag_keys_unique(head)) by {
            assert forall|j: int, k: int|
                0 <= j < k < head.len() implies !(head[j].zettel_id == head[k].zettel_id
                && head[j].tag@ == head[k].tag@) by {
                assert(head[j] == tags[j] && head[k] == tags[k]);
            }
        }
        lemma_count_from_unique(head, zettel_id, tag);
        if tag_key_matches(tags.last(), zettel_id, tag) {
            assert(!has_tag_row(head, zettel_id, tag)) by {
                if has_tag_row(head, zettel_id, tag) {
                    let w = choose|j: int|
                        0 <= j < head.len() && tag_key_matches(head[j], zettel_id, tag);
                    assert(head[w] == tags[w]);
                    assert(!(tags[w].zettel_id == tags[tags.len() - 1].zettel_id && tags[w].tag@
                        == tags[tags.len() - 1].tag@));
                    assert(false);
                }
            }
            assert(has_tag_row(tags, zettel_id, tag)) by {
                assert(tag_key_matches(tags[tags.len() - 1], zettel_id, tag));
            }
        } else {
            assert(has_tag_row(tags, zettel_id, tag) == has_tag_row(head, zettel_id, tag)) by {
                if has_tag_row(tags, zettel_id, tag) {
                    let w = choose|j: int|
                        0 <= j < tags.len() && tag_key_matches(tags[j], zettel_id, tag);
                    assert(w < head.len());
                    assert(head[w] == tags[w]);
                    assert(has_tag_row(head, zettel_id, tag));
                }
                if has_tag_row(head, zettel_id, tag) {
                    let w = choose|j: int|
                        0 <= j < head.len() && tag_key_matches(head[j], zettel_id, tag);
                    assert(tags[w] == head[w]);
                    assert(has_tag_row(tags, zettel_id, tag));
                }
            }
        }
    }
}

/// Upserting keeps keys unique and leaves the upserted pair present.
pub proof fn lemma_upsert_props(tags: Seq<ZettelTag>, row: ZettelTag)
    requires
        tag_keys_unique(tags),
    ensures
        tag_keys_unique(spec_upsert_tag(tags, row)),
        has_tag_row(spec_upsert_tag(tags, row), row.zettel_id, row.tag@),
{
    let res = spec_upsert_tag(tags, row);
    if has_tag_row(tags, row.zettel_id, row.tag@) {
        let j = tag_row_index(tags, row.zettel_id, row.tag@);
        assert(0 <= j < tags.len() && tag_key_matches(tags[j], row.zettel_id, row.tag@));
        assert(tag_key_matches(res[j], row.zettel_id, row.tag@));
        assert(has_tag_row(res, row.zettel_id, row.tag@));
        assert forall|a: int, b: int| 0 <= a < b < res.len() implies !(res[a].zettel_id
            == res[b].zettel_id && res[a].tag@ == res[b].tag@) by {
            if a == j {
                assert(res[b] == tags[b]);
                assert(!(tags[j].zettel_id == tags[b].zettel_id && tags[j].tag@ == tags[b].tag@));
            } else if b == j {
                assert(res[a] == tags[a]);
                assert(!(tags[a].zettel_id == tags[j].zettel_id && tags[a].tag@ == tags[j].tag@));
            } else {
                assert(res[a] == tags[a] && res[b] == tags[b]);
            }
        }
    } else {
        assert(res == tags.push(row));
        assert(tag_key_matches(res[tags.len() as int], row.zettel_id, row.tag@));
        assert(has_tag_row(res, row.zettel_id, row.tag@));
        assert forall|a: int, b: int| 0 <= a < b < res.len() implies !(res[a].zettel_id
            == res[b].zettel_id && res[a].tag@ == res[b].tag@) by {
            if b == tags.len() as int {
                assert(res[a] == tags[a]);
                if tags[a].zettel_id == row.zettel_id && tags[a].tag@ == row.tag@ {
                    assert(tag_key_matches(tags[a], row.zettel_id, row.tag@));
                    assert(has_tag_row(tags, row.zettel_id, row.tag@));
                    assert(false);
                }
            } else {
                assert(res[a] == tags[a] && res[b] == tags[b]);
            }
        }
    }
}

/// Law: adding the same tag to the same note twice — whatever the creation
/// instants of the two calls — leaves exactly one row carrying that pair.
pub proof fn lemma_add_tag_idempotent(tags: Seq<ZettelTag>, first: ZettelTag, second: ZettelTag)
    requires
        tag_keys_unique(tags),
        first.zettel_id == second.zettel_id,
        first.tag@ == second.tag@,
    ensures
        tag_count(
            spec_upsert_tag(spec_upsert_tag(tags, first), second),
            second.zettel_id,
            second.tag@,
        ) == 1,
{
    lemma_upsert_props(tags, first);
    lemma_upsert_props(spec_upsert_tag(tags, first), second);
    lemma_count_from_unique(
        spec_upsert_tag(spec_upsert_tag(tags, first), second),
        second.zettel_id,
        second.tag@,
    );
}

/// Law: removing a tag pair twice equals removing it once — the second
/// removal is a no-op, not an error.
pub proof fn lemma_remove_tag_idempotent(tags: Seq<ZettelTag>, zettel_id: i64, tag: Seq<char>)
    requires
        tag_keys_unique(tags),
    ensures
        spec_remove_tag(spec_remove_tag(tags, zettel_id, tag), zettel_id, tag) == spec_remove_tag(
            tags,
            zettel_id,
            tag,
        ),
{
    if has_tag_row(tags, zettel_id, tag) {
        let j = tag_row_index(tags, zettel_id, tag);
        assert(0 <= j < tags.len() && tag_key_matches(tags[j], zettel_id, tag));
        let t1 = tags.remove(j);
        assert(!has_tag_row(t1, zettel_id, tag)) by {
            if has_tag_row(t1, zettel_id, tag) {
                let w = choose|m: int| 0 <= m < t1.len() && tag_key_matches(t1[m], zettel_id, tag);
                let w0 = if w < j {
                    w
                } else {
                    w + 1
                };
                assert(t1[w] == tags[w0]);
                if w0 < j {
                    assert(!(tags[w0].zettel_id == tags[j].zettel_id && tags[w0].tag@
                        == tags[j].tag@));
                } else {
                    assert(!(tags[j].zettel_id == tags[w0].zettel_id && tags[j].tag@
                        == tags[w0].tag@));
                }
                assert(false);
            }
        }
    }
}

// ---------------------------------------------------------------------------
// The leaf law.
// ---------------------------------------------------------------------------

/// A note id is listed among the recent leaves exactly when a stored note
/// has that id and no edge cites it as a parent.
pub proof fn lemma_rev_leaves_ids(notes: Seq<Zettel>, edges: Seq<ZettelEdge>, id: i64)
    ensures
        in_results(rev_leaves(notes, edges), id) <==> (in_results(notes, id) && !is_cited(
            edges,
            id,
        )),
    decreases notes.len(),
{
    if notes.len() == 0 {
    } else {
        lemma_rev_leaves_ids(notes.drop_last(), edges, id);
        let head = notes.drop_last();
        let last = notes.last();
        let rest = rev_leaves(head, edges);
        let cur = rev_leaves(notes, edges);
        assert(in_results(notes, id) <==> (id == last.id || in_results(head, id))) by {
            if in_results(notes, id) {
                let w = choose|a: int| 0 <= a < notes.len() && notes[a].id == id;
                if w < head.len() {
                    assert(head[w] == notes[w]);
                    assert(in_results(head, id));
                }
            }
            if id == last.id {
                assert(notes[notes.len() - 1].id == id);
            }
            if in_results(head, id) {
                let w = choose|a: int| 0 <= a < head.len() && head[a].id == id;
                assert(notes[w] == head[w]);
            }
        }
        if !is_cited(edges, last.id) {
            assert(cur == seq![last] + rest);
            assert(in_results(cur, id) <==> (id == last.id || in_results(rest, id))) by {
                if in_results(cur, id) {
                    let w = choose|a: int| 0 <= a < cur.len() && cur[a].id == id;
                    if w == 0 {
                        assert(cur[0] == last);
                    } else {
                        assert(cur[w] == rest[w - 1]);
                        assert(in_results(rest, id));
                    }
                }
                if id == last.id {
                    assert(cur[0].id == id);
                }
                if in_results(rest, id) {
                    let w = choose|a: int| 0 <= a < rest.len() && rest[a].id == id;
                    assert(cur[w + 1] == rest[w]);
                }
            }
        } else {
            assert(cur == rest);
        }
    }
}

/// Law: after creating note `a` with no parents and then note `b` citing
/// `a` as its single parent, the recent-leaves listing contains `b` and
/// not `a`.
///
/// The two `notes`/`edges` relations below are exactly what `create_note`
/// ensures for the two creations.
pub proof fn lemma_leaf_invariant(s0: Store, s1: Store, s2: Store, a: Zettel, b: Zettel)
    requires
        s0.wf(),
        a.id == s0.notes@.len() + 1,
        s1.notes@ == s0.notes@.push(a),
        s1.edges@ == s0.edges@.push(ZettelEdge { node_id: a.id, parent_id: None }) + parent_edges(
            a.id,
            Seq::empty(),
        ),
        b.id == s1.notes@.len() + 1,
        s2.notes@ == s1.notes@.push(b),
        s2.edges@ == s1.edges@.push(ZettelEdge { node_id: b.id, parent_id: None }) + parent_edges(
            b.id,
            seq![a.id],
        ),
    ensures
        in_results(rev_leaves(s2.notes@, s2.edges@), b.id),
        !in_results(rev_leaves(s2.notes@, s2.edges@), a.id),
{
    let e2 = s2.edges@;
    let n0 = s0.edges@.len() as int;
    lemma_rev_leaves_ids(s2.notes@, s2.edges@, a.id);
    lemma_rev_leaves_ids(s2.notes@, s2.edges@, b.id);
    assert(e2.len() == n0 + 3);
    assert(e2[e2.len() - 1] == parent_edges(b.id, seq![a.id])[0]);
    assert(e2[e2.len() - 1].parent_id == Some(a.id));
    assert(is_cited(e2, a.id));
    assert(s2.notes@[s2.notes@.len() - 1].id == b.id);
    assert(in_results(s2.notes@, b.id));
    assert(!is_cited(e2, b.id)) by {
        if is_cited(e2, b.id) {
            let w = choose|k: int| 0 <= k < e2.len() && e2[k].parent_id == Some(b.id);
            if w < n0 {
                assert(e2[w] == s0.edges@[w]);
                assert(1 <= b.id <= s0.notes@.len());
                assert(false);
            } else if w == n0 {
                assert(e2[w] == ZettelEdge { node_id: a.id, parent_id: None });
                assert(false);
            } else if w == n0 + 1 {
                assert(e2[w] == ZettelEdge { node_id: b.id, parent_id: None });
                assert(false);
            } else {
                assert(e2[w].parent_id == Some(a.id));
                assert(a.id != b.id);
                assert(false);
            }
        }
    }
}

/// Under adjacent-monotone creation times, any earlier note is at most as
/// new as any later one.
proof fn lemma_time_chain(notes: Seq<Zettel>, i: int, j: int)
    requires
        forall|m: int|
            0 <= m < notes.len() - 1 ==> (#[trigger] notes[m]).created_at <= notes[m
                + 1].created_at,
        0 <= i <= j < notes.len(),
    ensures
        notes[i].created_at <= notes[j].created_at,
    decreases j - i,
{
    if i < j {
        lemma_time_chain(notes, i, j - 1);
        assert(notes[j - 1].created_at <= notes[j].created_at);
    }
}

/// Under dense ids, the leaves listing holds stored notes in strictly
/// descending id order.
proof fn lemma_rev_leaves_descending(notes: Seq<Zettel>, edges: Seq<ZettelEdge>)
    requires
        forall|i: int| 0 <= i < notes.len() ==> (#[trigger] notes[i]).id == i + 1,
    ensures
        forall|a: int|
            0 <= a < rev_leaves(notes, edges).len() ==> 1 <= (#[trigger] rev_leaves(
                notes,
                edges,
            )[a]).id <= notes.len() && rev_leaves(notes, edges)[a] == notes[rev_leaves(
                notes,
                edges,
            )[a].id - 1],
        forall|a: int, b: int|
            0 <= a < b < rev_leaves(notes, edges).len() ==> rev_leaves(notes, edges)[a].id
                > rev_leaves(notes, edges)[b].id,
    decreases notes.len(),
{
    if notes.len() > 0 {
        let head = notes.drop_last();
        let last = notes.last();
        assert(forall|i: int| 0 <= i < head.len() ==> (#[trigger] head[i]).id == i + 1) by {
            assert(forall|i: int| 0 <= i < head.len() ==> head[i] == notes[i]);
        }
        lemma_rev_leaves_descending(head, edges);
        let rest = rev_leaves(head, edges);
        let cur = rev_leaves(notes, edges);
        if !is_cited(edges, last.id) {
            assert(cur == seq![last] + rest);
            assert forall|a: int|
                0 <= a < cur.len() implies 1 <= (#[trigger] cur[a]).id <= notes.len() && cur[a]
                == notes[cur[a].id - 1] by {
                if a == 0 {
                    assert(cur[0] == last);
                    assert(last.id == notes.len());
                } else {
                    assert(cur[a] == rest[a - 1]);
                    assert(head[cur[a].id - 1] == notes[cur[a].id - 1]);
                }
            }
            assert forall|a: int, b: int|
                0 <= a < b < cur.len() implies cur[a].id > cur[b].id by {
                if a == 0 {
                    assert(cur[0] == last);
                    assert(cur[b] == rest[b - 1]);
                    assert(rest[b - 1].id <= head.len());
                } else {
                    assert(cur[a] == rest[a - 1] && cur[b] == rest[b - 1]);
                }
            }
        } else {
            assert(cur == rest);
            assert forall|a: int|
                0 <= a < cur.len() implies 1 <= (#[trigger] cur[a]).id <= notes.len() && cur[a]
                == notes[cur[a].id - 1] by {
                assert(cur[a] == rest[a]);
                assert(head[cur[a].id - 1] == notes[cur[a].id - 1]);
            }
        }
    }
}

/// Law: the recent listing is ordered by creation time, newest first
/// (descending, with ties allowed).
pub proof fn lemma_recent_listing_descending(s: Store, n: usize, r: Seq<Zettel>)
    requires
        s.wf(),
        recent_results(s, n as int, r),
    ensures
        forall|a: int, b: int|
            0 <= a <= b < r.len() ==> r[a].created_at >= r[b].created_at,
{
    lemma_rev_leaves_descending(s.notes@, s.edges@);
    let rl = rev_leaves(s.notes@, s.edges@);
    assert forall|a: int, b: int|
        0 <= a <= b < r.len() implies r[a].created_at >= r[b].created_at by {
        assert(r[a] == rl[a] && r[b] == rl[b]);
        if a < b {
            assert(rl[a].id > rl[b].id);
            assert(rl[a] == s.notes@[rl[a].id - 1]);
            assert(rl[b] == s.notes@[rl[b].id - 1]);
            lemma_time_chain(s.notes@, rl[b].id - 1, rl[a].id - 1);
        }
    }
}

// ---------------------------------------------------------------------------
// The tag-filter laws.
// ---------------------------------------------------------------------------

/// A note id is selected by the tag filter exactly when a stored note has
/// that id and carries one of the wanted tags.
pub proof fn lemma_filter_ids(
    notes: Seq<Zettel>,
    tags: Seq<ZettelTag>,
    wanted: Seq<Seq<char>>,
    id: i64,
)
    ensures
        in_results(spec_notes_with_any_tag(notes, tags, wanted), id) <==> exists|a: int|
            0 <= a < notes.len() && (#[trigger] notes[a]).id == id && note_has_any_tag(
                tags,
                id,
                wanted,
            ),
    decreases notes.len(),
{
    if notes.len() == 0 {
    } else {
        lemma_filter_ids(notes.drop_last(), tags, wanted, id);
        let head = notes.drop_last();
        let last = notes.last();
        let rest = spec_notes_with_any_tag(head, tags, wanted);
        let cur = spec_notes_with_any_tag(notes, tags, wanted);
        assert((exists|a: int|
            0 <= a < notes.len() && (#[trigger] notes[a]).id == id) <==> (id == last.id || exists|
            a: int,
        |
            0 <= a < head.len() && (#[trigger] head[a]).id == id)) by {
            if exists|a: int| 0 <= a < notes.len() && (#[trigger] notes[a]).id == id {
                let w = choose|a: int| 0 <= a < notes.len() && (#[trigger] notes[a]).id == id;
                if w < head.len() {
                    assert(head[w] == notes[w]);
                }
            }
            if id == last.id {
                assert(notes[notes.len() - 1].id == id);
            }
            if exists|a: int| 0 <= a < head.len() && (#[trigger] head[a]).id == id {
                let w = choose|a: int| 0 <= a < head.len() && (#[trigger] head[a]).id == id;
                assert(notes[w] == head[w]);
            }
        }
        if note_has_any_tag(tags, last.id, wanted) {
            assert(cur == rest.push(last));
            assert(in_results(cur, id) <==> (id == last.id || in_results(rest, id))) by {
                if in_results(cur, id) {
                    let w = choose|a: int| 0 <= a < cur.len() && cur[a].id == id;
                    if w < rest.len() {
                        assert(cur[w] == rest[w]);
                    }
                }
                if id == last.id {
                    assert(cur[cur.len() - 1].id == id);
                }
                if in_results(rest, id) {
                    let w = choose|a: int| 0 <= a < rest.len() && rest[a].id == id;
                    assert(cur[w] == rest[w]);
                }
            }
        } else {
            assert(cur == rest);
            if in_results(rest, id) && id == last.id {
            }
        }
    }
}

/// Law: filtering by an empty tag set selects no notes — not all of them.
pub proof fn lemma_filter_empty_tags(notes: Seq<Zettel>, tags: Seq<ZettelTag>)
    ensures
        spec_notes_with_any_tag(notes, tags, Seq::empty()) == Seq::<Zettel>::empty(),
    decreases notes.len(),
{
    if notes.len() > 0 {
        lemma_filter_empty_tags(notes.drop_last(), tags);
        assert(!note_has_any_tag(tags, notes.last().id, Seq::empty()));
    }
}

} // verus!
