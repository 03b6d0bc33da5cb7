use vstd::prelude::*;

pub mod app;
pub mod common;
pub mod datetime;
pub mod develop;
pub mod input;
pub mod iterate;
pub mod laws;
pub mod llm;
pub mod main_menu;
pub mod model;
pub mod recent;
pub mod search;
pub mod similar;
pub mod store;
pub mod text;

use crate::model::{Article, Zettel};
use crate::store::{Store, StoreError, MAX_ROWS};

verus! {

/// Settings read at startup; the store location and the embedding
/// collaborator's coordinates.
pub struct AppConfig {
    pub data_dir: Option<String>,
    pub api_base: String,
    pub api_key: String,
    pub embeddings_model: String,
}

/// The text a new note's editing session starts from: the parents'
/// contents, separated by blank lines.
pub open spec fn combined_contents(zettels: Seq<Zettel>) -> Seq<char>
    decreases zettels.len(),
{
    if zettels.len() == 0 {
        Seq::empty()
    } else if zettels.len() == 1 {
        zettels[0].content@
    } else {
        combined_contents(zettels.drop_last()) + "\n\n"@ + zettels.last().content@
    }
}

/// Joins the parents' contents with blank lines, oldest first.
pub fn combine_zettel_contents(zettels: Vec<Zettel>) -> (r: String)
    ensures
        r@ == combined_contents(zettels@),
{
    let mut s = String::new();
    let n = zettels.len();
    let mut i: usize = 0;
    while i < n
        invariant
            0 <= i <= n,
            n == zettels@.len(),
            s@ == combined_contents(zettels@.take(i as int)),
        decreases n - i,
    {
        proof {
            assert(zettels@.take(i + 1).drop_last() == zettels@.take(i as int));
            assert(zettels@.take(i + 1).last() == zettels@[i as int]);
        }
        let ghost pre = s@;
        if i > 0 {
            s.append("\n\n");
        }
        s.append(zettels[i].content.as_str());
        proof {
            if i == 0 {
                assert(s@ =~= zettels@[0].content@);
                assert(combined_contents(zettels@.take(1)) == zettels@.take(1)[0].content@);
            } else {
                assert(s@ =~= pre + "\n\n"@ + zettels@[i as int].content@);
            }
        }
        i += 1;
    }
    proof {
        assert(zettels@.take(n as int) == zettels@);
    }
    s
}

/// Saving `content` against these parents is a no-op: the text is empty, or
/// there is exactly one parent and the text equals its content.
pub open spec fn save_is_noop(content: Seq<char>, parents: Seq<Zettel>) -> bool {
    ||| content.len() == 0
    ||| (parents.len() == 1 && parents[0].content@ == content)
}

/// The note-creation workflow's guard, decided before any embedding is
/// computed: an edit that changed nothing, or emptied the buffer, writes
/// nothing.
pub fn creation_skipped(content: &String, parents: &Vec<Zettel>) -> (b: bool)
    ensures
        b == save_is_noop(content@, parents@),
{
    if content.as_str().is_empty() {
        return true;
    }
    if parents.len() == 1 {
        if parents[0].content == *content {
            return true;
        }
    }
    false
}

/// Publishes a note's current content as an article under `title`.
pub fn promote_zettel(store: &mut Store, zettel: &Zettel, title: String, now: i64) -> (r: Result<
    Article,
    StoreError,
>)
    requires
        old(store).wf(),
    ensures
        final(store).wf(),
        final(store).notes@ == old(store).notes@,
        final(store).embeddings@ == old(store).embeddings@,
        final(store).edges@ == old(store).edges@,
        final(store).tags@ == old(store).tags@,
        match r {
            Ok(a) => {
                &&& old(store).valid_id(zettel.id)
                &&& old(store).articles@.len() < MAX_ROWS
                &&& a.id == old(store).articles@.len() + 1
                &&& a.zettel_id == zettel.id
                &&& a.title == title
                &&& a.created_at == now
                &&& a.content == old(store).notes@[zettel.id - 1].content
                &&& final(store).articles@ == old(store).articles@.push(a)
            },
            Err(e) => {
                &&& final(store).articles@ == old(store).articles@
                &&& (e == StoreError::NotFound ==> !old(store).valid_id(zettel.id))
                &&& (e == StoreError::StoreFault ==> old(store).valid_id(zettel.id) && old(
                    store,
                ).articles@.len() >= MAX_ROWS)
                &&& (e == StoreError::NotFound || e == StoreError::StoreFault)
            },
        },
{
    store.promote(zettel.id, title, now)
}

} // verus!
