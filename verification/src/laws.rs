//! Store-level laws: how the operations' contracts compose across calls.

use vstd::prelude::*;

use crate::model::{Entry, EntryModel};
use crate::store::{by_id, lemma_filter_none, not_id, EntryStore};
use vstd::std_specs::cmp::PartialEqSpec;

verus! {

/// Law: after a deletion by id, a find by that id yields nothing. A deleted
/// row's id matches no remaining row, so filtering the deletion's result for
/// that id gives the empty sequence.
pub proof fn lemma_delete_then_find_id_empty(s: Seq<EntryModel>, id: int)
    ensures
        s.filter(not_id(id)).filter(by_id(id)) == Seq::<EntryModel>::empty(),
{
    let f = s.filter(not_id(id));
    assert forall|j: int| 0 <= j < f.len() implies !(by_id(id)(#[trigger] f[j])) by {
        s.lemma_filter_pred(not_id(id), j);
    }
    lemma_filter_none(f, by_id(id));
}

/// Law: a created row round-trips. When a well-formed store gains one row
/// carrying the store's next id, a find by that id on the result yields
/// exactly that row, every field unchanged.
pub proof fn lemma_create_then_find_id(pre: EntryStore, post: EntryStore, e: EntryModel)
    requires
        pre.wf(),
        e.id == pre.next(),
        post.rows_model() == pre.rows_model().push(e),
    ensures
        post.rows_model().filter(by_id(e.id)) == seq![e],
{
    let s = pre.rows_model();
    assert(forall|j: int| 0 <= j < s.len() ==> !(by_id(e.id)((#[trigger] s[j]))));
    lemma_filter_none(s, by_id(e.id));
    reveal(Seq::filter);
    assert(s.push(e).drop_last() =~= s);
    assert(s.push(e).last() == e);
    assert(s.push(e).filter(by_id(e.id)) =~= seq![e]);
}

/// Law: in-memory candidate entries compare by content alone. Two
/// candidates are equal under `==` exactly when every field agrees, since a
/// candidate carries no id.
pub proof fn lemma_candidates_compare_by_content(a: Entry, b: Entry)
    ensures
        a.eq_spec(&b) <==> a@ == b@,
{
}

/// Law: at the store level records are distinct per row, not per content.
/// Two rows of a well-formed store at different positions are distinct
/// values, whatever their candidate fields, because their ids differ.
pub proof fn lemma_rows_distinct(store: EntryStore, i: int, j: int)
    requires
        store.wf(),
        0 <= i < store.rows_model().len(),
        0 <= j < store.rows_model().len(),
        i != j,
    ensures
        store.rows_model()[i] != store.rows_model()[j],
{
    if i < j {
        assert(store.rows_model()[i].id != store.rows_model()[j].id);
    } else {
        assert(store.rows_model()[j].id != store.rows_model()[i].id);
    }
}

} // verus!
