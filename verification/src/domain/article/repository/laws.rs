//! What holds of the repository's operations on every table.

use vstd::prelude::*;

use super::delete::delete_result;
use super::get_detail::detail_result;
use super::resource_name;
use super::table::{
    lemma_delete_keeps_wf, lemma_position, lemma_update_keeps_wf, replaced, revised, TableView,
};
use super::update::{names_a_column, update_effect, update_result};
use crate::domain::article::entity::ArticleView;
use crate::global::errors::{ErrorKind, ErrorView};

verus! {

/// The failure that says that the article is missing.
pub open spec fn not_found() -> ErrorView {
    ErrorView { kind: ErrorKind::NotFound, text: resource_name() }
}

/// The failure that says that the caller does not own the article.
pub open spec fn unauthorized() -> ErrorView {
    ErrorView { kind: ErrorKind::Unauthorized, text: resource_name() }
}

/// After its writer deleted an article, no row has its id, and every other
/// article is found as before.
pub proof fn lemma_delete_removes_one(table: TableView, owner: i64, id: i64, other: i64)
    requires
        table.wf(),
        table.owns(owner, id),
    ensures
        !table.delete(owner, id).holds(id),
        other != id ==> table.delete(owner, id).find(other) == table.find(other),
{
    let at = table.position(id);
    let after = table.delete(owner, id);
    assert(0 <= at < table.rows.len() && table.rows[at].id == Some(id));
    assert forall|i: int| 0 <= i < after.rows.len() implies (#[trigger] after.rows[i]).id != Some(
        id,
    ) by {
        let before = if i < at { i } else { i + 1 };
        assert(after.rows[i] == table.rows[before]);
        if table.rows[before].id == Some(id) {
            lemma_position(table, id, before);
        }
    }
    lemma_delete_keeps_wf(table, owner, id);
    if other != id {
        if table.holds(other) {
            let there = table.position(other);
            assert(0 <= there < table.rows.len() && table.rows[there].id == Some(other));
            let now = if there < at { there } else { there - 1 };
            assert(after.rows[now] == table.rows[there]);
            lemma_position(after, other, now);
        } else if after.holds(other) {
            let now = after.position(other);
            assert(0 <= now < after.rows.len() && after.rows[now].id == Some(other));
            let there = if now < at { now } else { now + 1 };
            assert(after.rows[now] == table.rows[there]);
            lemma_position(table, other, there);
        }
    }
}

/// After its writer updated an article, it is found with the columns that
/// were sent replaced, and every other article is found as before.
pub proof fn lemma_update_revises_one(
    table: TableView,
    owner: i64,
    id: i64,
    title: Option<Seq<char>>,
    content: Option<Seq<char>>,
    other: i64,
)
    requires
        table.wf(),
        table.owns(owner, id),
    ensures
        table.update(owner, id, title, content).find(id) == Some(
            revised(table.find(id)->0, title, content),
        ),
        other != id ==> table.update(owner, id, title, content).find(other) == table.find(other),
{
    let at = table.position(id);
    let after = table.update(owner, id, title, content);
    assert(0 <= at < table.rows.len() && table.rows[at].id == Some(id));
    lemma_update_keeps_wf(table, owner, id, title, content);
    assert(after.rows[at].id == Some(id));
    lemma_position(after, id, at);
    if other != id {
        if table.holds(other) {
            let there = table.position(other);
            assert(0 <= there < table.rows.len() && table.rows[there].id == Some(other));
            assert(after.rows[there] == table.rows[there]);
            lemma_position(after, other, there);
        } else if after.holds(other) {
            let now = after.position(other);
            assert(0 <= now < after.rows.len() && after.rows[now].id == Some(other));
            assert(after.rows[now].id == table.rows[now].id);
            lemma_position(table, other, now);
        }
    }
}

/// The writer of an existing article always succeeds in deleting it: one row
/// is affected, and the article is missing for every later read and for
/// every later delete, whoever asks.
pub proof fn lemma_owner_deletes(table: TableView, owner: i64, id: i64, later: i64)
    requires
        table.wf(),
        table.owns(owner, id),
    ensures
        table.outcome(owner, id).affected == 1,
        delete_result(table, owner, id) == Ok::<(), ErrorView>(()),
        detail_result(table.delete(owner, id), id) == Err::<ArticleView, ErrorView>(not_found()),
        delete_result(table.delete(owner, id), later, id) == Err::<(), ErrorView>(not_found()),
{
    lemma_delete_removes_one(table, owner, id, id);
}

/// Of two deletes of one article that the store handles one after the
/// other, in either order and whoever the callers are, at most one succeeds;
/// and one by a caller who is not the writer never does.
pub proof fn lemma_one_delete_succeeds(table: TableView, first: i64, second: i64, id: i64)
    requires
        table.wf(),
    ensures
        !(delete_result(table, first, id) is Ok && delete_result(
            table.delete(first, id),
            second,
            id,
        ) is Ok),
        !table.owns(first, id) ==> delete_result(table, first, id) is Err,
{
    if table.owns(first, id) {
        lemma_delete_removes_one(table, first, id, id);
    }
}

/// A delete or an update of an article that does not exist answers that it
/// is missing, never that the caller lacks the right, whoever the caller is;
/// and the table stays as it is. (An update that names no column is refused
/// as invalid before any article is looked at.)
pub proof fn lemma_missing_comes_first(
    table: TableView,
    caller: i64,
    id: i64,
    title: Option<Seq<char>>,
    content: Option<Seq<char>>,
)
    requires
        !table.holds(id),
    ensures
        delete_result(table, caller, id) == Err::<(), ErrorView>(not_found()),
        table.delete(caller, id) == table,
        names_a_column(title, content) ==> update_result(table, caller, id, title, content)
            == Err::<(), ErrorView>(not_found()),
        update_effect(table, caller, id, title, content) == table,
{
}

/// A delete or an update of an existing article by a caller who did not
/// write it answers that the caller lacks the right, and the table stays as
/// it is: every read returns what it returned before. (An update that names
/// no column is refused as invalid before any article is looked at.)
pub proof fn lemma_others_are_refused(
    table: TableView,
    caller: i64,
    id: i64,
    title: Option<Seq<char>>,
    content: Option<Seq<char>>,
)
    requires
        table.holds(id),
        !table.owns(caller, id),
    ensures
        delete_result(table, caller, id) == Err::<(), ErrorView>(unauthorized()),
        table.delete(caller, id) == table,
        names_a_column(title, content) ==> update_result(table, caller, id, title, content)
            == Err::<(), ErrorView>(unauthorized()),
        update_effect(table, caller, id, title, content) == table,
        detail_result(update_effect(table, caller, id, title, content), id) == detail_result(
            table,
            id,
        ),
        detail_result(table.delete(caller, id), id) == detail_result(table, id),
{
}

/// An update by the writer replaces the columns that the request names and
/// no other: with a title alone the content stays, with a content alone the
/// title stays, with both, both change. The id and the writer stay.
pub proof fn lemma_update_is_partial(
    table: TableView,
    owner: i64,
    id: i64,
    title: Option<Seq<char>>,
    content: Option<Seq<char>>,
)
    requires
        table.wf(),
        table.owns(owner, id),
        names_a_column(title, content),
    ensures
        update_result(table, owner, id, title, content) == Ok::<(), ErrorView>(()),
        table.find(id) is Some,
        detail_result(update_effect(table, owner, id, title, content), id) == Ok::<
            ArticleView,
            ErrorView,
        >(
            ArticleView {
                id: Some(id),
                title: replaced(table.find(id)->0.title, title),
                content: replaced(table.find(id)->0.content, content),
                writer_id: owner,
            },
        ),
{
    lemma_update_revises_one(table, owner, id, title, content, id);
    let at = table.position(id);
    assert(0 <= at < table.rows.len() && table.rows[at].id == Some(id));
}

/// An update that fails changes nothing: every read returns the entity that
/// it returned before the attempt.
pub proof fn lemma_failed_update_keeps_all(
    table: TableView,
    caller: i64,
    id: i64,
    title: Option<Seq<char>>,
    content: Option<Seq<char>>,
    read: i64,
)
    requires
        update_result(table, caller, id, title, content) is Err,
    ensures
        update_effect(table, caller, id, title, content) == table,
        detail_result(update_effect(table, caller, id, title, content), read) == detail_result(
            table,
            read,
        ),
{
}

} // verus!
