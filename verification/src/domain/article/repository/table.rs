//! The article table held in memory: the store that the repository talks
//! to where no database is at hand, and the model of what each statement does.

use vstd::prelude::*;

use super::{MutationOutcome, OutcomeView};
use crate::domain::article::dto::request::edit::text_of;
use crate::domain::article::entity::{Article, ArticleView};
use crate::global::errors::{StoreFailure, StoreFailureKind};

verus! {

/// The table as contracts see it.
pub ghost struct TableView {
    /// The rows, in the order in which they were inserted.
    pub rows: Seq<ArticleView>,
    /// The caller identities that a row's writer may refer to.
    pub writers: Set<i64>,
    /// The id that the next inserted row gets.
    pub next_id: int,
}

impl TableView {
    /// Every row has an id that was assigned before `next_id`, ids grow with
    /// the rows, so that none occurs twice, and every writer is known.
    pub open spec fn wf(self) -> bool {
        &&& 1 <= self.next_id <= i64::MAX
        &&& forall|i: int|
            0 <= i < self.rows.len() ==> {
                &&& (#[trigger] self.rows[i]).id is Some
                &&& 1 <= self.rows[i].id->0 < self.next_id
                &&& self.writers.contains(self.rows[i].writer_id)
            }
        &&& forall|i: int, j: int|
            0 <= i < j < self.rows.len() ==> (#[trigger] self.rows[i]).id->0 < (
            #[trigger] self.rows[j]).id->0
    }

    /// Whether a row has the id `id`.
    pub open spec fn holds(self, id: i64) -> bool {
        exists|i: int| 0 <= i < self.rows.len() && (#[trigger] self.rows[i]).id == Some(id)
    }

    /// Where the row with the id `id` stands, if there is one.
    pub open spec fn position(self, id: i64) -> int {
        choose|i: int| 0 <= i < self.rows.len() && (#[trigger] self.rows[i]).id == Some(id)
    }

    /// The row with the id `id`, if there is one.
    pub open spec fn find(self, id: i64) -> Option<ArticleView> {
        if self.holds(id) {
            Some(self.rows[self.position(id)])
        } else {
            None
        }
    }

    /// Whether the row with the id `id` is there and `caller` wrote it.
    pub open spec fn owns(self, caller: i64, id: i64) -> bool {
        self.holds(id) && self.rows[self.position(id)].writer_id == caller
    }

    /// What one ownership-checked mutation observes and does.
    pub open spec fn outcome(self, caller: i64, id: i64) -> OutcomeView {
        OutcomeView {
            exists: self.holds(id),
            authorized: self.owns(caller, id),
            affected: if self.owns(caller, id) {
                1
            } else {
                0
            },
        }
    }

    /// Whether `article` can be inserted: its writer is known and an id is
    /// left for it.
    pub open spec fn accepts(self, article: ArticleView) -> bool {
        self.writers.contains(article.writer_id) && self.next_id < i64::MAX
    }

    /// The table after `article` was inserted under the next id.
    pub open spec fn insert(self, article: ArticleView) -> TableView {
        TableView {
            rows: self.rows.push(ArticleView { id: Some(self.next_id as i64), ..article }),
            next_id: self.next_id + 1,
            ..self
        }
    }

    /// The table after `caller` asked to delete the row `id`: without that
    /// row if `caller` wrote it, and unchanged otherwise.
    pub open spec fn delete(self, caller: i64, id: i64) -> TableView {
        if self.owns(caller, id) {
            TableView { rows: self.rows.remove(self.position(id)), ..self }
        } else {
            self
        }
    }

    /// The table after `caller` asked to update the row `id`: with the
    /// columns that are there replaced if `caller` wrote it, and unchanged
    /// otherwise.
    pub open spec fn update(
        self,
        caller: i64,
        id: i64,
        title: Option<Seq<char>>,
        content: Option<Seq<char>>,
    ) -> TableView {
        if self.owns(caller, id) {
            let at = self.position(id);
            TableView { rows: self.rows.update(at, revised(self.rows[at], title, content)), ..self }
        } else {
            self
        }
    }
}

/// The field after an update: the new text if there is one, else the old.
pub open spec fn replaced(old_text: Seq<char>, new_text: Option<Seq<char>>) -> Seq<char> {
    match new_text {
        Some(text) => text,
        None => old_text,
    }
}

/// The row after an update of the columns that are there. Its id and its
/// writer stay.
pub open spec fn revised(
    row: ArticleView,
    title: Option<Seq<char>>,
    content: Option<Seq<char>>,
) -> ArticleView {
    ArticleView {
        title: replaced(row.title, title),
        content: replaced(row.content, content),
        ..row
    }
}

/// In a well-formed table a row is found where it stands.
pub proof fn lemma_position(table: TableView, id: i64, at: int)
    requires
        table.wf(),
        0 <= at < table.rows.len(),
        table.rows[at].id == Some(id),
    ensures
        table.holds(id),
        table.position(id) == at,
        table.find(id) == Some(table.rows[at]),
{
    let found = table.position(id);
    assert(0 <= found < table.rows.len() && table.rows[found].id == Some(id));
    if found < at {
        assert(table.rows[found].id->0 < table.rows[at].id->0);
    } else if at < found {
        assert(table.rows[at].id->0 < table.rows[found].id->0);
    }
}

/// Inserting an article that the table accepts keeps the table well formed.
pub proof fn lemma_insert_keeps_wf(table: TableView, article: ArticleView)
    requires
        table.wf(),
        table.accepts(article),
    ensures
        table.insert(article).wf(),
{
    let after = table.insert(article);
    assert forall|i: int| 0 <= i < after.rows.len() implies {
        &&& (#[trigger] after.rows[i]).id is Some
        &&& 1 <= after.rows[i].id->0 < after.next_id
        &&& after.writers.contains(after.rows[i].writer_id)
    } by {
        if i < table.rows.len() {
            assert(after.rows[i] == table.rows[i]);
        }
    }
    assert forall|i: int, j: int| 0 <= i < j < after.rows.len() implies (
    #[trigger] after.rows[i]).id->0 < (#[trigger] after.rows[j]).id->0 by {
        assert(after.rows[i] == table.rows[i]);
        if j < table.rows.len() {
            assert(after.rows[j] == table.rows[j]);
        }
    }
}

/// A delete keeps the table well formed, whoever asks for it.
pub proof fn lemma_delete_keeps_wf(table: TableView, caller: i64, id: i64)
    requires
        table.wf(),
    ensures
        table.delete(caller, id).wf(),
{
    if table.owns(caller, id) {
        let at = table.position(id);
        let after = table.delete(caller, id);
        assert forall|i: int| 0 <= i < after.rows.len() implies {
            &&& (#[trigger] after.rows[i]).id is Some
            &&& 1 <= after.rows[i].id->0 < after.next_id
            &&& after.writers.contains(after.rows[i].writer_id)
        } by {
            let before = if i < at { i } else { i + 1 };
            assert(after.rows[i] == table.rows[before]);
        }
        assert forall|i: int, j: int| 0 <= i < j < after.rows.len() implies (
        #[trigger] after.rows[i]).id->0 < (#[trigger] after.rows[j]).id->0 by {
            let before_i = if i < at { i } else { i + 1 };
            let before_j = if j < at { j } else { j + 1 };
            assert(after.rows[i] == table.rows[before_i]);
            assert(after.rows[j] == table.rows[before_j]);
        }
    }
}

/// An update keeps the table well formed, whoever asks for it.
pub proof fn lemma_update_keeps_wf(
    table: TableView,
    caller: i64,
    id: i64,
    title: Option<Seq<char>>,
    content: Option<Seq<char>>,
)
    requires
        table.wf(),
    ensures
        table.update(caller, id, title, content).wf(),
{
    if table.owns(caller, id) {
        let after = table.update(caller, id, title, content);
        assert forall|i: int| 0 <= i < after.rows.len() implies {
            &&& (#[trigger] after.rows[i]).id is Some
            &&& 1 <= after.rows[i].id->0 < after.next_id
            &&& after.writers.contains(after.rows[i].writer_id)
        } by {
            assert(after.rows[i].id == table.rows[i].id);
            assert(after.rows[i].writer_id == table.rows[i].writer_id);
        }
        assert forall|i: int, j: int| 0 <= i < j < after.rows.len() implies (
        #[trigger] after.rows[i]).id->0 < (#[trigger] after.rows[j]).id->0 by {
            assert(after.rows[i].id == table.rows[i].id);
            assert(after.rows[j].id == table.rows[j].id);
        }
    }
}

/// What the table answers where an article's writer is not known.
pub const UNKNOWN_WRITER: &'static str =
    "insert on table \"tb_article\" violates foreign key constraint on writer_id";

/// What the table answers where no id is left for a new row.
pub const IDS_EXHAUSTED: &'static str = "reached maximum value of sequence of tb_article";

/// What the table answers where a statement that must return a row finds
/// none.
pub const NO_ROWS: &'static str = "no rows returned by a query that expected to return at least one row";

/// The views of the rows.
pub open spec fn views(rows: Seq<Article>) -> Seq<ArticleView> {
    rows.map_values(|article: Article| article@)
}

pub struct ArticleTable {
    rows: Vec<Article>,
    writers: Vec<i64>,
    next_id: i64,
}

impl View for ArticleTable {
    type V = TableView;

    closed spec fn view(&self) -> TableView {
        TableView {
            rows: views(self.rows@),
            writers: self.writers@.to_set(),
            next_id: self.next_id as int,
        }
    }
}

impl ArticleTable {
    /// The invariant of the table, which holds of every table there is.
    #[verifier::type_invariant]
    pub open spec fn wf(&self) -> bool {
        self@.wf()
    }

    /// An empty table whose articles may be written by `writers`. The first
    /// article gets the id 1.
    pub fn new(writers: Vec<i64>) -> (table: Self)
        ensures
            table.wf(),
            table@ == (TableView { rows: Seq::empty(), writers: writers@.to_set(), next_id: 1 }),
    {
        let table = ArticleTable { rows: Vec::new(), writers, next_id: 1 };
        assert(table@.rows =~= Seq::empty());
        table
    }

    /// How many rows the table holds.
    pub fn len(&self) -> (len: usize)
        ensures
            len == self@.rows.len(),
    {
        self.rows.len()
    }

    fn knows(&self, writer: i64) -> (known: bool)
        ensures
            known == self@.writers.contains(writer),
    {
        let mut i: usize = 0;
        while i < self.writers.len()
            invariant
                i <= self.writers.len(),
                forall|k: int| 0 <= k < i ==> self.writers@[k] != writer,
            decreases self.writers.len() - i,
        {
            if self.writers[i] == writer {
                assert(self.writers@.contains(writer));
                return true;
            }
            i += 1;
        }
        assert(!self.writers@.contains(writer));
        false
    }

    fn locate(&self, id: i64) -> (at: Option<usize>)
        ensures
            self@.wf(),
            match at {
                Some(i) => i < self@.rows.len() && self@.holds(id) && self@.position(id) == i,
                None => !self@.holds(id),
            },
    {
        proof {
            use_type_invariant(self);
        }
        let mut i: usize = 0;
        while i < self.rows.len()
            invariant
                i <= self.rows.len(),
                self@.wf(),
                forall|k: int| 0 <= k < i ==> (#[trigger] self@.rows[k]).id != Some(id),
            decreases self.rows.len() - i,
        {
            let row_id = self.rows[i].get_id();
            assert(self@.rows[i as int] == self.rows@[i as int]@);
            if row_id == Some(id) {
                proof {
                    lemma_position(self@, id, i as int);
                }
                return Some(i);
            }
            i += 1;
        }
        None
    }

    /// Inserts `article` under the next id, whatever id it came with.
    pub fn insert(&mut self, article: Article) -> (reply: Result<i64, StoreFailure>)
        ensures
            old(self).wf(),
            final(self).wf(),
            match reply {
                Ok(id) => {
                    &&& old(self)@.accepts(article@)
                    &&& id == old(self)@.next_id
                    &&& final(self)@ == old(self)@.insert(article@)
                },
                Err(failure) => {
                    &&& !old(self)@.accepts(article@)
                    &&& final(self)@ == old(self)@
                    &&& failure.kind == StoreFailureKind::Database
                    &&& failure.detail@ == if old(self)@.writers.contains(article@.writer_id) {
                        IDS_EXHAUSTED@
                    } else {
                        UNKNOWN_WRITER@
                    }
                },
            },
    {
        proof {
            use_type_invariant(&*self);
        }
        if !self.knows(article.get_writer()) {
            return Err(
                StoreFailure { kind: StoreFailureKind::Database, detail: UNKNOWN_WRITER.to_owned() },
            );
        }
        if self.next_id == i64::MAX {
            return Err(
                StoreFailure { kind: StoreFailureKind::Database, detail: IDS_EXHAUSTED.to_owned() },
            );
        }
        let id = self.next_id;
        let ghost before = self@;
        let ghost row = article@;
        proof {
            lemma_insert_keeps_wf(before, row);
        }
        // The rows change outside the table, so that the table is whole at
        // every step.
        let mut rows: Vec<Article> = Vec::new();
        core::mem::swap(&mut self.rows, &mut rows);
        rows.push(article.id(id));
        self.next_id = id + 1;
        assert(views(rows@) =~= before.insert(row).rows);
        core::mem::swap(&mut self.rows, &mut rows);
        Ok(id)
    }

    /// The row with the id `id`.
    pub fn select(&self, id: i64) -> (reply: Result<Article, StoreFailure>)
        ensures
            self.wf(),
            match reply {
                Ok(article) => self@.find(id) == Some(article@),
                Err(failure) => {
                    &&& !self@.holds(id)
                    &&& failure.kind == StoreFailureKind::RowNotFound
                    &&& failure.detail@ == NO_ROWS@
                },
            },
    {
        match self.locate(id) {
            Some(i) => {
                let article = self.rows[i].clone();
                assert(self@.rows[i as int] == self.rows@[i as int]@);
                Ok(article)
            },
            None => Err(
                StoreFailure { kind: StoreFailureKind::RowNotFound, detail: NO_ROWS.to_owned() },
            ),
        }
    }

    /// All rows, in the order in which they were inserted.
    pub fn select_all(&self) -> (articles: Vec<Article>)
        ensures
            self.wf(),
            views(articles@) == self@.rows,
    {
        proof {
            use_type_invariant(self);
        }
        let mut articles: Vec<Article> = Vec::new();
        let mut i: usize = 0;
        while i < self.rows.len()
            invariant
                i <= self.rows.len(),
                articles@.len() == i,
                forall|k: int| 0 <= k < i ==> (#[trigger] articles@[k])@ == self.rows@[k]@,
            decreases self.rows.len() - i,
        {
            articles.push(self.rows[i].clone());
            i += 1;
        }
        assert(views(articles@) =~= self@.rows);
        articles
    }

    /// Observes whether the row `id` exists and whether `caller` wrote it,
    /// and deletes it if and only if both hold: one step, with nothing in
    /// between.
    pub fn delete_owned(&mut self, caller: i64, id: i64) -> (outcome: MutationOutcome)
        ensures
            old(self).wf(),
            final(self).wf(),
            outcome.wf(),
            outcome@ == old(self)@.outcome(caller, id),
            final(self)@ == old(self)@.delete(caller, id),
    {
        let ghost before = self@;
        proof {
            use_type_invariant(&*self);
            lemma_delete_keeps_wf(before, caller, id);
        }
        match self.locate(id) {
            Some(i) => {
                assert(self@.rows[i as int] == self.rows@[i as int]@);
                if self.rows[i].get_writer() == caller {
                    let mut rows: Vec<Article> = Vec::new();
                    core::mem::swap(&mut self.rows, &mut rows);
                    rows.remove(i);
                    assert(views(rows@) =~= before.delete(caller, id).rows);
                    core::mem::swap(&mut self.rows, &mut rows);
                    MutationOutcome::new(true, true, 1).unwrap()
                } else {
                    MutationOutcome::new(true, false, 0).unwrap()
                }
            },
            None => MutationOutcome::new(false, false, 0).unwrap(),
        }
    }

    /// Observes whether the row `id` exists and whether `caller` wrote it,
    /// and replaces the columns that are there if and only if both hold.
    pub fn update_owned(
        &mut self,
        caller: i64,
        id: i64,
        title: Option<String>,
        content: Option<String>,
    ) -> (outcome: MutationOutcome)
        ensures
            old(self).wf(),
            final(self).wf(),
            outcome.wf(),
            outcome@ == old(self)@.outcome(caller, id),
            final(self)@ == old(self)@.update(caller, id, text_of(title), text_of(content)),
    {
        let ghost before = self@;
        proof {
            use_type_invariant(&*self);
            lemma_update_keeps_wf(before, caller, id, text_of(title), text_of(content));
        }
        match self.locate(id) {
            Some(i) => {
                assert(self@.rows[i as int] == self.rows@[i as int]@);
                if self.rows[i].get_writer() == caller {
                    let new_title = match title {
                        Some(text) => text,
                        None => self.rows[i].get_title().to_owned(),
                    };
                    let new_content = match content {
                        Some(text) => text,
                        None => self.rows[i].get_content().to_owned(),
                    };
                    let row = Article::new(new_title, new_content, caller).id(id);
                    let mut rows: Vec<Article> = Vec::new();
                    core::mem::swap(&mut self.rows, &mut rows);
                    rows.set(i, row);
                    assert(views(rows@) =~= before.update(
                        caller,
                        id,
                        text_of(title),
                        text_of(content),
                    ).rows);
                    core::mem::swap(&mut self.rows, &mut rows);
                    MutationOutcome::new(true, true, 1).unwrap()
                } else {
                    MutationOutcome::new(true, false, 0).unwrap()
                }
            },
            None => MutationOutcome::new(false, false, 0).unwrap(),
        }
    }
}

} // verus!
