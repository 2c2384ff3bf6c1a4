use vstd::prelude::*;

use crate::handlers::created_rows;
use crate::model::TodoView;
use crate::store::{contains_id, ids_unique, new_row, with_status};

verus! {

/// Creating a todo with a non-empty title in an empty table, then listing,
/// gives exactly one entry: that identifier and title, not done.
pub proof fn lemma_create_then_list(id: u128, title: Seq<char>)
    requires
        title.len() > 0,
    ensures
        ({
            let rows = created_rows(Seq::<TodoView>::empty(), id, Some(title));
            rows.len() == 1 && rows[0] == new_row(id, title) && rows[0].title == title
                && !rows[0].status
        }),
{
}

/// A create request keeps identifiers unique, whatever identifier it is given.
pub proof fn lemma_create_keeps_ids_unique(rows: Seq<TodoView>, id: u128, title: Option<Seq<char>>)
    requires
        ids_unique(rows),
    ensures
        ids_unique(created_rows(rows, id, title)),
{
}

/// Setting the status of an identifier that no row has changes nothing.
pub proof fn lemma_unknown_id_unchanged(rows: Seq<TodoView>, id: u128, status: bool)
    requires
        !contains_id(rows, id),
    ensures
        with_status(rows, id, status) == rows,
{
    assert(with_status(rows, id, status) =~= rows);
}

/// Setting a status twice leaves only the second one.
pub proof fn lemma_status_last_wins(rows: Seq<TodoView>, id: u128, first: bool, second: bool)
    ensures
        with_status(with_status(rows, id, first), id, second) == with_status(rows, id, second),
{
    assert(with_status(with_status(rows, id, first), id, second) =~= with_status(rows, id, second));
}

/// Creating a todo and setting its status to done shows it done; setting it
/// back to not done gives the table as it was right after the creation.
pub proof fn lemma_status_toggle(rows: Seq<TodoView>, id: u128, title: Seq<char>)
    requires
        ids_unique(rows),
        !contains_id(rows, id),
        title.len() > 0,
    ensures
        ({
            let created = created_rows(rows, id, Some(title));
            let done = with_status(created, id, true);
            &&& done.len() == rows.len() + 1
            &&& done[rows.len() as int] == TodoView { id, title, status: true }
            &&& done.subrange(0, rows.len() as int) == rows
            &&& with_status(done, id, false) == created
        }),
{
    let created = created_rows(rows, id, Some(title));
    let done = with_status(created, id, true);
    assert(created == rows.push(new_row(id, title)));
    assert(done.subrange(0, rows.len() as int) =~= rows);
    assert(with_status(done, id, false) =~= created);
}

/// The rows after create requests with the titles `titles` under the
/// identifiers `ids`, carried out one after the other.
pub open spec fn created_all(rows: Seq<TodoView>, ids: Seq<u128>, titles: Seq<Seq<char>>) -> Seq<
    TodoView,
>
    decreases ids.len(),
{
    if ids.len() == 0 || titles.len() == 0 {
        rows
    } else {
        created_all(created_rows(rows, ids[0], Some(titles[0])), ids.drop_first(), titles.drop_first())
    }
}

/// No two of `ids` are equal.
pub open spec fn distinct(ids: Seq<u128>) -> bool {
    forall|i: int, j: int| 0 <= i < ids.len() && 0 <= j < ids.len() && i != j ==> ids[i] != ids[j]
}

/// Create requests, in whatever order they are carried out, keep identifiers
/// unique.
pub proof fn lemma_creates_keep_ids_unique(rows: Seq<TodoView>, ids: Seq<u128>, titles: Seq<Seq<char>>)
    requires
        ids_unique(rows),
    ensures
        ids_unique(created_all(rows, ids, titles)),
    decreases ids.len(),
{
    if ids.len() > 0 && titles.len() > 0 {
        lemma_create_keeps_ids_unique(rows, ids[0], Some(titles[0]));
        lemma_creates_keep_ids_unique(
            created_rows(rows, ids[0], Some(titles[0])),
            ids.drop_first(),
            titles.drop_first(),
        );
    }
}

/// Create requests with distinct new identifiers and non-empty titles lose no
/// write: the table afterwards holds the earlier rows and one not-done row
/// for each request, in the order they were carried out.
pub proof fn lemma_creates_lose_nothing(rows: Seq<TodoView>, ids: Seq<u128>, titles: Seq<Seq<char>>)
    requires
        ids_unique(rows),
        ids.len() == titles.len(),
        distinct(ids),
        forall|k: int| 0 <= k < ids.len() ==> !contains_id(rows, #[trigger] ids[k]),
        forall|k: int| 0 <= k < titles.len() ==> (#[trigger] titles[k]).len() > 0,
    ensures
        created_all(rows, ids, titles) == rows + Seq::new(
            ids.len(),
            |k: int| new_row(ids[k], titles[k]),
        ),
    decreases ids.len(),
{
    let news = Seq::new(ids.len(), |k: int| new_row(ids[k], titles[k]));
    if ids.len() == 0 {
        assert(rows + news =~= rows);
    } else {
        let next = rows.push(new_row(ids[0], titles[0]));
        assert(created_rows(rows, ids[0], Some(titles[0])) == next);
        assert forall|k: int| 0 <= k < ids.drop_first().len() implies !contains_id(
            next,
            #[trigger] ids.drop_first()[k],
        ) by {
            assert(ids.drop_first()[k] == ids[k + 1]);
            assert(ids[k + 1] != ids[0]);
            if contains_id(next, ids[k + 1]) {
                let i = choose|i: int| 0 <= i < next.len() && next[i].id == ids[k + 1];
                if i < rows.len() {
                    assert(rows[i].id == ids[k + 1]);
                }
            }
        }
        assert forall|k: int| 0 <= k < titles.drop_first().len() implies (
        #[trigger] titles.drop_first()[k]).len() > 0 by {
            assert(titles.drop_first()[k] == titles[k + 1]);
        }
        assert(distinct(ids.drop_first()));
        lemma_create_keeps_ids_unique(rows, ids[0], Some(titles[0]));
        lemma_creates_lose_nothing(next, ids.drop_first(), titles.drop_first());
        let rest = Seq::new(
            ids.drop_first().len(),
            |k: int| new_row(ids.drop_first()[k], titles.drop_first()[k]),
        );
        assert(next + rest =~= rows + news);
    }
}

/// Create requests with non-empty titles, carried out one after the other,
/// each of which succeeded (found its identifier new in the table as it then
/// stood), lose no write: their identifiers are distinct and new to the table
/// they started from, and the table afterwards holds the earlier rows and one
/// not-done row for each request, in the order they were carried out.
pub proof fn lemma_successful_creates_lose_nothing(
    rows: Seq<TodoView>,
    ids: Seq<u128>,
    titles: Seq<Seq<char>>,
)
    requires
        ids_unique(rows),
        ids.len() == titles.len(),
        forall|k: int| 0 <= k < titles.len() ==> (#[trigger] titles[k]).len() > 0,
        forall|k: int|
            0 <= k < ids.len() ==> !contains_id(
                created_all(rows, ids.take(k), titles.take(k)),
                #[trigger] ids[k],
            ),
    ensures
        distinct(ids),
        forall|k: int| 0 <= k < ids.len() ==> !contains_id(rows, #[trigger] ids[k]),
        created_all(rows, ids, titles) == rows + Seq::new(
            ids.len(),
            |k: int| new_row(ids[k], titles[k]),
        ),
    decreases ids.len(),
{
    let news = Seq::new(ids.len(), |k: int| new_row(ids[k], titles[k]));
    if ids.len() == 0 {
        assert(rows + news =~= rows);
    } else {
        assert(created_all(rows, ids.take(0), titles.take(0)) == rows);
        assert(!contains_id(rows, ids[0]));
        let next = rows.push(new_row(ids[0], titles[0]));
        assert(created_rows(rows, ids[0], Some(titles[0])) == next);
        let ids1 = ids.drop_first();
        let titles1 = titles.drop_first();
        assert forall|k: int| 0 <= k < titles1.len() implies (#[trigger] titles1[k]).len() > 0 by {
            assert(titles1[k] == titles[k + 1]);
        }
        assert forall|k: int| 0 <= k < ids1.len() implies !contains_id(
            created_all(next, ids1.take(k), titles1.take(k)),
            #[trigger] ids1[k],
        ) by {
            assert(ids.take(k + 1).drop_first() =~= ids1.take(k));
            assert(titles.take(k + 1).drop_first() =~= titles1.take(k));
            assert(ids.take(k + 1)[0] == ids[0]);
            assert(titles.take(k + 1)[0] == titles[0]);
            assert(created_all(rows, ids.take(k + 1), titles.take(k + 1)) == created_all(
                next,
                ids1.take(k),
                titles1.take(k),
            ));
            assert(ids1[k] == ids[k + 1]);
        }
        lemma_create_keeps_ids_unique(rows, ids[0], Some(titles[0]));
        lemma_successful_creates_lose_nothing(next, ids1, titles1);
        assert forall|j: int| 1 <= j < ids.len() implies ids[j] != ids[0] && !contains_id(
            rows,
            ids[j],
        ) by {
            assert(ids1[j - 1] == ids[j]);
            assert(!contains_id(next, ids1[j - 1]));
            assert(next[rows.len() as int].id == ids[0]);
            if contains_id(rows, ids[j]) {
                let i = choose|i: int| 0 <= i < rows.len() && rows[i].id == ids[j];
                assert(next[i].id == ids[j]);
            }
        }
        assert forall|i: int, j: int|
            0 <= i < ids.len() && 0 <= j < ids.len() && i != j implies ids[i] != ids[j] by {
            if i > 0 && j > 0 {
                assert(ids1[i - 1] == ids[i] && ids1[j - 1] == ids[j]);
            }
        }
        let rest = Seq::new(ids1.len(), |k: int| new_row(ids1[k], titles1[k]));
        assert(next + rest =~= rows + news);
    }
}

} // verus!
