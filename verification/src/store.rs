//! The store behind the service's routes.
//!
//! `TodoStore` carries the contents of the two tables, `todo_list` and
//! `todo_item`, and offers the seven data-access operations the routes use.
//! `StoreV` is its mathematical value: every operation's contract is stated
//! as a transition on `StoreV`, and the laws at the end of this module are
//! proved of those transitions.
//!
//! Row ids are assigned by the store, counting up from one, as the serial
//! columns of the schema do; an insert whose fresh id would no longer fit
//! in the id column fails the way an insert that returns no row does.

use vstd::prelude::*;

use crate::errors::{
    is_create_list_failed, is_create_item_failed, is_item_fk_violation, is_item_not_found,
    is_list_not_found, AppError,
};
use crate::models::{items_view, lists_view, TodoItem, TodoItemV, TodoList, TodoListV};

verus! {

/// The mathematical value of the store: both tables in ascending id order,
/// and the next id each serial column would assign.
#[verifier::ext_equal]
pub ghost struct StoreV {
    pub lists: Seq<TodoListV>,
    pub items: Seq<TodoItemV>,
    pub next_list_id: int,
    pub next_item_id: int,
}

impl StoreV {
    /// Well-formedness: ids are positive, below the respective counter and
    /// strictly ascending by row position, and every item's `list_id`
    /// references an existing list, as the schema's foreign key demands.
    pub open spec fn wf(self) -> bool {
        &&& 1 <= self.next_list_id
        &&& 1 <= self.next_item_id
        &&& forall|i: int|
            0 <= i < self.lists.len() ==> 1 <= (#[trigger] self.lists[i]).id < self.next_list_id
        &&& forall|i: int, j: int|
            0 <= i < j < self.lists.len() ==> (#[trigger] self.lists[i]).id < (
            #[trigger] self.lists[j]).id
        &&& forall|i: int|
            0 <= i < self.items.len() ==> 1 <= (#[trigger] self.items[i]).id < self.next_item_id
        &&& forall|i: int, j: int|
            0 <= i < j < self.items.len() ==> (#[trigger] self.items[i]).id < (
            #[trigger] self.items[j]).id
        &&& forall|i: int|
            0 <= i < self.items.len() ==> self.has_list((#[trigger] self.items[i]).list_id)
    }

    /// Whether some list row has id `list_id`.
    pub open spec fn has_list(self, list_id: int) -> bool {
        exists|k: int| 0 <= k < self.lists.len() && (#[trigger] self.lists[k]).id == list_id
    }

    /// The position of the list row with id `list_id`; meaningful when
    /// `has_list` holds, and then unique by well-formedness.
    pub open spec fn list_index(self, list_id: int) -> int {
        choose|k: int| 0 <= k < self.lists.len() && (#[trigger] self.lists[k]).id == list_id
    }

    /// The list row with id `list_id`; meaningful when `has_list` holds.
    pub open spec fn list_at(self, list_id: int) -> TodoListV {
        self.lists[self.list_index(list_id)]
    }

    /// Whether some item row has id `item_id` and belongs to list `list_id`:
    /// the lookup key of every item-scoped operation.
    pub open spec fn has_item(self, list_id: int, item_id: int) -> bool {
        exists|k: int|
            0 <= k < self.items.len() && (#[trigger] self.items[k]).id == item_id
                && self.items[k].list_id == list_id
    }

    /// The position of the item row under `(list_id, item_id)`; meaningful
    /// when `has_item` holds, and then unique by well-formedness.
    pub open spec fn item_index(self, list_id: int, item_id: int) -> int {
        choose|k: int|
            0 <= k < self.items.len() && (#[trigger] self.items[k]).id == item_id
                && self.items[k].list_id == list_id
    }

    /// The item row under `(list_id, item_id)`; meaningful when `has_item`
    /// holds.
    pub open spec fn item_at(self, list_id: int, item_id: int) -> TodoItemV {
        self.items[self.item_index(list_id, item_id)]
    }

    /// Whether a fresh list id can still be assigned within the id column.
    pub open spec fn can_create_list(self) -> bool {
        self.next_list_id < i32::MAX as int
    }

    /// The row an insert into `todo_list` returns.
    pub open spec fn new_list(self, title: Seq<char>) -> TodoListV {
        TodoListV { id: self.next_list_id, title }
    }

    /// The store after a successful insert into `todo_list`.
    pub open spec fn create_list(self, title: Seq<char>) -> StoreV {
        StoreV {
            lists: self.lists.push(self.new_list(title)),
            items: self.items,
            next_list_id: self.next_list_id + 1,
            next_item_id: self.next_item_id,
        }
    }

    /// All lists, newest first: the result of `order by id desc`.
    pub open spec fn listing(self) -> Seq<TodoListV> {
        self.lists.reverse()
    }

    /// Whether a fresh item id can still be assigned within the id column.
    pub open spec fn can_create_item(self) -> bool {
        self.next_item_id < i32::MAX as int
    }

    /// The row an insert into `todo_item` returns: unchecked, by the
    /// column's default.
    pub open spec fn new_item(self, list_id: int, title: Seq<char>) -> TodoItemV {
        TodoItemV { id: self.next_item_id, list_id, title, checked: false }
    }

    /// The store after a successful insert into `todo_item`.
    pub open spec fn create_item(self, list_id: int, title: Seq<char>) -> StoreV {
        StoreV {
            lists: self.lists,
            items: self.items.push(self.new_item(list_id, title)),
            next_list_id: self.next_list_id,
            next_item_id: self.next_item_id + 1,
        }
    }

    /// The items of the first `n` rows that belong to list `list_id`, in
    /// id order.
    pub open spec fn items_of_prefix(self, list_id: int, n: int) -> Seq<TodoItemV> {
        self.items.take(n).filter(|t: TodoItemV| t.list_id == list_id)
    }

    /// The items of list `list_id` in id order: the result of
    /// `where list_id = $1 order by id`.
    pub open spec fn items_of(self, list_id: int) -> Seq<TodoItemV> {
        self.items_of_prefix(list_id, self.items.len() as int)
    }

    /// Whether the guarded update `set checked = true where list_id = $1
    /// and id = $2 and checked = false` changes a row.
    pub open spec fn check_hits(self, list_id: int, item_id: int) -> bool {
        exists|k: int|
            0 <= k < self.items.len() && (#[trigger] self.items[k]).id == item_id
                && self.items[k].list_id == list_id && !self.items[k].checked
    }

    /// The store after the guarded update: the matching unchecked row, if
    /// any, becomes checked; every other row stays as it was.
    pub open spec fn check(self, list_id: int, item_id: int) -> StoreV {
        StoreV {
            lists: self.lists,
            items: self.items.map_values(
                |t: TodoItemV|
                    if t.id == item_id && t.list_id == list_id && !t.checked {
                        TodoItemV { id: t.id, list_id: t.list_id, title: t.title, checked: true }
                    } else {
                        t
                    },
            ),
            next_list_id: self.next_list_id,
            next_item_id: self.next_item_id,
        }
    }
}

/// In a well-formed store, list ids are unique: two positions holding the
/// same id are one position.
pub proof fn lemma_list_ids_unique(s: StoreV, i: int, j: int)
    requires
        s.wf(),
        0 <= i < s.lists.len(),
        0 <= j < s.lists.len(),
        s.lists[i].id == s.lists[j].id,
    ensures
        i == j,
{
    if i < j {
        assert(s.lists[i].id < s.lists[j].id);
    } else if j < i {
        assert(s.lists[j].id < s.lists[i].id);
    }
}

/// In a well-formed store, item ids are unique: two positions holding the
/// same id are one position.
pub proof fn lemma_item_ids_unique(s: StoreV, i: int, j: int)
    requires
        s.wf(),
        0 <= i < s.items.len(),
        0 <= j < s.items.len(),
        s.items[i].id == s.items[j].id,
    ensures
        i == j,
{
    if i < j {
        assert(s.items[i].id < s.items[j].id);
    } else if j < i {
        assert(s.items[j].id < s.items[i].id);
    }
}

/// Inserting a list row keeps the store well-formed.
pub proof fn lemma_create_list_preserves_wf(s: StoreV, title: Seq<char>)
    requires
        s.wf(),
        s.can_create_list(),
    ensures
        s.create_list(title).wf(),
{
    let s2 = s.create_list(title);
    assert forall|i: int| 0 <= i < s2.items.len() implies s2.has_list(
        (#[trigger] s2.items[i]).list_id,
    ) by {
        assert(s2.items[i] == s.items[i]);
        assert(s.has_list(s.items[i].list_id));
        let j = choose|j: int|
            0 <= j < s.lists.len() && (#[trigger] s.lists[j]).id == s.items[i].list_id;
        assert(s2.lists[j].id == s2.items[i].list_id);
    }
}

/// Inserting an item row under an existing list keeps the store well-formed.
pub proof fn lemma_create_item_preserves_wf(s: StoreV, list_id: int, title: Seq<char>)
    requires
        s.wf(),
        s.has_list(list_id),
        s.can_create_item(),
    ensures
        s.create_item(list_id, title).wf(),
{
    let s2 = s.create_item(list_id, title);
    assert forall|i: int| 0 <= i < s2.items.len() implies s2.has_list(
        (#[trigger] s2.items[i]).list_id,
    ) by {
        if i < s.items.len() {
            assert(s2.items[i] == s.items[i]);
            assert(s.has_list(s.items[i].list_id));
            let j = choose|j: int|
                0 <= j < s.lists.len() && (#[trigger] s.lists[j]).id == s.items[i].list_id;
            assert(s2.lists[j].id == s2.items[i].list_id);
        } else {
            let j = choose|j: int| 0 <= j < s.lists.len() && (#[trigger] s.lists[j]).id == list_id;
            assert(s2.lists[j].id == s2.items[i].list_id);
        }
    }
}

/// The guarded update keeps the store well-formed: it touches only the
/// `checked` column.
pub proof fn lemma_check_preserves_wf(s: StoreV, list_id: int, item_id: int)
    requires
        s.wf(),
    ensures
        s.check(list_id, item_id).wf(),
{
    let s2 = s.check(list_id, item_id);
    assert(s2.items.len() == s.items.len());
    assert(forall|i: int|
        0 <= i < s2.items.len() ==> (#[trigger] s2.items[i]).id == s.items[i].id
            && s2.items[i].list_id == s.items[i].list_id);
    assert forall|i: int| 0 <= i < s2.items.len() implies s2.has_list(
        (#[trigger] s2.items[i]).list_id,
    ) by {
        assert(s2.items[i].list_id == s.items[i].list_id);
        assert(s.has_list(s.items[i].list_id));
        let j = choose|j: int|
            0 <= j < s.lists.len() && (#[trigger] s.lists[j]).id == s.items[i].list_id;
        assert(s2.lists[j].id == s2.items[i].list_id);
    }
}

/// The executable store: the contents of the two tables, held in ascending
/// id order, together with the next id each serial column would assign.
pub struct TodoStore {
    lists: Vec<TodoList>,
    items: Vec<TodoItem>,
    next_list_id: i32,
    next_item_id: i32,
}

impl View for TodoStore {
    type V = StoreV;

    closed spec fn view(&self) -> StoreV {
        StoreV {
            lists: lists_view(self.lists@),
            items: items_view(self.items@),
            next_list_id: self.next_list_id as int,
            next_item_id: self.next_item_id as int,
        }
    }
}

impl TodoStore {
    pub open spec fn wf(self) -> bool {
        self@.wf()
    }

    /// An empty store: no rows, both serial columns about to assign one.
    pub fn new() -> (s: TodoStore)
        ensures
            s.wf(),
            s@ == (StoreV {
                lists: Seq::<TodoListV>::empty(),
                items: Seq::<TodoItemV>::empty(),
                next_list_id: 1,
                next_item_id: 1,
            }),
    {
        let s = TodoStore { lists: Vec::new(), items: Vec::new(), next_list_id: 1, next_item_id: 1 };
        proof {
            assert(s@ =~= (StoreV {
                lists: Seq::<TodoListV>::empty(),
                items: Seq::<TodoItemV>::empty(),
                next_list_id: 1,
                next_item_id: 1,
            }));
        }
        s
    }

    /// Inserts a list row with the given title and returns it, as
    /// `insert into todo_list (title) values ($1) returning id, title`
    /// does. Fails only when no fresh id fits the id column, the case of an
    /// insert that returns no row.
    pub fn create_todo(&mut self, title: String) -> (r: Result<TodoList, AppError>)
        requires
            old(self).wf(),
        ensures
            final(self).wf(),
            old(self)@.can_create_list() ==> ({
                &&& r matches Ok(l) && l@ == old(self)@.new_list(title@)
                &&& final(self)@ == old(self)@.create_list(title@)
            }),
            !old(self)@.can_create_list() ==> ({
                &&& r matches Err(e) && is_create_list_failed(e)
                &&& final(self)@ == old(self)@
            }),
    {
        if self.next_list_id == i32::MAX {
            return Err(AppError::create_list_failed());
        }
        let id = self.next_list_id;
        let list = TodoList { id, title };
        self.lists.push(list.clone());
        self.next_list_id = id + 1;
        proof {
            assert(self@.lists =~= old(self)@.lists.push(list@));
            assert(self@ =~= old(self)@.create_list(list@.title));
            lemma_create_list_preserves_wf(old(self)@, list@.title);
        }
        Ok(list)
    }

    /// Returns all lists, newest first, as
    /// `select * from todo_list order by id desc` does. The query itself
    /// cannot fail against the store's contents, so the result is always
    /// `Ok`.
    pub fn get_todos(&self) -> (r: Result<Vec<TodoList>, AppError>)
        ensures
            r matches Ok(ls) && lists_view(ls@) == self@.listing(),
    {
        let mut out: Vec<TodoList> = Vec::new();
        let n = self.lists.len();
        let mut i: usize = n;
        while i > 0
            invariant
                i <= n,
                n == self.lists.len(),
                out@.len() == n - i,
                forall|k: int| 0 <= k < out@.len() ==> (#[trigger] out@[k])@ == self@.listing()[k],
            decreases i,
        {
            i = i - 1;
            out.push(self.lists[i].clone());
        }
        proof {
            assert(lists_view(out@) =~= self@.listing());
        }
        Ok(out)
    }

    /// Whether some list row has id `list_id`.
    pub fn contains_list(&self, list_id: i32) -> (b: bool)
        ensures
            b == self@.has_list(list_id as int),
    {
        let n = self.lists.len();
        let mut i: usize = 0;
        while i < n
            invariant
                i <= n,
                n == self.lists.len(),
                forall|k: int| 0 <= k < i ==> (#[trigger] self@.lists[k]).id != list_id as int,
            decreases n - i,
        {
            if self.lists[i].id == list_id {
                proof {
                    assert(self@.lists[i as int].id == list_id as int);
                }
                return true;
            }
            i = i + 1;
        }
        false
    }

    /// Returns the list with id `list_id`, as
    /// `select * from todo_list where id = $1` does: `Ok` exactly when such
    /// a row exists, and `NotFoundError` otherwise.
    pub fn get_todo(&self, list_id: i32) -> (r: Result<TodoList, AppError>)
        requires
            self.wf(),
        ensures
            r is Ok <==> self@.has_list(list_id as int),
            r matches Ok(l) ==> l@ == self@.list_at(list_id as int),
            r matches Err(e) ==> is_list_not_found(e, list_id as int),
    {
        let n = self.lists.len();
        let mut i: usize = 0;
        while i < n
            invariant
                self.wf(),
                i <= n,
                n == self.lists.len(),
                forall|k: int| 0 <= k < i ==> (#[trigger] self@.lists[k]).id != list_id as int,
            decreases n - i,
        {
            if self.lists[i].id == list_id {
                let l = self.lists[i].clone();
                proof {
                    assert(self@.lists[i as int].id == list_id as int);
                    lemma_list_ids_unique(self@, self@.list_index(list_id as int), i as int);
                }
                return Ok(l);
            }
            i = i + 1;
        }
        Err(AppError::list_not_found(list_id))
    }

    /// Inserts an item row under list `list_id` and returns it, as
    /// `insert into todo_item (list_id, title) values ($1, $2) returning
    /// id, list_id, title, checked` does. The schema's foreign key rejects
    /// a `list_id` that references no list; an id column with no fresh id
    /// left fails the way an insert that returns no row does.
    pub fn create_item(&mut self, list_id: i32, title: String) -> (r: Result<TodoItem, AppError>)
        requires
            old(self).wf(),
        ensures
            final(self).wf(),
            old(self)@.has_list(list_id as int) && old(self)@.can_create_item() ==> ({
                &&& r matches Ok(t) && t@ == old(self)@.new_item(list_id as int, title@)
                &&& final(self)@ == old(self)@.create_item(list_id as int, title@)
            }),
            !old(self)@.has_list(list_id as int) ==> ({
                &&& r matches Err(e) && is_item_fk_violation(e)
                &&& final(self)@ == old(self)@
            }),
            old(self)@.has_list(list_id as int) && !old(self)@.can_create_item() ==> ({
                &&& r matches Err(e) && is_create_item_failed(e)
                &&& final(self)@ == old(self)@
            }),
    {
        if !self.contains_list(list_id) {
            return Err(AppError::item_fk_violation());
        }
        if self.next_item_id == i32::MAX {
            return Err(AppError::create_item_failed());
        }
        let id = self.next_item_id;
        let item = TodoItem { id, list_id, title, checked: false };
        self.items.push(item.clone());
        self.next_item_id = id + 1;
        proof {
            assert(self@.items =~= old(self)@.items.push(item@));
            assert(self@ =~= old(self)@.create_item(list_id as int, item@.title));
            lemma_create_item_preserves_wf(old(self)@, list_id as int, item@.title);
        }
        Ok(item)
    }

    /// Returns the items of list `list_id` in id order, as
    /// `select * from todo_item where list_id = $1 order by id` does. The
    /// query itself cannot fail against the store's contents, so the
    /// result is always `Ok`.
    pub fn get_items(&self, list_id: i32) -> (r: Result<Vec<TodoItem>, AppError>)
        ensures
            r matches Ok(ts) && items_view(ts@) == self@.items_of(list_id as int),
    {
        let mut out: Vec<TodoItem> = Vec::new();
        let n = self.items.len();
        let mut i: usize = 0;
        while i < n
            invariant
                i <= n,
                n == self.items.len(),
                items_view(out@) == self@.items_of_prefix(list_id as int, i as int),
            decreases n - i,
        {
            let hit = self.items[i].list_id == list_id;
            if hit {
                out.push(self.items[i].clone());
            }
            proof {
                reveal(Seq::filter);
                let pre = self@.items.take(i as int);
                let post = self@.items.take(i as int + 1);
                assert(post.drop_last() =~= pre);
                assert(post.last() == self@.items[i as int]);
                if hit {
                    assert(items_view(out@) =~= self@.items_of_prefix(list_id as int, i as int)
                        .push(self@.items[i as int]));
                }
                assert(items_view(out@) =~= self@.items_of_prefix(list_id as int, i as int + 1));
            }
            i = i + 1;
        }
        proof {
            assert(self@.items.take(n as int) =~= self@.items);
        }
        Ok(out)
    }

    /// Returns the item under `(list_id, item_id)`, as
    /// `select * from todo_item where list_id = $1 and id = $2` does: `Ok`
    /// exactly when such a row exists, and `NotFoundError` otherwise.
    pub fn get_item(&self, list_id: i32, item_id: i32) -> (r: Result<TodoItem, AppError>)
        requires
            self.wf(),
        ensures
            r is Ok <==> self@.has_item(list_id as int, item_id as int),
            r matches Ok(t) ==> t@ == self@.item_at(list_id as int, item_id as int),
            r matches Err(e) ==> is_item_not_found(e, list_id as int, item_id as int),
    {
        let n = self.items.len();
        let mut i: usize = 0;
        while i < n
            invariant
                self.wf(),
                i <= n,
                n == self.items.len(),
                forall|k: int|
                    0 <= k < i ==> !((#[trigger] self@.items[k]).id == item_id as int
                        && self@.items[k].list_id == list_id as int),
            decreases n - i,
        {
            if self.items[i].id == item_id && self.items[i].list_id == list_id {
                let t = self.items[i].clone();
                proof {
                    assert(self@.items[i as int].id == item_id as int);
                    assert(self@.has_item(list_id as int, item_id as int));
                    lemma_item_ids_unique(
                        self@,
                        self@.item_index(list_id as int, item_id as int),
                        i as int,
                    );
                }
                return Ok(t);
            }
            i = i + 1;
        }
        Err(AppError::item_not_found(list_id, item_id))
    }

    /// Runs the guarded update `update todo_item set checked = true where
    /// list_id = $1 and id = $2 and checked = false` and reports whether a
    /// row changed. A pair of keys that matches no unchecked row is an
    /// outcome, not an error, so the result is always `Ok`.
    pub fn check_todo(&mut self, list_id: i32, item_id: i32) -> (r: Result<bool, AppError>)
        requires
            old(self).wf(),
        ensures
            final(self).wf(),
            r matches Ok(b) && b == old(self)@.check_hits(list_id as int, item_id as int),
            final(self)@ == old(self)@.check(list_id as int, item_id as int),
    {
        let n = self.items.len();
        let mut i: usize = 0;
        while i < n
            invariant
                old(self).wf(),
                self@ == old(self)@,
                i <= n,
                n == self.items.len(),
                forall|k: int|
                    0 <= k < i ==> !((#[trigger] self@.items[k]).id == item_id as int
                        && self@.items[k].list_id == list_id as int && !self@.items[k].checked),
            decreases n - i,
        {
            if self.items[i].id == item_id && self.items[i].list_id == list_id
                && !self.items[i].checked {
                let title = self.items[i].title.clone();
                let flipped = TodoItem { id: item_id, list_id, title, checked: true };
                let ghost s0 = old(self)@;
                proof {
                    assert(s0.items[i as int].id == item_id as int);
                    assert(s0.check_hits(list_id as int, item_id as int));
                }
                self.items[i] = flipped;
                proof {
                    let s2 = s0.check(list_id as int, item_id as int);
                    assert forall|k: int|
                        0 <= k < s0.items.len() && k != i as int implies (
                        #[trigger] s2.items[k]) == s0.items[k] by {
                        if s0.items[k].id == item_id as int {
                            lemma_item_ids_unique(s0, k, i as int);
                        }
                    }
                    assert(s2.items[i as int] == flipped@);
                    assert(self@.items =~= s2.items);
                    assert(self@ =~= s2);
                    lemma_check_preserves_wf(s0, list_id as int, item_id as int);
                }
                return Ok(true);
            }
            i = i + 1;
        }
        proof {
            let s0 = old(self)@;
            let s2 = s0.check(list_id as int, item_id as int);
            assert forall|k: int| 0 <= k < s0.items.len() implies (#[trigger] s2.items[k])
                == s0.items[k] by {
                assert(!(s0.items[k].id == item_id as int && s0.items[k].list_id == list_id as int
                    && !s0.items[k].checked));
            }
            assert(self@.items =~= s2.items);
            assert(self@ =~= s2);
        }
        Ok(false)
    }
}

/// Law: creating a list and then listing all lists yields the fresh list
/// first — its title the one given, its id newly assigned and greater than
/// every id assigned before — followed by the previous listing unchanged,
/// the whole ordered by descending id.
pub proof fn lemma_create_then_list(s: StoreV, title: Seq<char>)
    requires
        s.wf(),
        s.can_create_list(),
    ensures
        ({
            let all = s.create_list(title).listing();
            &&& all.len() == s.listing().len() + 1
            &&& all[0] == s.new_list(title)
            &&& all[0].title == title
            &&& forall|i: int| 0 <= i < s.lists.len() ==> all[0].id > (#[trigger] s.lists[i]).id
            &&& all.skip(1) == s.listing()
            &&& forall|i: int, j: int|
                0 <= i < j < all.len() ==> (#[trigger] all[i]).id > (#[trigger] all[j]).id
        }),
{
    lemma_create_list_preserves_wf(s, title);
    let s2 = s.create_list(title);
    let all = s2.listing();
    let m = s.lists.len() as int;
    assert(all[0] == s2.lists[m]);
    assert forall|k: int| 0 <= k < s.listing().len() implies all.skip(1)[k] == s.listing()[k] by {
        assert(all.skip(1)[k] == all[k + 1]);
        assert(all[k + 1] == s2.lists[m - 1 - k]);
        assert(s.listing()[k] == s.lists[m - 1 - k]);
    }
    assert(all.skip(1) =~= s.listing());
    assert forall|i: int, j: int| 0 <= i < j < all.len() implies (#[trigger] all[i]).id > (
    #[trigger] all[j]).id by {
        assert(all[i] == s2.lists[m - i]);
        assert(all[j] == s2.lists[m - j]);
    }
}

/// Law: the guarded update on an existing, unchecked item reports a change
/// exactly once: it flips that row to checked, and a second run with the
/// same keys reports no change.
pub proof fn lemma_check_twice(s: StoreV, list_id: int, item_id: int)
    requires
        s.wf(),
        s.has_item(list_id, item_id),
        !s.item_at(list_id, item_id).checked,
    ensures
        s.check_hits(list_id, item_id),
        s.check(list_id, item_id).has_item(list_id, item_id),
        s.check(list_id, item_id).item_at(list_id, item_id).checked,
        !s.check(list_id, item_id).check_hits(list_id, item_id),
{
    let s2 = s.check(list_id, item_id);
    let i = s.item_index(list_id, item_id);
    assert(0 <= i < s.items.len() && s.items[i].id == item_id && s.items[i].list_id == list_id);
    assert(!s.items[i].checked);
    assert(s.check_hits(list_id, item_id));
    assert(s2.items[i].id == item_id && s2.items[i].list_id == list_id && s2.items[i].checked);
    assert(s2.has_item(list_id, item_id));
    lemma_check_preserves_wf(s, list_id, item_id);
    lemma_item_ids_unique(s2, s2.item_index(list_id, item_id), i);
    assert forall|k: int| 0 <= k < s2.items.len() implies !((#[trigger] s2.items[k]).id == item_id
        && s2.items[k].list_id == list_id && !s2.items[k].checked) by {
        if s2.items[k].id == item_id {
            assert(s2.items[k].id == s.items[k].id);
            lemma_item_ids_unique(s, k, i);
        }
    }
}

/// Law: when no item row matches the pair of keys, the guarded update
/// reports no change and leaves the store exactly as it was. The
/// operation's contract turns this into `Ok(false)`, never into an error.
pub proof fn lemma_check_missing(s: StoreV, list_id: int, item_id: int)
    requires
        s.wf(),
        !s.has_item(list_id, item_id),
    ensures
        !s.check_hits(list_id, item_id),
        s.check(list_id, item_id) == s,
{
    let s2 = s.check(list_id, item_id);
    assert forall|k: int| 0 <= k < s.items.len() implies (#[trigger] s2.items[k]) == s.items[k] by {
        assert(!(s.items[k].id == item_id && s.items[k].list_id == list_id));
    }
    assert(s2.items =~= s.items);
    assert(s2 =~= s);
}

/// Law: creating an item under an existing list and then fetching it under
/// the same list with its fresh id returns that item: the given title,
/// and unchecked.
pub proof fn lemma_create_item_round_trip(s: StoreV, list_id: int, title: Seq<char>)
    requires
        s.wf(),
        s.has_list(list_id),
        s.can_create_item(),
    ensures
        ({
            let s2 = s.create_item(list_id, title);
            let t = s.new_item(list_id, title);
            &&& s2.has_item(list_id, t.id)
            &&& s2.item_at(list_id, t.id) == t
            &&& t.checked == false
            &&& t.title == title
        }),
{
    lemma_create_item_preserves_wf(s, list_id, title);
    let s2 = s.create_item(list_id, title);
    let t = s.new_item(list_id, title);
    let n = s.items.len() as int;
    assert(s2.items[n] == t);
    assert(s2.has_item(list_id, t.id));
    lemma_item_ids_unique(s2, s2.item_index(list_id, t.id), n);
}

} // verus!
