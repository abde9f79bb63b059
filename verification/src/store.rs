//! The store: every record under its own id, in a hash map.

use std::collections::hash_map::{Entry, Iter};
use std::collections::HashMap;
use vstd::prelude::*;
use vstd::std_specs::hash::{into_iter, spec_hash_map_iter};
use vstd::std_specs::iter::IteratorSpec;
use crate::laws::law_page_is_a_run;
use crate::page::{lemma_window_step, window, window_len, window_start};
use crate::records::{deleted, enumerates, fetched, inserted, keyed_by_id, updated, views, Records};
use crate::todo::{Todo, TodoView, UpdateTodo};

verus! {

/// Why a store operation did nothing.
#[derive(Clone, Copy, Debug, PartialEq, Eq)]
pub enum StoreError {
    /// No record has the id.
    NotFound,
}

/// The in-memory collection of to-do records.
pub struct Store {
    todos: HashMap<u128, Todo>,
}

impl View for Store {
    type V = Records;

    closed spec fn view(&self) -> Records {
        self.todos@.map_values(|todo: Todo| todo@)
    }
}

impl Default for Store {
    fn default() -> (store: Store)
        ensures
            store@ == Records::empty(),
    {
        Store::new()
    }
}

impl Store {
    #[verifier::type_invariant]
    spec fn well_formed(&self) -> bool {
        forall|id: u128| #[trigger] self.todos@.contains_key(id) ==> self.todos@[id].id == id
    }

    /// The records in the order in which the map hands them out. The order is
    /// the map's own: it is fixed while the store is left alone, and nothing
    /// is known of it beyond `enumerates(self.walk(), self@)`.
    pub closed spec fn walk(&self) -> Seq<TodoView> {
        into_iter(spec_hash_map_iter(&self.todos)).map_values(|pair: (u128, Todo)| pair.1@)
    }

    /// The view has the map's keys, and under each the view of its record.
    proof fn lemma_view(&self)
        ensures
            self@.dom() == self.todos@.dom(),
            self@.len() == self.todos@.len(),
            forall|id: u128| #[trigger]
                self.todos@.contains_key(id) ==> self@[id] == self.todos@[id]@,
    {
        assert(self@.dom() =~= self.todos@.dom());
    }

    /// What the map's iterator promises, told of `walk`: it lists each record
    /// exactly once.
    proof fn lemma_walk(&self, records: Iter<'_, u128, Todo>)
        requires
            self.well_formed(),
            records == spec_hash_map_iter(&self.todos),
            records.remaining().no_duplicates(),
            into_iter(records) == records.remaining().unref(),
        ensures
            enumerates(self.walk(), self@),
            records.remaining().len() == self.walk().len(),
            forall|i: int|
                0 <= i < self.walk().len() ==> (*(#[trigger] records.remaining()[i]).1)@
                    == self.walk()[i],
    {
        broadcast use vstd::std_specs::hash::group_hash_axioms;

        self.lemma_view();
        let pairs = records.remaining();
        let all = self.walk();
        assert(all.len() == pairs.len());
        assert forall|i: int| 0 <= i < all.len() implies (*(#[trigger] pairs[i]).1)@ == all[i]
            && all[i].id == *pairs[i].0 && self.todos@.contains_key(*pairs[i].0) by {
            assert(self.todos@.contains_key(*pairs[i].0));
            assert(self.todos@[*pairs[i].0] == *pairs[i].1);
        }
        assert forall|i: int, j: int| 0 <= i < j < all.len() implies #[trigger] all[i].id
            != #[trigger] all[j].id by {
            assert(self.todos@[*pairs[i].0] == *pairs[i].1);
            assert(self.todos@[*pairs[j].0] == *pairs[j].1);
            if all[i].id == all[j].id {
                assert(pairs[i] == pairs[j]);
            }
        }
        assert forall|id: u128| #[trigger] self@.contains_key(id) implies all.contains(
            self@[id],
        ) by {
            assert(self.todos@.contains_key(id));
            assert(pairs.contains((&id, &self.todos@[id])));
            let i = choose|i: int| 0 <= i < pairs.len() && pairs[i] == (&id, &self.todos@[id]);
            assert(all[i] == self@[id]);
        }
    }

    /// An empty store.
    pub fn new() -> (store: Store)
        ensures
            store@ == Records::empty(),
    {
        let store = Store { todos: HashMap::new() };
        assert(store@ =~= Records::empty());
        store
    }

    /// The number of records.
    pub fn len(&self) -> (n: usize)
        ensures
            n == self@.len(),
    {
        broadcast use vstd::std_specs::hash::group_hash_axioms;
        proof {
            self.lemma_view();
        }
        self.todos.len()
    }

    /// Adds a record under its id. A record that was there under the same id
    /// is replaced.
    pub fn insert(&mut self, todo: Todo)
        ensures
            final(self)@ == inserted(old(self)@, todo@),
            keyed_by_id(final(self)@),
    {
        broadcast use vstd::std_specs::hash::group_hash_axioms;
        proof {
            use_type_invariant(&*self);
        }
        let mut todos = HashMap::new();
        std::mem::swap(&mut todos, &mut self.todos);
        todos.insert(todo.id, todo);
        self.todos = todos;
        assert(self@ =~= old(self)@.insert(todo.id, todo@));
    }

    /// A copy of the record under `id`, or `None` where there is none.
    pub fn get(&self, id: u128) -> (found: Option<Todo>)
        ensures
            match found {
                Some(todo) => fetched(self@, id) == Some(todo@),
                None => fetched(self@, id) is None,
            },
            keyed_by_id(self@),
    {
        broadcast use vstd::std_specs::hash::group_hash_axioms;
        proof {
            use_type_invariant(self);
            self.lemma_view();
        }
        match self.todos.get(&id) {
            Some(todo) => Some(todo.clone()),
            None => None,
        }
    }

    /// Patches the record under `id`: only the fields that `patch` supplies
    /// change. Where no record has the id the store is left as it was and
    /// the outcome is `NotFound`.
    pub fn update(&mut self, id: u128, patch: UpdateTodo) -> (outcome: Result<(), StoreError>)
        ensures
            outcome is Ok <==> old(self)@.contains_key(id),
            final(self)@ == updated(old(self)@, id, patch@),
            keyed_by_id(final(self)@),
    {
        broadcast use vstd::std_specs::hash::group_hash_axioms;
        proof {
            use_type_invariant(&*self);
            self.lemma_view();
        }
        let mut todos = HashMap::new();
        std::mem::swap(&mut todos, &mut self.todos);
        let outcome = match todos.entry(id) {
            Entry::Occupied(mut slot) => {
                slot.get_mut().apply(patch);
                Ok(())
            },
            Entry::Vacant(_) => Err(StoreError::NotFound),
        };
        self.todos = todos;
        proof {
            self.lemma_view();
            assert(self@ =~= updated(old(self)@, id, patch@));
        }
        outcome
    }

    /// Removes the record under `id`. Where no record has the id nothing
    /// changes, and that is no error.
    pub fn delete(&mut self, id: u128)
        ensures
            final(self)@ == deleted(old(self)@, id),
            keyed_by_id(final(self)@),
    {
        broadcast use vstd::std_specs::hash::group_hash_axioms;
        proof {
            use_type_invariant(&*self);
            self.lemma_view();
        }
        let mut todos = HashMap::new();
        std::mem::swap(&mut todos, &mut self.todos);
        todos.remove(&id);
        self.todos = todos;
        proof {
            self.lemma_view();
            assert(self@ =~= deleted(old(self)@, id));
        }
    }

    /// The records that remain after skipping the first `offset` of the walk
    /// and then keeping at most `limit`. An offset or a limit beyond the
    /// collection is no error: the page is then shorter, or empty.
    pub fn list(&self, offset: usize, limit: usize) -> (page: Vec<Todo>)
        ensures
            keyed_by_id(self@),
            enumerates(self.walk(), self@),
            views(page@) == window(self.walk(), offset as nat, limit as nat),
            page.len() == window_len(self@.len(), offset as nat, limit as nat),
            forall|i: int|
                0 <= i < page.len() ==> fetched(self@, (#[trigger] page[i]).id) == Some(page[i]@),
            forall|i: int, j: int|
                0 <= i < j < page.len() ==> (#[trigger] page[i]).id != (#[trigger] page[j]).id,
    {
        proof {
            use_type_invariant(self);
            self.lemma_view();
        }
        let mut page: Vec<Todo> = Vec::new();
        let mut skipped: usize = 0;
        let records = self.todos.iter();
        proof {
            self.lemma_walk(records);
        }
        for pair in it: records
            invariant
                it.seq().len() == self.walk().len(),
                forall|i: int|
                    0 <= i < self.walk().len() ==> (*(#[trigger] it.seq()[i]).1)@
                        == self.walk()[i],
                skipped == window_start(it.index() as nat, offset as nat),
                views(page@) == window(self.walk().take(it.index()), offset as nat, limit as nat),
            ensures
                views(page@) == window(self.walk(), offset as nat, limit as nat),
        {
            proof {
                lemma_window_step(self.walk(), it.index(), offset as nat, limit as nat);
            }
            if skipped < offset {
                skipped += 1;
            } else if page.len() < limit {
                let ghost before = views(page@);
                page.push(pair.1.clone());
                assert(views(page@) =~= before.push(self.walk()[it.index()]));
            } else {
                break;
            }
        }
        proof {
            law_page_is_a_run(self.walk(), self@, offset as nat, limit as nat);
            assert forall|i: int| 0 <= i < page.len() implies fetched(
                self@,
                (#[trigger] page[i]).id,
            ) == Some(page[i]@) by {
                assert(views(page@)[i] == page[i]@);
            }
            assert forall|i: int, j: int| 0 <= i < j < page.len() implies (#[trigger] page[i]).id
                != (#[trigger] page[j]).id by {
                assert(views(page@)[i] == page[i]@);
                assert(views(page@)[j] == page[j]@);
            }
        }
        page
    }
}

} // verus!
