//! The storage handle a repository operation works on: the books relation,
//! the externally owned authors relation, and the primary-key generator.
//! Every operation receives one handle by explicit injection.

use vstd::prelude::*;
use crate::model::{Author, Book, book_matches, lookup_author, lookup_book, unique_ids};

verus! {

/// One storage session. `next_id` models the generated primary key: it is
/// strictly larger than every id already in the books relation.
pub struct Storage {
    pub books: Vec<Book>,
    pub authors: Vec<Author>,
    pub next_id: i32,
}

impl Storage {
    /// Well-formedness: book ids are unique and below the generator, and
    /// author ids are unique (the authors relation keys on them).
    pub open spec fn wf(self) -> bool {
        &&& unique_ids(self.books@)
        &&& forall|i: int|
            0 <= i < self.books@.len() ==> (#[trigger] self.books@[i].id) < self.next_id
        &&& forall|i: int, j: int|
            0 <= i < j < self.authors@.len() ==> (#[trigger] self.authors@[i].id) != (
            #[trigger] self.authors@[j].id)
    }

    /// An empty storage session: no books, no authors, ids start at 1.
    pub fn new() -> (s: Storage)
        ensures
            s.wf(),
            s.books@ == Seq::<Book>::empty(),
            s.authors@ == Seq::<Author>::empty(),
            s.next_id == 1,
    {
        Storage { books: Vec::new(), authors: Vec::new(), next_id: 1 }
    }

    /// Seeds the externally owned authors relation. The row is inserted only
    /// when its id is still free, so the relation keeps its key.
    pub fn add_author(&mut self, author: Author) -> (r: bool)
        requires
            old(self).wf(),
        ensures
            final(self).wf(),
            final(self).books@ == old(self).books@,
            final(self).next_id == old(self).next_id,
            r == (lookup_author(old(self).authors@, author.id) is None),
            r ==> final(self).authors@ == old(self).authors@.push(author),
            !r ==> final(self).authors@ == old(self).authors@,
    {
        match lookup_author_index(&self.authors, author.id) {
            Some(_) => false,
            None => {
                self.authors.push(author);
                true
            },
        }
    }
}

/// Index of the first book the tenant-scoped query matches, with the facts
/// callers need: the match agrees with `lookup_book`, and nothing before the
/// index (or nothing at all) matches.
pub(crate) fn lookup_book_index(books: &Vec<Book>, tenant_id: i32, book_id: i32) -> (r: Option<
    usize,
>)
    ensures
        match r {
            Some(i) => {
                &&& i < books@.len()
                &&& book_matches(books@[i as int], tenant_id, book_id)
                &&& lookup_book(books@, tenant_id, book_id) == Some(books@[i as int])
                &&& forall|j: int| 0 <= j < i ==> !book_matches(#[trigger] books@[j], tenant_id, book_id)
            },
            None => {
                &&& lookup_book(books@, tenant_id, book_id) is None
                &&& forall|j: int|
                    0 <= j < books@.len() ==> !book_matches(#[trigger] books@[j], tenant_id, book_id)
            },
        },
{
    let ghost all = books@;
    proof {
        assert(all.skip(0) =~= all);
    }
    let mut i: usize = 0;
    while i < books.len()
        invariant
            0 <= i <= all.len(),
            books@ == all,
            lookup_book(all, tenant_id, book_id) == lookup_book(
                all.skip(i as int),
                tenant_id,
                book_id,
            ),
            forall|j: int| 0 <= j < i ==> !book_matches(#[trigger] all[j], tenant_id, book_id),
        decreases all.len() - i,
    {
        let b = &books[i];
        if b.user_id == tenant_id && b.id == book_id {
            proof {
                assert(all.skip(i as int)[0] == all[i as int]);
            }
            return Some(i);
        }
        proof {
            assert(all.skip(i as int).drop_first() =~= all.skip(i as int + 1));
            assert(all.skip(i as int)[0] == all[i as int]);
        }
        i = i + 1;
    }
    proof {
        assert(all.skip(all.len() as int) =~= Seq::<Book>::empty());
    }
    None
}

/// Index of the first author row with the given id, agreeing with
/// `lookup_author`.
pub(crate) fn lookup_author_index(authors: &Vec<Author>, author_id: i32) -> (r: Option<usize>)
    ensures
        match r {
            Some(i) => {
                &&& i < authors@.len()
                &&& authors@[i as int].id == author_id
                &&& lookup_author(authors@, author_id) == Some(authors@[i as int])
            },
            None => {
                &&& lookup_author(authors@, author_id) is None
                &&& forall|j: int| 0 <= j < authors@.len() ==> (#[trigger] authors@[j].id) != author_id
            },
        },
{
    let ghost all = authors@;
    proof {
        assert(all.skip(0) =~= all);
    }
    let mut i: usize = 0;
    while i < authors.len()
        invariant
            0 <= i <= all.len(),
            authors@ == all,
            lookup_author(all, author_id) == lookup_author(all.skip(i as int), author_id),
            forall|j: int| 0 <= j < i ==> (#[trigger] all[j].id) != author_id,
        decreases all.len() - i,
    {
        let a = &authors[i];
        if a.id == author_id {
            proof {
                assert(all.skip(i as int)[0] == all[i as int]);
            }
            return Some(i);
        }
        proof {
            assert(all.skip(i as int).drop_first() =~= all.skip(i as int + 1));
            assert(all.skip(i as int)[0] == all[i as int]);
        }
        i = i + 1;
    }
    proof {
        assert(all.skip(all.len() as int) =~= Seq::<Author>::empty());
    }
    None
}

} // verus!
