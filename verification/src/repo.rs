//! The repository operations: find, create, update, delete and list, each
//! scoped to the requesting tenant before it matches on the primary key.

use vstd::prelude::*;
use crate::model::{
    Book, BookWithAuthorName, ListOfBooks, NewBook, RepoError, apply_changeset, book_matches,
    books_without, creatable, lookup_author, lookup_book, scoped_page, updated_books,
};
use crate::laws::{lemma_books_without_no_match, lemma_books_without_single_match};
use crate::storage::{Storage, lookup_author_index, lookup_book_index};

verus! {

/// A listing page is truncated to this many rows.
pub const LIST_LIMIT: usize = 10;

/// An owned copy of a stored row, field for field.
fn clone_book(b: &Book) -> (r: Book)
    ensures
        r == *b,
{
    Book {
        id: b.id,
        user_id: b.user_id,
        author_id: b.author_id,
        name: b.name.clone(),
        price: b.price,
    }
}

/// Executable counterpart of `apply_changeset`.
fn apply_changeset_exec(b: Book, c: &NewBook) -> (r: Book)
    ensures
        r == apply_changeset(b, *c),
{
    Book {
        id: b.id,
        user_id: match c.user_id {
            Some(u) => u,
            None => b.user_id,
        },
        author_id: match c.author_id {
            Some(a) => a,
            None => b.author_id,
        },
        name: match &c.name {
            Some(n) => n.clone(),
            None => b.name,
        },
        price: match c.price {
            Some(p) => Some(p),
            None => b.price,
        },
    }
}

impl Book {
    /// Two-step lookup: fetch the book the tenant-scoped query matches, then
    /// resolve the author's display name by the book's `author_id`. A book of
    /// another tenant is `NotFound`; a found book whose author row is missing
    /// is the distinct `AuthorUnresolved`.
    pub fn find_by_id(param_user_id: i32, book_id: i32, storage: &Storage) -> (r: Result<
        BookWithAuthorName,
        RepoError,
    >)
        ensures
            match lookup_book(storage.books@, param_user_id, book_id) {
                None => r == Err::<BookWithAuthorName, RepoError>(RepoError::NotFound),
                Some(b) => match lookup_author(storage.authors@, b.author_id) {
                    None => r == Err::<BookWithAuthorName, RepoError>(RepoError::AuthorUnresolved),
                    Some(a) => r == Ok::<BookWithAuthorName, RepoError>(
                        (BookWithAuthorName { book: b, author_name: a.display_name }),
                    ),
                },
            },
    {
        match lookup_book_index(&storage.books, param_user_id, book_id) {
            None => Err(RepoError::NotFound),
            Some(i) => {
                let b = &storage.books[i];
                match lookup_author_index(&storage.authors, b.author_id) {
                    None => Err(RepoError::AuthorUnresolved),
                    Some(j) => {
                        let a = &storage.authors[j];
                        Ok(
                            BookWithAuthorName {
                                book: clone_book(b),
                                author_name: a.display_name.clone(),
                            },
                        )
                    },
                }
            },
        }
    }

    /// Deletes the row the tenant-scoped query matches. A missing row (or one
    /// owned by another tenant) is a silent no-op success, not an error.
    pub fn delete_by_id(param_user_id: i32, book_id: i32, storage: &mut Storage) -> (r: Result<
        (),
        RepoError,
    >)
        requires
            old(storage).wf(),
        ensures
            final(storage).wf(),
            r == Ok::<(), RepoError>(()),
            final(storage).books@ == books_without(old(storage).books@, param_user_id, book_id),
            final(storage).authors@ == old(storage).authors@,
            final(storage).next_id == old(storage).next_id,
    {
        let ghost before = storage.books@;
        match lookup_book_index(&storage.books, param_user_id, book_id) {
            None => {
                proof {
                    lemma_books_without_no_match(before, param_user_id, book_id);
                }
                Ok(())
            },
            Some(i) => {
                let _ = storage.books.remove(i);
                proof {
                    assert forall|j: int| 0 <= j < before.len() && j != i implies !book_matches(
                        #[trigger] before[j],
                        param_user_id,
                        book_id,
                    ) by {
                        assert(before[j].id != before[i as int].id);
                    }
                    lemma_books_without_single_match(before, param_user_id, book_id, i as int);
                    assert(storage.books@ =~= before.remove(i as int));
                }
                Ok(())
            },
        }
    }

    /// Applies the present fields of the changeset to the row the
    /// tenant-scoped query matches; absent fields leave the stored values
    /// unchanged. Updating an id with no matching row is a silent no-op
    /// success.
    pub fn update_by_id(
        param_user_id: i32,
        book_id: i32,
        storage: &mut Storage,
        new_book: &NewBook,
    ) -> (r: Result<(), RepoError>)
        requires
            old(storage).wf(),
        ensures
            final(storage).wf(),
            r == Ok::<(), RepoError>(()),
            final(storage).books@ == updated_books(
                old(storage).books@,
                param_user_id,
                book_id,
                *new_book,
            ),
            final(storage).authors@ == old(storage).authors@,
            final(storage).next_id == old(storage).next_id,
    {
        let ghost before = storage.books@;
        match lookup_book_index(&storage.books, param_user_id, book_id) {
            None => {
                proof {
                    assert(updated_books(before, param_user_id, book_id, *new_book) =~= before);
                }
                Ok(())
            },
            Some(i) => {
                let stored = storage.books.remove(i);
                let changed = apply_changeset_exec(stored, new_book);
                storage.books.insert(i, changed);
                proof {
                    assert forall|j: int| 0 <= j < before.len() && j != i implies !book_matches(
                        #[trigger] before[j],
                        param_user_id,
                        book_id,
                    ) by {
                        assert(before[j].id != before[i as int].id);
                    }
                    assert(storage.books@ =~= updated_books(
                        before,
                        param_user_id,
                        book_id,
                        *new_book,
                    ));
                }
                Ok(())
            },
        }
    }
}

impl NewBook {
    /// Inserts one row and returns it fully materialized, generated id
    /// included. The owner is always the authenticated tenant: an owner
    /// supplied in the payload is discarded. A payload missing a
    /// non-nullable column, or an exhausted id generator, is a storage
    /// failure and leaves the relation unchanged.
    pub fn create(&self, param_user_id: i32, storage: &mut Storage) -> (r: Result<Book, RepoError>)
        requires
            old(storage).wf(),
        ensures
            final(storage).wf(),
            final(storage).authors@ == old(storage).authors@,
            r is Ok <==> creatable(*self, old(storage).next_id),
            match r {
                Ok(b) => {
                    &&& b == (Book {
                        id: old(storage).next_id,
                        user_id: param_user_id,
                        author_id: self.author_id.unwrap(),
                        name: self.name.unwrap(),
                        price: self.price,
                    })
                    &&& final(storage).books@ == old(storage).books@.push(b)
                    &&& final(storage).next_id == old(storage).next_id + 1
                },
                Err(e) => {
                    &&& e == RepoError::StorageError
                    &&& final(storage).books@ == old(storage).books@
                    &&& final(storage).next_id == old(storage).next_id
                },
            },
    {
        let name = match &self.name {
            Some(n) => n.clone(),
            None => {
                return Err(RepoError::StorageError);
            },
        };
        let author_id = match self.author_id {
            Some(a) => a,
            None => {
                return Err(RepoError::StorageError);
            },
        };
        if storage.next_id == i32::MAX {
            return Err(RepoError::StorageError);
        }
        let book = Book {
            id: storage.next_id,
            user_id: param_user_id,
            author_id,
            name,
            price: self.price,
        };
        let result = clone_book(&book);
        storage.books.push(book);
        storage.next_id = storage.next_id + 1;
        Ok(result)
    }
}

impl ListOfBooks {
    /// One page of the tenant's books: the first `LIST_LIMIT` rows owned by
    /// the tenant, in storage order. The storage model cannot fail a read, so
    /// listing is total and proven panic-free.
    pub fn get_list(param_user_id: i32, storage: &Storage) -> (r: ListOfBooks)
        ensures
            r.0@ == scoped_page(storage.books@, param_user_id, LIST_LIMIT as nat),
    {
        let ghost all = storage.books@;
        let mut page: Vec<Book> = Vec::new();
        proof {
            assert(all.skip(0) =~= all);
            assert(page@ + scoped_page(all, param_user_id, LIST_LIMIT as nat) =~= scoped_page(
                all,
                param_user_id,
                LIST_LIMIT as nat,
            ));
        }
        let mut i: usize = 0;
        while i < storage.books.len() && page.len() < LIST_LIMIT
            invariant
                0 <= i <= all.len(),
                storage.books@ == all,
                page@.len() <= LIST_LIMIT,
                scoped_page(all, param_user_id, LIST_LIMIT as nat) == page@ + scoped_page(
                    all.skip(i as int),
                    param_user_id,
                    (LIST_LIMIT - page@.len()) as nat,
                ),
            decreases all.len() - i,
        {
            let ghost left = (LIST_LIMIT - page@.len()) as nat;
            proof {
                assert(all.skip(i as int)[0] == all[i as int]);
                assert(all.skip(i as int).drop_first() =~= all.skip(i as int + 1));
            }
            let b = &storage.books[i];
            if b.user_id == param_user_id {
                page.push(clone_book(b));
                proof {
                    assert(page@ + scoped_page(
                        all.skip(i as int + 1),
                        param_user_id,
                        (left - 1) as nat,
                    ) =~= scoped_page(all, param_user_id, LIST_LIMIT as nat));
                }
            }
            i = i + 1;
        }
        proof {
            if i == all.len() {
                assert(all.skip(all.len() as int) =~= Seq::<Book>::empty());
            }
            assert(page@ + Seq::<Book>::empty() =~= page@);
        }
        ListOfBooks(page)
    }
}

} // verus!
