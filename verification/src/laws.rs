//! The repository's guarantees, stated and proved over the same spec
//! functions the operation contracts use.

use vstd::prelude::*;
use crate::model::{
    Book, NewBook, apply_changeset, book_matches, books_without, lookup_book, scoped_page,
    unique_ids, updated_books,
};

verus! {

/// When no row matches the tenant-scoped query, a delete removes nothing.
pub proof fn lemma_books_without_no_match(books: Seq<Book>, tenant_id: i32, book_id: i32)
    requires
        forall|j: int| 0 <= j < books.len() ==> !book_matches(#[trigger] books[j], tenant_id, book_id),
    ensures
        books_without(books, tenant_id, book_id) == books,
    decreases books.len(),
{
    if books.len() == 0 {
        assert(books_without(books, tenant_id, book_id) =~= books);
    } else {
        lemma_books_without_no_match(books.drop_first(), tenant_id, book_id);
        assert(books_without(books, tenant_id, book_id) =~= books);
    }
}

/// When exactly one row matches the tenant-scoped query, a delete removes
/// that row and keeps every other row in its relative position.
pub proof fn lemma_books_without_single_match(
    books: Seq<Book>,
    tenant_id: i32,
    book_id: i32,
    i: int,
)
    requires
        0 <= i < books.len(),
        book_matches(books[i], tenant_id, book_id),
        forall|j: int|
            0 <= j < books.len() && j != i ==> !book_matches(#[trigger] books[j], tenant_id, book_id),
    ensures
        books_without(books, tenant_id, book_id) == books.remove(i),
    decreases books.len(),
{
    if i == 0 {
        lemma_books_without_no_match(books.drop_first(), tenant_id, book_id);
        assert(books_without(books, tenant_id, book_id) =~= books.remove(0));
    } else {
        lemma_books_without_single_match(books.drop_first(), tenant_id, book_id, i - 1);
        assert(books_without(books, tenant_id, book_id) =~= books.remove(i));
    }
}

/// A tenant-scoped lookup finds nothing exactly when no row passes the
/// scoped match.
pub proof fn lemma_lookup_book_none_iff(books: Seq<Book>, tenant_id: i32, book_id: i32)
    ensures
        lookup_book(books, tenant_id, book_id) is None <==> forall|j: int|
            0 <= j < books.len() ==> !book_matches(#[trigger] books[j], tenant_id, book_id),
    decreases books.len(),
{
    if books.len() > 0 {
        let rest = books.drop_first();
        lemma_lookup_book_none_iff(rest, tenant_id, book_id);
        if !book_matches(books[0], tenant_id, book_id) {
            if lookup_book(books, tenant_id, book_id) is None {
                assert forall|j: int| 0 <= j < books.len() implies !book_matches(
                    #[trigger] books[j],
                    tenant_id,
                    book_id,
                ) by {
                    if j > 0 {
                        assert(rest[j - 1] == books[j]);
                        assert(!book_matches(rest[j - 1], tenant_id, book_id));
                    }
                }
            }
            if forall|j: int|
                0 <= j < books.len() ==> !book_matches(#[trigger] books[j], tenant_id, book_id) {
                assert forall|j: int| 0 <= j < rest.len() implies !book_matches(
                    #[trigger] rest[j],
                    tenant_id,
                    book_id,
                ) by {
                    assert(rest[j] == books[j + 1]);
                    assert(!book_matches(books[j + 1], tenant_id, book_id));
                }
            }
        }
    }
}

/// Tenant isolation: a stored book is found by the tenant that owns it, and
/// is invisible — indistinguishable from a missing row — to every other
/// tenant.
pub proof fn lemma_tenant_isolation(books: Seq<Book>, owner: i32, other: i32, b: Book)
    requires
        unique_ids(books),
        books.contains(b),
        b.user_id == owner,
        owner != other,
    ensures
        lookup_book(books, owner, b.id) == Some(b),
        lookup_book(books, other, b.id) is None,
    decreases books.len(),
{
    let i = choose|i: int| 0 <= i < books.len() && books[i] == b;
    let rest = books.drop_first();
    if books[0] == b {
        assert(book_matches(books[0], owner, b.id));
        assert(!book_matches(books[0], other, b.id));
        assert forall|j: int| 0 <= j < rest.len() implies !book_matches(
            #[trigger] rest[j],
            other,
            b.id,
        ) by {
            assert(rest[j] == books[j + 1]);
            if books[j + 1].id == b.id {
                // ids are unique, so the only row carrying b's id is b itself,
                // and b is owned by `owner`, not `other`
                assert(books[0].id == books[j + 1].id);
                assert(j + 1 == 0);
            }
        }
        lemma_lookup_book_none_iff(rest, other, b.id);
    } else {
        assert(i > 0);
        assert(rest[i - 1] == b);
        assert(rest.contains(b));
        assert forall|p: int, q: int| 0 <= p < q < rest.len() implies (#[trigger] rest[p].id) != (
        #[trigger] rest[q].id) by {
            assert(rest[p] == books[p + 1]);
            assert(rest[q] == books[q + 1]);
        }
        lemma_tenant_isolation(rest, owner, other, b);
        assert(books[0].id != books[i].id);
        assert(!book_matches(books[0], owner, b.id));
        assert(!book_matches(books[0], other, b.id));
    }
}

/// An all-absent changeset is the identity: an update that sets no field
/// leaves every stored record exactly as it was.
pub proof fn lemma_empty_changeset_identity(
    books: Seq<Book>,
    tenant_id: i32,
    book_id: i32,
    c: NewBook,
)
    requires
        c.user_id is None,
        c.name is None,
        c.author_id is None,
        c.price is None,
    ensures
        updated_books(books, tenant_id, book_id, c) == books,
{
    assert forall|i: int| 0 <= i < books.len() implies apply_changeset(books[i], c) == books[i] by {}
    assert(updated_books(books, tenant_id, book_id, c) =~= books);
}

/// Deleting an id that no row of the tenant carries leaves the stored
/// relation unchanged: no row is created or altered.
pub proof fn lemma_delete_absent_identity(books: Seq<Book>, tenant_id: i32, book_id: i32)
    requires
        lookup_book(books, tenant_id, book_id) is None,
    ensures
        books_without(books, tenant_id, book_id) == books,
{
    lemma_lookup_book_none_iff(books, tenant_id, book_id);
    lemma_books_without_no_match(books, tenant_id, book_id);
}

/// A listing page never exceeds its limit, and every entry on it is a stored
/// row owned by the requesting tenant.
pub proof fn lemma_page_scoped(books: Seq<Book>, tenant_id: i32, limit: nat)
    ensures
        scoped_page(books, tenant_id, limit).len() <= limit,
        forall|i: int|
            0 <= i < scoped_page(books, tenant_id, limit).len() ==> (#[trigger] scoped_page(
                books,
                tenant_id,
                limit,
            )[i]).user_id == tenant_id && books.contains(scoped_page(books, tenant_id, limit)[i]),
    decreases books.len(),
{
    let page = scoped_page(books, tenant_id, limit);
    if books.len() == 0 || limit == 0 {
    } else {
        let rest = books.drop_first();
        if books[0].user_id == tenant_id {
            lemma_page_scoped(rest, tenant_id, (limit - 1) as nat);
            let sub = scoped_page(rest, tenant_id, (limit - 1) as nat);
            assert forall|i: int| 0 <= i < page.len() implies (#[trigger] page[i]).user_id
                == tenant_id && books.contains(page[i]) by {
                if i == 0 {
                    assert(page[0] == books[0]);
                    assert(books.contains(books[0]));
                } else {
                    assert(page[i] == sub[i - 1]);
                    assert(rest.contains(sub[i - 1]));
                    let k = choose|k: int| 0 <= k < rest.len() && rest[k] == sub[i - 1];
                    assert(books[k + 1] == sub[i - 1]);
                    assert(books.contains(books[k + 1]));
                }
            }
        } else {
            lemma_page_scoped(rest, tenant_id, limit);
            assert forall|i: int| 0 <= i < page.len() implies (#[trigger] page[i]).user_id
                == tenant_id && books.contains(page[i]) by {
                assert(rest.contains(page[i]));
                let k = choose|k: int| 0 <= k < rest.len() && rest[k] == page[i];
                assert(books[k + 1] == page[i]);
                assert(books.contains(books[k + 1]));
            }
        }
    }
}

} // verus!
