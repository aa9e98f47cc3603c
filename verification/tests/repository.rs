use book_repo::model::{Author, Book, BookWithAuthorName, ListOfBooks, NewBook, RepoError};
use book_repo::storage::Storage;

fn author(id: i32, display_name: &str) -> Author {
    Author { id, display_name: display_name.to_string() }
}

fn payload(name: Option<&str>, author_id: Option<i32>, price: Option<i32>) -> NewBook {
    NewBook { user_id: None, name: name.map(|n| n.to_string()), author_id, price }
}

fn seeded() -> Storage {
    let mut s = Storage::new();
    assert!(s.add_author(author(5, "Frank Herbert")));
    assert!(s.add_author(author(8, "Ursula K. Le Guin")));
    s
}

#[test]
fn scenario_full_lifecycle() {
    let mut s = seeded();
    let created = payload(Some("Dune"), Some(5), Some(999)).create(1, &mut s).unwrap();
    assert_eq!(
        created,
        Book { id: created.id, user_id: 1, author_id: 5, name: "Dune".to_string(), price: Some(999) }
    );

    let found = Book::find_by_id(1, created.id, &s).unwrap();
    assert_eq!(found.book, created);
    assert_eq!(found.author_name, "Frank Herbert".to_string());

    assert_eq!(Book::find_by_id(2, created.id, &s), Err(RepoError::NotFound));

    let price_only = payload(None, None, Some(1099));
    assert_eq!(Book::update_by_id(1, created.id, &mut s, &price_only), Ok(()));
    let after = Book::find_by_id(1, created.id, &s).unwrap();
    assert_eq!(after.book.price, Some(1099));
    assert_eq!(after.book.name, "Dune".to_string());

    assert_eq!(Book::delete_by_id(1, created.id, &mut s), Ok(()));
    assert_eq!(Book::find_by_id(1, created.id, &s), Err(RepoError::NotFound));
}

#[test]
fn find_is_tenant_scoped() {
    let mut s = seeded();
    let owned = payload(Some("Dune"), Some(5), None).create(1, &mut s).unwrap();
    assert!(Book::find_by_id(1, owned.id, &s).is_ok());
    assert_eq!(Book::find_by_id(2, owned.id, &s), Err(RepoError::NotFound));
}

#[test]
fn find_missing_book_is_not_found() {
    let s = seeded();
    assert_eq!(Book::find_by_id(1, 1, &s), Err(RepoError::NotFound));
}

#[test]
fn find_combines_book_and_author_name() {
    let mut s = seeded();
    let b = payload(Some("The Dispossessed"), Some(8), None).create(3, &mut s).unwrap();
    assert_eq!(
        Book::find_by_id(3, b.id, &s),
        Ok(BookWithAuthorName { book: b, author_name: "Ursula K. Le Guin".to_string() })
    );
}

#[test]
fn find_dangling_author_is_unresolved() {
    let mut s = seeded();
    let b = payload(Some("Orphan"), Some(77), None).create(1, &mut s).unwrap();
    assert_eq!(Book::find_by_id(1, b.id, &s), Err(RepoError::AuthorUnresolved));
}

#[test]
fn create_forces_owner_from_tenant() {
    let mut s = seeded();
    let sneaky = NewBook {
        user_id: Some(42),
        name: Some("Dune".to_string()),
        author_id: Some(5),
        price: None,
    };
    let b = sneaky.create(7, &mut s).unwrap();
    assert_eq!(b.user_id, 7);
    assert!(Book::find_by_id(7, b.id, &s).is_ok());
    assert_eq!(Book::find_by_id(42, b.id, &s), Err(RepoError::NotFound));
}

#[test]
fn create_generates_distinct_ids() {
    let mut s = seeded();
    let a = payload(Some("One"), Some(5), None).create(1, &mut s).unwrap();
    let b = payload(Some("Two"), Some(5), None).create(1, &mut s).unwrap();
    assert_ne!(a.id, b.id);
}

#[test]
fn create_without_name_is_storage_error() {
    let mut s = seeded();
    let before = s.books.clone();
    assert_eq!(payload(None, Some(5), None).create(1, &mut s), Err(RepoError::StorageError));
    assert_eq!(s.books, before);
}

#[test]
fn create_without_author_is_storage_error() {
    let mut s = seeded();
    let before = s.books.clone();
    assert_eq!(payload(Some("Dune"), None, None).create(1, &mut s), Err(RepoError::StorageError));
    assert_eq!(s.books, before);
}

#[test]
fn empty_changeset_update_leaves_record_identical() {
    let mut s = seeded();
    let b = payload(Some("Dune"), Some(5), Some(999)).create(1, &mut s).unwrap();
    let before = s.books.clone();
    let untouched = payload(None, None, None);
    assert_eq!(Book::update_by_id(1, b.id, &mut s, &untouched), Ok(()));
    assert_eq!(s.books, before);
    assert_eq!(Book::find_by_id(1, b.id, &s).unwrap().book, b);
}

#[test]
fn update_applies_only_present_fields() {
    let mut s = seeded();
    let b = payload(Some("Dune"), Some(5), Some(999)).create(1, &mut s).unwrap();
    let retitle = payload(Some("Dune Messiah"), Some(8), None);
    assert_eq!(Book::update_by_id(1, b.id, &mut s, &retitle), Ok(()));
    let after = Book::find_by_id(1, b.id, &s).unwrap().book;
    assert_eq!(after.name, "Dune Messiah".to_string());
    assert_eq!(after.author_id, 8);
    assert_eq!(after.price, Some(999));
    assert_eq!(after.id, b.id);
}

#[test]
fn update_nonexistent_is_silent_noop() {
    let mut s = seeded();
    payload(Some("Dune"), Some(5), None).create(1, &mut s).unwrap();
    let before = s.books.clone();
    let change = payload(Some("Ghost"), None, Some(5));
    assert_eq!(Book::update_by_id(1, 999, &mut s, &change), Ok(()));
    assert_eq!(s.books, before);
}

#[test]
fn update_is_tenant_scoped() {
    let mut s = seeded();
    let b = payload(Some("Dune"), Some(5), Some(999)).create(1, &mut s).unwrap();
    let change = payload(None, None, Some(1));
    assert_eq!(Book::update_by_id(2, b.id, &mut s, &change), Ok(()));
    assert_eq!(Book::find_by_id(1, b.id, &s).unwrap().book.price, Some(999));
}

#[test]
fn update_with_owner_field_reassigns_tenant() {
    let mut s = seeded();
    let b = payload(Some("Dune"), Some(5), None).create(1, &mut s).unwrap();
    let handover = NewBook { user_id: Some(2), name: None, author_id: None, price: None };
    assert_eq!(Book::update_by_id(1, b.id, &mut s, &handover), Ok(()));
    assert_eq!(Book::find_by_id(1, b.id, &s), Err(RepoError::NotFound));
    assert!(Book::find_by_id(2, b.id, &s).is_ok());
}

#[test]
fn delete_nonexistent_is_silent_noop() {
    let mut s = seeded();
    payload(Some("Dune"), Some(5), None).create(1, &mut s).unwrap();
    let before = s.books.clone();
    assert_eq!(Book::delete_by_id(1, 999, &mut s), Ok(()));
    assert_eq!(s.books, before);
}

#[test]
fn delete_is_tenant_scoped() {
    let mut s = seeded();
    let b = payload(Some("Dune"), Some(5), None).create(1, &mut s).unwrap();
    let before = s.books.clone();
    assert_eq!(Book::delete_by_id(2, b.id, &mut s), Ok(()));
    assert_eq!(s.books, before);
    assert!(Book::find_by_id(1, b.id, &s).is_ok());
}

#[test]
fn list_is_scoped_and_truncated_to_ten() {
    let mut s = seeded();
    for i in 0..12 {
        payload(Some(&format!("Mine {i}")), Some(5), None).create(1, &mut s).unwrap();
    }
    for i in 0..3 {
        payload(Some(&format!("Theirs {i}")), Some(8), None).create(2, &mut s).unwrap();
    }
    let mine = ListOfBooks::get_list(1, &s);
    assert_eq!(mine.0.len(), 10);
    for (i, b) in mine.0.iter().enumerate() {
        assert_eq!(b.user_id, 1);
        assert_eq!(b.name, format!("Mine {i}"));
    }
    let theirs = ListOfBooks::get_list(2, &s);
    assert_eq!(theirs.0.len(), 3);
    assert!(theirs.0.iter().all(|b| b.user_id == 2));
}

#[test]
fn list_of_bookless_tenant_is_empty() {
    let mut s = seeded();
    payload(Some("Dune"), Some(5), None).create(1, &mut s).unwrap();
    assert_eq!(ListOfBooks::get_list(9, &s).0, Vec::<Book>::new());
}

#[test]
fn add_author_rejects_duplicate_id() {
    let mut s = seeded();
    assert!(!s.add_author(author(5, "Impostor")));
    let b = payload(Some("Dune"), Some(5), None).create(1, &mut s).unwrap();
    assert_eq!(Book::find_by_id(1, b.id, &s).unwrap().author_name, "Frank Herbert".to_string());
}
