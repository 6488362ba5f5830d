use notes_service::CreateNoteSchema;
use notes_service::FilterOptions;
use notes_service::NoteError;
use notes_service::NoteModel;
use notes_service::NoteModelController;
use notes_service::NoteStore;
use notes_service::UpdateNoteSchema;
use notes_service::error::classify_insert_failure;
use notes_service::error::str_contains;
use notes_service::schema::pagination_window;

fn create_schema(title: &str, content: &str, category: Option<&str>) -> CreateNoteSchema {
    CreateNoteSchema {
        title: title.to_string(),
        content: content.to_string(),
        category: category.map(|c| c.to_string()),
    }
}

fn empty_update() -> UpdateNoteSchema {
    UpdateNoteSchema { title: None, content: None, category: None, published: None }
}

fn seeded_store(n: u64) -> NoteStore {
    let mut store = NoteStore::new();
    for k in 1..=n {
        let data = create_schema(&format!("title-{}", k), &format!("content-{}", k), None);
        let created = NoteModelController::create_with_time(&mut store, data, 1_000 + k as i64)
            .expect("seeding create");
        assert_eq!(created.id, k);
    }
    store
}

fn ids_of(notes: &[NoteModel]) -> Vec<u64> {
    notes.iter().map(|n| n.id).collect()
}

#[test]
fn list_pages_are_bounded_sorted_and_disjoint() {
    let store = seeded_store(5);
    let page1 = NoteModelController::find_all(
        &store,
        FilterOptions { page: Some(1), limit: Some(2) },
    )
    .unwrap();
    let page2 = NoteModelController::find_all(
        &store,
        FilterOptions { page: Some(2), limit: Some(2) },
    )
    .unwrap();
    let page3 = NoteModelController::find_all(
        &store,
        FilterOptions { page: Some(3), limit: Some(2) },
    )
    .unwrap();
    assert_eq!(ids_of(&page1), vec![1, 2]);
    assert_eq!(ids_of(&page2), vec![3, 4]);
    assert_eq!(ids_of(&page3), vec![5]);
    assert!(page1.len() <= 2 && page2.len() <= 2 && page3.len() <= 2);
    for a in ids_of(&page1) {
        assert!(!ids_of(&page2).contains(&a));
    }
    for a in ids_of(&page2) {
        assert!(!ids_of(&page3).contains(&a));
    }
}

#[test]
fn list_defaults_and_page_clamping() {
    let store = seeded_store(12);
    let defaults =
        NoteModelController::find_all(&store, FilterOptions { page: None, limit: None }).unwrap();
    assert_eq!(ids_of(&defaults), (1..=10).collect::<Vec<u64>>());
    let page_zero = NoteModelController::find_all(
        &store,
        FilterOptions { page: Some(0), limit: Some(3) },
    )
    .unwrap();
    assert_eq!(ids_of(&page_zero), vec![1, 2, 3]);
}

#[test]
fn list_out_of_range_page_is_empty_success() {
    let store = seeded_store(3);
    let r = NoteModelController::find_all(
        &store,
        FilterOptions { page: Some(9), limit: Some(10) },
    )
    .unwrap();
    assert!(r.is_empty());
    let overflow = NoteModelController::find_all(
        &store,
        FilterOptions { page: Some(usize::MAX), limit: Some(usize::MAX) },
    )
    .unwrap();
    assert!(overflow.is_empty());
}

#[test]
fn pagination_window_exact_values() {
    assert_eq!(
        pagination_window(&FilterOptions { page: Some(3), limit: Some(10) }),
        Some((10, 20))
    );
    assert_eq!(pagination_window(&FilterOptions { page: None, limit: None }), Some((10, 0)));
    assert_eq!(pagination_window(&FilterOptions { page: Some(0), limit: Some(7) }), Some((7, 0)));
    assert_eq!(
        pagination_window(&FilterOptions { page: Some(usize::MAX), limit: Some(usize::MAX) }),
        None
    );
}

#[test]
fn create_then_get_returns_equal_note() {
    let mut store = NoteStore::new();
    let created = NoteModelController::create_with_time(
        &mut store,
        create_schema("shopping", "milk and eggs", Some("home")),
        42,
    )
    .unwrap();
    let fetched = NoteModelController::find_by_id(&store, created.id).unwrap();
    assert_eq!(fetched.id, created.id);
    assert_eq!(fetched.title, created.title);
    assert_eq!(fetched.content, created.content);
    assert_eq!(fetched.category, created.category);
    assert_eq!(fetched.published, created.published);
    assert_eq!(fetched.created_at, created.created_at);
    assert_eq!(fetched.updated_at, created.updated_at);
    assert_eq!(fetched.created_at, Some(42));
    assert_eq!(fetched.updated_at, None);
    assert_eq!(fetched.published, None);
}

#[test]
fn create_duplicate_title_fails_and_keeps_count() {
    let mut store = NoteStore::new();
    NoteModelController::create_with_time(&mut store, create_schema("A", "one", None), 1).unwrap();
    let before = store.len();
    let r = NoteModelController::create_with_time(&mut store, create_schema("A", "two", None), 2);
    assert_eq!(r.unwrap_err(), NoteError::UniqueViolation);
    assert_eq!(store.len(), before);
}

#[test]
fn empty_update_keeps_fields_and_advances_updated_at() {
    let mut store = NoteStore::new();
    let created = NoteModelController::create_with_time(
        &mut store,
        create_schema("A", "B", Some("cat")),
        100,
    )
    .unwrap();
    let updated =
        NoteModelController::update_with_time(&mut store, created.id, empty_update(), 200)
            .unwrap();
    assert_eq!(updated.title, created.title);
    assert_eq!(updated.content, created.content);
    assert_eq!(updated.category, created.category);
    assert_eq!(updated.published, created.published);
    assert_eq!(updated.created_at, created.created_at);
    assert_eq!(updated.updated_at, Some(200));
}

#[test]
fn partial_update_replaces_only_supplied_fields() {
    let mut store = NoteStore::new();
    let created =
        NoteModelController::create_with_time(&mut store, create_schema("A", "B", None), 100)
            .unwrap();
    let patch = UpdateNoteSchema {
        title: None,
        content: Some("C".to_string()),
        category: None,
        published: Some(true),
    };
    let updated =
        NoteModelController::update_with_time(&mut store, created.id, patch, 300).unwrap();
    assert_eq!(updated.title, "A");
    assert_eq!(updated.content, "C");
    assert_eq!(updated.category, Some("".to_string()));
    assert_eq!(updated.published, Some(true));
    assert_eq!(updated.created_at, Some(100));
    assert_eq!(updated.updated_at, Some(300));
}

#[test]
fn update_missing_id_is_not_found() {
    let mut store = seeded_store(2);
    let r = NoteModelController::update_with_time(&mut store, 99, empty_update(), 1);
    assert_eq!(r.unwrap_err(), NoteError::NotFound);
}

#[test]
fn update_to_duplicate_title_is_reported_not_found() {
    let mut store = seeded_store(2);
    let patch = UpdateNoteSchema {
        title: Some("title-1".to_string()),
        content: None,
        category: None,
        published: None,
    };
    let r = NoteModelController::update_with_time(&mut store, 2, patch, 10);
    assert_eq!(r.unwrap_err(), NoteError::NotFound);
    let untouched = NoteModelController::find_by_id(&store, 2).unwrap();
    assert_eq!(untouched.title, "title-2");
    assert_eq!(untouched.updated_at, None);
}

#[test]
fn delete_then_get_fails_and_second_delete_is_not_found() {
    let mut store = seeded_store(3);
    assert_eq!(NoteModelController::delete(&mut store, 2), Ok(()));
    let g = NoteModelController::find_by_id(&store, 2);
    assert_eq!(g.unwrap_err(), NoteError::NotFound);
    assert_eq!(NoteModelController::delete(&mut store, 2), Err(NoteError::NotFound));
    assert_eq!(store.len(), 2);
    assert_eq!(
        ids_of(&NoteModelController::find_all(
            &store,
            FilterOptions { page: None, limit: None }
        )
        .unwrap()),
        vec![1, 3]
    );
}

#[test]
fn scenario_create_then_rename() {
    let mut store = NoteStore::new();
    let created =
        NoteModelController::create_with_time(&mut store, create_schema("A", "B", None), 500)
            .unwrap();
    assert_ne!(created.id, 0);
    assert_eq!(created.category, Some("".to_string()));
    assert_eq!(created.published, None);
    let patch = UpdateNoteSchema {
        title: Some("A2".to_string()),
        content: None,
        category: None,
        published: None,
    };
    let updated =
        NoteModelController::update_with_time(&mut store, created.id, patch, 800).unwrap();
    assert_eq!(updated.title, "A2");
    assert_eq!(updated.content, "B");
    assert_eq!(updated.updated_at, Some(800));
    assert!(updated.updated_at.unwrap() > updated.created_at.unwrap());
}

#[test]
fn wall_clock_create_and_update_follow_same_rules() {
    let mut store = NoteStore::new();
    let created = NoteModelController::create(&mut store, create_schema("A", "B", None)).unwrap();
    assert_ne!(created.id, 0);
    assert!(created.created_at.is_some());
    assert_eq!(created.updated_at, None);
    let updated = NoteModelController::update(&mut store, created.id, empty_update()).unwrap();
    assert_eq!(updated.title, created.title);
    assert_eq!(updated.content, created.content);
    assert!(updated.updated_at.is_some());
}

#[test]
fn insert_failure_text_classification() {
    let driver_text = "error returned from database: duplicate key value violates unique \
                       constraint \"notes_title_key\"";
    assert_eq!(classify_insert_failure(driver_text.to_string()), NoteError::UniqueViolation);
    let other = "connection reset by peer";
    assert_eq!(
        classify_insert_failure(other.to_string()),
        NoteError::InternalError(other.to_string())
    );
}

#[test]
fn substring_search_edges() {
    assert!(str_contains("hay", ""));
    assert!(str_contains("", ""));
    assert!(!str_contains("", "a"));
    assert!(!str_contains("ab", "abc"));
    assert!(str_contains("abc", "abc"));
    assert!(str_contains("xabcx", "abc"));
    assert!(!str_contains("xabx", "abc"));
}
