use download_store::model::StoreError;
use download_store::record::{DownloadRecord, NewDownload, RecordChange};
use download_store::store::RecordStore;

fn ready() -> RecordStore {
    let mut store = RecordStore::new();
    store.ensure_schema();
    store
}

fn job(unique_id: &str) -> NewDownload {
    NewDownload::new(String::from(unique_id))
}

fn row(id: i64, unique_id: &str) -> DownloadRecord {
    job(unique_id).into_record(id)
}

#[test]
fn a_new_store_has_no_table() {
    let store = RecordStore::new();
    assert!(!store.has_table());
}

#[test]
fn ensure_schema_creates_the_table() {
    let mut store = RecordStore::new();
    store.ensure_schema();
    assert!(store.has_table());
    assert_eq!(store.len(), Ok(0));
}

#[test]
fn ensure_schema_twice_is_ensure_schema_once() {
    let mut once = RecordStore::new();
    once.ensure_schema();
    let mut twice = RecordStore::new();
    twice.ensure_schema();
    twice.ensure_schema();
    assert!(twice.has_table());
    assert_eq!(once.records(), twice.records());
    assert_eq!(once.insert(job("a")), twice.insert(job("a")));
}

#[test]
fn ensure_schema_keeps_the_rows_that_are_there() {
    let mut store = ready();
    let id = store.insert(job("job-1")).unwrap();
    store.ensure_schema();
    assert_eq!(store.len(), Ok(1));
    assert_eq!(store.get(id), Ok(Some(&row(1, "job-1"))));
    assert_eq!(store.insert(job("job-2")), Ok(2));
}

#[test]
fn nothing_works_before_the_table_exists() {
    let mut store = RecordStore::new();
    assert_eq!(store.insert(job("job-1")), Err(StoreError::NoSuchTable));
    assert_eq!(store.get(1), Err(StoreError::NoSuchTable));
    assert_eq!(
        store.update(1, RecordChange::none()),
        Err(StoreError::NoSuchTable)
    );
    assert_eq!(store.delete(1), Err(StoreError::NoSuchTable));
    assert_eq!(store.len(), Err(StoreError::NoSuchTable));
    assert_eq!(store.records(), Err(StoreError::NoSuchTable));
    assert!(!store.has_table());
}

#[test]
fn insert_job_1_takes_the_defaults() {
    let mut store = ready();
    let new = NewDownload {
        web_url: Some(String::from("https://example.com/a")),
        ..job("job-1")
    };
    let id = store.insert(new).unwrap();
    assert_eq!(id, 1);
    let record = store.get(id).unwrap().unwrap();
    assert_eq!(record.id, id);
    assert_eq!(record.unique_id, "job-1");
    assert_eq!(record.web_url.as_deref(), Some("https://example.com/a"));
    assert_eq!(record.active, true);
    assert_eq!(record.failed, false);
    assert_eq!(record.completed, false);
    assert_eq!(record.is_paused, false);
    assert_eq!(record.format_id, None);
    assert_eq!(record.title, None);
    assert_eq!(record.tracking_message, None);
}

#[test]
fn update_completed_keeps_id_and_unique_id() {
    let mut store = ready();
    let id = store
        .insert(NewDownload {
            web_url: Some(String::from("https://example.com/a")),
            ..job("job-1")
        })
        .unwrap();
    let changed = store.update(
        id,
        RecordChange {
            completed: Some(true),
            active: Some(false),
            ..RecordChange::none()
        },
    );
    assert_eq!(changed, Ok(true));
    let record = store.get(id).unwrap().unwrap();
    assert_eq!(record.completed, true);
    assert_eq!(record.active, false);
    assert_eq!(record.id, id);
    assert_eq!(record.unique_id, "job-1");
    assert_eq!(record.web_url.as_deref(), Some("https://example.com/a"));
    assert_eq!(record.failed, false);
    assert_eq!(record.is_paused, false);
}

#[test]
fn delete_by_id_removes_the_row() {
    let mut store = ready();
    let id = store.insert(job("job-1")).unwrap();
    assert_eq!(store.delete(id), Ok(true));
    assert_eq!(store.get(id), Ok(None));
    assert_eq!(store.len(), Ok(0));
}

#[test]
fn identifiers_count_up_from_one() {
    let mut store = ready();
    assert_eq!(store.insert(job("a")), Ok(1));
    assert_eq!(store.insert(job("b")), Ok(2));
    assert_eq!(store.insert(job("c")), Ok(3));
    assert_eq!(store.len(), Ok(3));
}

#[test]
fn an_identifier_is_not_given_twice() {
    let mut store = ready();
    assert_eq!(store.insert(job("a")), Ok(1));
    assert_eq!(store.insert(job("b")), Ok(2));
    assert_eq!(store.delete(2), Ok(true));
    assert_eq!(store.insert(job("c")), Ok(3));
    assert_eq!(store.delete(1), Ok(true));
    assert_eq!(store.delete(3), Ok(true));
    assert_eq!(store.insert(job("d")), Ok(4));
    assert_eq!(store.get(1), Ok(None));
    assert_eq!(store.get(2), Ok(None));
    assert_eq!(store.get(3), Ok(None));
    assert_eq!(store.get(4), Ok(Some(&row(4, "d"))));
}

#[test]
fn the_same_unique_id_may_be_inserted_twice() {
    let mut store = ready();
    assert_eq!(store.insert(job("same")), Ok(1));
    assert_eq!(store.insert(job("same")), Ok(2));
    assert_eq!(store.get(1), Ok(Some(&row(1, "same"))));
    assert_eq!(store.get(2), Ok(Some(&row(2, "same"))));
}

#[test]
fn update_of_a_missing_row_changes_nothing() {
    let mut store = ready();
    store.insert(job("a")).unwrap();
    let before = store.records().unwrap().clone();
    assert_eq!(
        store.update(
            5,
            RecordChange {
                failed: Some(true),
                ..RecordChange::none()
            }
        ),
        Ok(false)
    );
    assert_eq!(store.records().unwrap(), &before);
}

#[test]
fn update_leaves_the_other_rows_alone() {
    let mut store = ready();
    store.insert(job("a")).unwrap();
    store.insert(job("b")).unwrap();
    store.insert(job("c")).unwrap();
    assert_eq!(
        store.update(
            2,
            RecordChange {
                is_paused: Some(true),
                tracking_message: Some(Some(String::from("paused"))),
                ..RecordChange::none()
            }
        ),
        Ok(true)
    );
    assert_eq!(store.get(1), Ok(Some(&row(1, "a"))));
    assert_eq!(store.get(3), Ok(Some(&row(3, "c"))));
    let changed = store.get(2).unwrap().unwrap();
    assert_eq!(changed.id, 2);
    assert_eq!(changed.is_paused, true);
    assert_eq!(changed.tracking_message.as_deref(), Some("paused"));
    assert_eq!(changed.unique_id, "b");
}

#[test]
fn update_may_change_the_unique_id_but_not_the_id() {
    let mut store = ready();
    let id = store.insert(job("before")).unwrap();
    assert_eq!(
        store.update(
            id,
            RecordChange {
                unique_id: Some(String::from("after")),
                ..RecordChange::none()
            }
        ),
        Ok(true)
    );
    assert_eq!(store.get(id), Ok(Some(&row(id, "after"))));
}

#[test]
fn delete_of_a_missing_row_changes_nothing() {
    let mut store = ready();
    store.insert(job("a")).unwrap();
    assert_eq!(store.delete(9), Ok(false));
    assert_eq!(store.delete(0), Ok(false));
    assert_eq!(store.delete(-1), Ok(false));
    assert_eq!(store.len(), Ok(1));
}

#[test]
fn delete_leaves_the_other_rows_alone() {
    let mut store = ready();
    store.insert(job("a")).unwrap();
    store.insert(job("b")).unwrap();
    store.insert(job("c")).unwrap();
    assert_eq!(store.delete(2), Ok(true));
    assert_eq!(store.records().unwrap(), &vec![row(1, "a"), row(3, "c")]);
    assert_eq!(store.delete(2), Ok(false));
}

#[test]
fn get_of_an_identifier_never_given_finds_nothing() {
    let mut store = ready();
    store.insert(job("a")).unwrap();
    assert_eq!(store.get(0), Ok(None));
    assert_eq!(store.get(2), Ok(None));
    assert_eq!(store.get(-5), Ok(None));
    assert_eq!(store.get(i64::MAX), Ok(None));
}

#[test]
fn records_come_in_the_order_of_their_identifiers() {
    let mut store = ready();
    for name in ["a", "b", "c", "d"] {
        store.insert(job(name)).unwrap();
    }
    store.delete(1).unwrap();
    store.insert(job("e")).unwrap();
    let ids: Vec<i64> = store.records().unwrap().iter().map(|r| r.id).collect();
    assert_eq!(ids, vec![2, 3, 4, 5]);
}

#[test]
fn from_rows_restores_a_table() {
    let rows = vec![row(2, "b"), row(5, "e")];
    let mut store = RecordStore::from_rows(rows.clone(), 7).unwrap();
    assert!(store.has_table());
    assert_eq!(store.records().unwrap(), &rows);
    assert_eq!(store.get(5), Ok(Some(&row(5, "e"))));
    assert_eq!(store.get(7), Ok(None));
    assert_eq!(store.insert(job("h")), Ok(8));
}

#[test]
fn from_rows_takes_an_empty_table() {
    let mut store = RecordStore::from_rows(Vec::new(), 0).unwrap();
    assert_eq!(store.len(), Ok(0));
    assert_eq!(store.insert(job("a")), Ok(1));
}

#[test]
fn from_rows_refuses_a_repeated_identifier() {
    assert!(RecordStore::from_rows(vec![row(1, "a"), row(1, "b")], 5).is_none());
}

#[test]
fn from_rows_refuses_rows_out_of_order() {
    assert!(RecordStore::from_rows(vec![row(2, "a"), row(1, "b")], 5).is_none());
}

#[test]
fn from_rows_refuses_identifiers_out_of_range() {
    assert!(RecordStore::from_rows(vec![row(0, "a")], 5).is_none());
    assert!(RecordStore::from_rows(vec![row(-3, "a")], 5).is_none());
    assert!(RecordStore::from_rows(vec![row(6, "a")], 5).is_none());
    assert!(RecordStore::from_rows(Vec::new(), -1).is_none());
    assert!(RecordStore::from_rows(vec![row(5, "a")], 5).is_some());
}

#[test]
fn insert_is_refused_when_the_identifiers_are_used_up() {
    let rows = vec![row(i64::MAX, "last")];
    let mut store = RecordStore::from_rows(rows.clone(), i64::MAX).unwrap();
    assert_eq!(store.insert(job("more")), Err(StoreError::IdsExhausted));
    assert_eq!(store.records().unwrap(), &rows);
    assert_eq!(store.delete(i64::MAX), Ok(true));
    assert_eq!(store.insert(job("more")), Err(StoreError::IdsExhausted));
}

#[test]
fn the_last_identifier_can_still_be_given() {
    let mut store = RecordStore::from_rows(Vec::new(), i64::MAX - 1).unwrap();
    assert_eq!(store.insert(job("last")), Ok(i64::MAX));
    assert_eq!(store.insert(job("more")), Err(StoreError::IdsExhausted));
}

#[test]
fn lookup_finds_each_of_many_rows() {
    let mut store = ready();
    for id in 1..=200i64 {
        assert_eq!(store.insert(job(&format!("job-{}", id))), Ok(id));
    }
    for id in (1..=200i64).filter(|id| id % 3 == 0) {
        assert_eq!(store.delete(id), Ok(true));
    }
    for id in -1..=202i64 {
        let found = store.get(id).unwrap();
        if (1..=200).contains(&id) && id % 3 != 0 {
            assert_eq!(found, Some(&row(id, &format!("job-{}", id))));
        } else {
            assert_eq!(found, None);
        }
    }
    assert_eq!(store.len(), Ok(134));
    assert_eq!(store.insert(job("next")), Ok(201));
}

#[test]
fn lookup_in_a_table_of_one_row() {
    let mut store = ready();
    store.insert(job("only")).unwrap();
    assert_eq!(store.get(0), Ok(None));
    assert_eq!(store.get(1), Ok(Some(&row(1, "only"))));
    assert_eq!(store.get(2), Ok(None));
    assert_eq!(store.update(2, RecordChange::none()), Ok(false));
    assert_eq!(store.update(1, RecordChange::none()), Ok(true));
    assert_eq!(store.get(1), Ok(Some(&row(1, "only"))));
}
