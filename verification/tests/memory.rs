use label_store::memory::{LabelRepositoryForMemory, LabelStore};
use label_store::repository::{Label, LabelRepository, RepositoryError};

#[test]
fn label_crud_scenario() {
    let name = "label text".to_string();
    let id: i32 = 1;
    let expected = Label::new(id, name.clone());
    let repository = LabelRepositoryForMemory::new();

    // create
    let label = repository.create(name).expect("failed create label");
    assert_eq!(expected, label);

    // all
    let labels = repository.all().expect("failed to get all");
    assert_eq!(vec![expected], labels);

    // delete
    let res = repository.delete(id);
    assert!(res.is_ok());
}

#[test]
fn empty_store_lists_nothing() {
    let repository = LabelRepositoryForMemory::new();
    let labels = repository.all().expect("listing an empty store failed");
    assert!(labels.is_empty());
}

#[test]
fn listing_twice_returns_the_same_sequence() {
    let repository = LabelRepositoryForMemory::new();
    repository.create("one".to_string()).expect("create failed");
    repository.create("two".to_string()).expect("create failed");
    let first = repository.all().expect("first listing failed");
    let second = repository.all().expect("second listing failed");
    assert_eq!(first, second);
}

#[test]
fn delete_of_missing_id_fails_and_changes_nothing() {
    let repository = LabelRepositoryForMemory::new();
    repository.create("kept".to_string()).expect("create failed");
    let before = repository.all().expect("listing failed");

    let res = repository.delete(42);
    assert_eq!(res, Err(RepositoryError::NotFound(42)));

    let after = repository.all().expect("listing failed");
    assert_eq!(before, after);
}

#[test]
fn many_creates_hand_out_distinct_ids() {
    let repository = LabelRepositoryForMemory::new();
    let n: usize = 10;
    let mut ids: Vec<i32> = Vec::new();
    for k in 0..n {
        let handle = repository.clone();
        let label = handle.create(format!("label {}", k)).expect("create failed");
        ids.push(label.id);
    }
    for a in 0..n {
        for b in 0..n {
            if a != b {
                assert_ne!(ids[a], ids[b]);
            }
        }
    }
    let labels = repository.all().expect("listing failed");
    assert_eq!(labels.len(), n);
}

#[test]
fn crud_round_trip_on_a_fresh_store() {
    let repository = LabelRepositoryForMemory::new();

    let label = repository.create("label text".to_string()).expect("create failed");
    assert_eq!(label, Label::new(1, "label text".to_string()));

    let labels = repository.all().expect("listing failed");
    assert_eq!(labels, vec![Label::new(1, "label text".to_string())]);

    repository.delete(1).expect("delete failed");

    let labels = repository.all().expect("listing failed");
    assert!(labels.is_empty());
}

#[test]
fn delete_twice_fails_the_second_time() {
    let repository = LabelRepositoryForMemory::new();
    let label = repository.create("short lived".to_string()).expect("create failed");

    assert!(repository.delete(label.id).is_ok());
    assert_eq!(repository.delete(label.id), Err(RepositoryError::NotFound(label.id)));
}

#[test]
fn clones_share_one_logical_store() {
    let repository = LabelRepositoryForMemory::new();
    let other = repository.clone();

    repository.create("shared".to_string()).expect("create failed");

    let labels = other.all().expect("listing through the clone failed");
    assert_eq!(labels, vec![Label::new(1, "shared".to_string())]);

    other.delete(1).expect("delete through the clone failed");
    assert!(repository.all().expect("listing failed").is_empty());
}

#[test]
fn listing_is_in_ascending_id_order() {
    let repository = LabelRepositoryForMemory::new();
    repository.create("a".to_string()).expect("create failed");
    repository.create("b".to_string()).expect("create failed");
    repository.create("c".to_string()).expect("create failed");

    let labels = repository.all().expect("listing failed");
    let ids: Vec<i32> = labels.iter().map(|l| l.id).collect();
    assert_eq!(ids, vec![1, 2, 3]);
}

#[test]
fn ids_are_not_reused_after_a_delete() {
    let repository = LabelRepositoryForMemory::new();
    let first = repository.create("first".to_string()).expect("create failed");
    let second = repository.create("second".to_string()).expect("create failed");

    repository.delete(first.id).expect("delete failed");

    let third = repository.create("third".to_string()).expect("create failed");
    assert_ne!(third.id, first.id);
    assert_ne!(third.id, second.id);
}

#[test]
fn the_bare_table_supports_the_same_operations() {
    let mut table = LabelStore::new();

    let label = table.create("inner".to_string()).expect("create failed");
    assert_eq!(label, Label::new(1, "inner".to_string()));

    let labels = table.all();
    assert_eq!(labels, vec![Label::new(1, "inner".to_string())]);

    assert_eq!(table.delete(9), Err(RepositoryError::NotFound(9)));
    assert!(table.delete(1).is_ok());
    assert!(table.all().is_empty());
}
