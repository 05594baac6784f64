use file_scanner::queue_item::{lock_next_item, QueueItem};

fn item(being_worked: bool, work_started: Option<i64>, error_count: i64) -> QueueItem {
    QueueItem {
        id: 99,
        queue_item_type: String::from("hash"),
        queue_item_contents: String::from("{}"),
        work_started,
        being_worked,
        error_count,
        error_message: None,
    }
}

#[test]
fn unheld_item_is_claimable() {
    assert!(item(false, None, 0).is_claimable(0));
    assert!(item(false, Some(10), 0).is_claimable(0));
}

#[test]
fn held_item_waits_for_abandonment() {
    let held = item(false, None, 0).claim(100);
    assert!(held.being_worked);
    assert_eq!(held.work_started, Some(100));
    assert!(!held.is_claimable(99));
    assert!(held.is_claimable(100));
    assert!(!item(true, None, 0).is_claimable(i64::MAX));
}

#[test]
fn put_back_counts_the_error_and_frees_the_item() {
    let returned = item(true, Some(100), 2).put_back();
    assert!(!returned.being_worked);
    assert_eq!(returned.error_count, 3);
    assert_eq!(returned.work_started, Some(100));
    assert_eq!(returned.id, 99);
    assert_eq!(returned.queue_item_type, "hash");
    assert!(returned.is_claimable(0));
}

#[test]
fn second_lock_finds_nothing() {
    let mut rows = vec![item(false, Some(0), 0)];
    assert_eq!(lock_next_item(&mut rows, 1000, 100), Some(0));
    assert_eq!(lock_next_item(&mut rows, 1000, 100), None);
}

#[test]
fn expired_item_is_locked_again() {
    let mut rows = vec![item(true, Some(100), 0)];
    assert_eq!(lock_next_item(&mut rows, 2000, 100), Some(0));
    assert_eq!(rows[0].work_started, Some(2000));
}

#[test]
fn put_back_item_is_locked_again_with_its_error() {
    let mut rows = vec![item(false, Some(0), 0)];
    assert_eq!(lock_next_item(&mut rows, 1000, 100), Some(0));
    let returned = rows.remove(0).put_back();
    rows.push(returned);
    assert_eq!(lock_next_item(&mut rows, 1000, 100), Some(0));
    assert_eq!(rows[0].error_count, 1);
}
