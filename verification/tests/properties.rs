use task_list::{Task, TaskList};

fn record(title: &str, description: &str) -> TaskList {
    TaskList {
        title: title.to_owned(),
        description: description.to_owned(),
    }
}

#[test]
fn new_and_default_are_both_empty() {
    let a = Task::new();
    let b = Task::default();
    assert_eq!(a.get_list(), Vec::new());
    assert_eq!(b.get_list(), Vec::new());
    assert_eq!(a.get_task(0), None);
    assert_eq!(b.get_task(0), None);
}

#[test]
fn append_monotonicity_concrete() {
    let mut task = Task::new();
    task.add("first".to_owned(), "d1".to_owned());
    task.add("second".to_owned(), "d2".to_owned());
    task.add("third".to_owned(), "d3".to_owned());

    let list = task.get_list();
    assert_eq!(list.len(), 3);
    assert_eq!(list[0], record("first", "d1"));
    assert_eq!(list[1], record("second", "d2"));
    assert_eq!(list[2], record("third", "d3"));
}

#[test]
fn get_after_append_returns_new_record() {
    let mut task = Task::new();
    task.add("old".to_owned(), "already here".to_owned());
    task.add("fresh".to_owned(), "just appended".to_owned());
    assert_eq!(task.get_task(1), Some(record("fresh", "just appended")));
}

#[test]
fn get_out_of_range_is_absent() {
    let empty = Task::new();
    assert_eq!(empty.get_task(0), None);
    assert_eq!(empty.get_task(7), None);

    let mut task = Task::new();
    task.add("only".to_owned(), "one".to_owned());
    assert_eq!(task.get_task(1), None);
    assert_eq!(task.get_task(2), None);
    assert_eq!(task.get_task(u32::MAX), None);
}

#[test]
fn update_round_trip_leaves_neighbors_unchanged() {
    let mut task = Task::new();
    task.add("a".to_owned(), "1".to_owned());
    task.add("b".to_owned(), "2".to_owned());
    task.add("c".to_owned(), "3".to_owned());

    task.update_task(1, "B".to_owned(), "two".to_owned());

    assert_eq!(task.get_task(0), Some(record("a", "1")));
    assert_eq!(task.get_task(1), Some(record("B", "two")));
    assert_eq!(task.get_task(2), Some(record("c", "3")));
    assert_eq!(task.get_list().len(), 3);
}

#[test]
fn update_accepts_empty_strings() {
    let mut task = Task::new();
    task.add("a".to_owned(), "1".to_owned());
    task.update_task(0, "".to_owned(), "".to_owned());
    assert_eq!(task.get_task(0), Some(record("", "")));
}

#[test]
fn delete_shrinks_length_until_empty() {
    let mut task = Task::new();
    task.add("a".to_owned(), "1".to_owned());
    task.add("b".to_owned(), "2".to_owned());
    assert_eq!(task.get_list().len(), 2);

    task.delete_task(1);
    assert_eq!(task.get_list().len(), 1);
    assert_eq!(task.get_task(1), None);

    task.delete_task(0);
    assert_eq!(task.get_list().len(), 0);
    assert_eq!(task.get_task(0), None);
}

#[test]
fn delete_preserves_order_of_remaining_records() {
    let mut task = Task::new();
    task.add("a".to_owned(), "1".to_owned());
    task.add("b".to_owned(), "2".to_owned());
    task.add("c".to_owned(), "3".to_owned());
    task.add("d".to_owned(), "4".to_owned());

    task.delete_task(1);

    let list = task.get_list();
    assert_eq!(list.len(), 3);
    assert_eq!(list[0], record("a", "1"));
    assert_eq!(list[1], record("c", "3"));
    assert_eq!(list[2], record("d", "4"));
}

#[test]
fn get_list_copy_is_independent_of_store() {
    let mut task = Task::new();
    task.add("kept".to_owned(), "original".to_owned());

    let mut copy = task.get_list();
    copy[0].title = "changed".to_owned();
    copy.clear();

    assert_eq!(task.get_task(0), Some(record("kept", "original")));
}
