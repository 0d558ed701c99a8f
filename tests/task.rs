use task_store::error::Error;
use task_store::store::TaskMac;
use task_store::task::{Task, TaskPatch, TaskStatus};

fn patch(name: Option<&str>, status: Option<TaskStatus>) -> TaskPatch {
    TaskPatch {
        name: name.map(|n| n.to_string()),
        status,
    }
}

/// Test insertion of a new task
#[test]
fn test_insert() -> Result<(), Error> {
    let mut db = TaskMac::new();

    let task_fixture = TaskPatch {
        name: Some("Hello world".to_string()),
        status: None,
    };

    let task = db.insert(task_fixture)?;
    println!("{:?}", task);
    assert_eq!(task.name, "Hello world");
    assert_eq!(task.id, 1);
    Ok(())
}

/// Test retreival of a task by id
#[test]
fn test_get() -> Result<(), Error> {
    let mut db = TaskMac::new();
    let task_fixture = TaskPatch {
        name: Some("Hello world".to_string()),
        status: Some(TaskStatus::Open),
    };
    let inserted_task = db.insert(task_fixture)?;
    let retreived_task = db.get(inserted_task.id)?;
    assert_eq!(inserted_task, retreived_task);
    Ok(())
}

/// Test update of a task name by id.
#[test]
fn test_update_name() -> Result<(), Error> {
    let mut db = TaskMac::new();
    let task_fixture = TaskPatch {
        name: Some("Hello world".to_string()),
        status: Some(TaskStatus::Open),
    };
    let inserted_task = db.insert(task_fixture)?;

    let updated_task = db.update(
        inserted_task.id,
        TaskPatch {
            name: Some("Updated".to_string()),
            status: None,
        },
    )?;

    assert_eq!(updated_task.name, "Updated");
    assert_eq!(inserted_task.id, updated_task.id);
    assert_eq!(inserted_task.status, updated_task.status);
    Ok(())
}

/// Test update of a task where nothing has changed. Should return the same task.
#[test]
fn test_update_none() -> Result<(), Error> {
    let mut db = TaskMac::new();
    let task_fixture = TaskPatch {
        name: Some("Hello world".to_string()),
        status: Some(TaskStatus::Open),
    };
    let inserted_task = db.insert(task_fixture)?;

    let updated_task = db.update(
        inserted_task.id,
        TaskPatch {
            name: None,
            status: None,
        },
    )?;

    assert_eq!(updated_task, inserted_task);
    Ok(())
}

/// Test update of a task status.
#[test]
fn test_update_status() -> Result<(), Error> {
    let mut db = TaskMac::new();
    let task_fixture = TaskPatch {
        name: Some("Hello world".to_string()),
        status: Some(TaskStatus::Open),
    };
    let inserted_task = db.insert(task_fixture)?;

    let updated_task = db.update(
        inserted_task.id,
        TaskPatch {
            name: None,
            status: Some(TaskStatus::Closed),
        },
    )?;

    assert_eq!(updated_task.name, "Hello world");
    assert_eq!(inserted_task.id, updated_task.id);
    assert_eq!(TaskStatus::Closed, updated_task.status);
    Ok(())
}

/// Test listing all tasks.
#[test]
fn test_list() -> Result<(), Error> {
    let mut db = TaskMac::new();
    let task_fixture = vec![
        TaskPatch {
            name: Some("One".to_string()),
            status: Some(TaskStatus::Open),
        },
        TaskPatch {
            name: Some("Two".to_string()),
            status: Some(TaskStatus::Closed),
        },
    ];

    let mut inserted_tasks: Vec<Task> = Vec::new();
    for task in task_fixture {
        inserted_tasks.push(db.insert(task)?);
    }

    let tasks = db.list();
    assert_eq!(tasks, inserted_tasks);
    assert!(tasks[0].id < tasks[1].id);
    assert_eq!(tasks[0].name, "One");
    assert_eq!(tasks[1].name, "Two");
    Ok(())
}

#[test]
fn get_returns_inserted_record() {
    let mut db = TaskMac::new();
    let inserted = db.insert(patch(Some("Round trip"), Some(TaskStatus::Closed))).unwrap();
    assert_eq!(db.get(inserted.id).unwrap(), inserted);
}

#[test]
fn insert_without_status_is_open() {
    let mut db = TaskMac::new();
    let task = db.insert(patch(Some("Hello world"), None)).unwrap();
    assert_eq!(task.status, TaskStatus::Open);
    assert_eq!(task.id, 1);
    assert_eq!(task.name, "Hello world");
}

#[test]
fn insert_without_name_is_refused() {
    let mut db = TaskMac::new();
    let r = db.insert(patch(None, Some(TaskStatus::Open)));
    assert!(matches!(r, Err(Error::MissingName)));
    assert!(db.list().is_empty());
    let task = db.insert(patch(Some("First"), None)).unwrap();
    assert_eq!(task.id, 1);
}

#[test]
fn insert_accepts_empty_name() {
    let mut db = TaskMac::new();
    let task = db.insert(patch(Some(""), None)).unwrap();
    assert_eq!(task.name, "");
}

#[test]
fn insert_at_stamps_given_time() {
    let mut db = TaskMac::new();
    let task = db.insert_at(patch(Some("Timed"), None), 1_700_000_000).unwrap();
    assert_eq!(task.creation_time, 1_700_000_000);
    assert_eq!(db.get(1).unwrap().creation_time, 1_700_000_000);
}

#[test]
fn insert_stamps_current_time() {
    let mut db = TaskMac::new();
    let task = db.insert(patch(Some("Now"), None)).unwrap();
    // 2020-09-13 and some centuries later.
    assert!(task.creation_time > 1_600_000_000);
    assert!(task.creation_time < 10_000_000_000);
}

#[test]
fn empty_update_keeps_record() {
    let mut db = TaskMac::new();
    let before = db.insert_at(patch(Some("Same"), Some(TaskStatus::Closed)), 42).unwrap();
    let after = db.update(before.id, patch(None, None)).unwrap();
    assert_eq!(after, before);
    assert_eq!(db.get(before.id).unwrap(), before);
}

#[test]
fn name_update_keeps_other_fields() {
    let mut db = TaskMac::new();
    let before = db.insert_at(patch(Some("Old"), Some(TaskStatus::Closed)), 7).unwrap();
    let after = db.update(before.id, patch(Some("New"), None)).unwrap();
    assert_eq!(after.id, before.id);
    assert_eq!(after.status, TaskStatus::Closed);
    assert_eq!(after.creation_time, 7);
    assert_eq!(after.name, "New");
    assert_eq!(db.get(before.id).unwrap(), after);
}

#[test]
fn update_both_fields() {
    let mut db = TaskMac::new();
    let before = db.insert_at(patch(Some("Old"), None), 7).unwrap();
    let after = db.update(before.id, patch(Some("New"), Some(TaskStatus::Closed))).unwrap();
    assert_eq!(after.name, "New");
    assert_eq!(after.status, TaskStatus::Closed);
    assert_eq!(after.creation_time, 7);
}

#[test]
fn update_missing_id_is_not_found() {
    let mut db = TaskMac::new();
    db.insert(patch(Some("Only"), None)).unwrap();
    assert!(matches!(db.update(5, patch(Some("x"), None)), Err(Error::NotFound(5))));
    assert!(matches!(db.update(5, patch(None, None)), Err(Error::NotFound(5))));
    assert_eq!(db.get(1).unwrap().name, "Only");
}

#[test]
fn delete_then_get_is_not_found() {
    let mut db = TaskMac::new();
    let task = db.insert(patch(Some("Gone"), None)).unwrap();
    assert!(db.delete(task.id).is_ok());
    assert!(matches!(db.get(task.id), Err(Error::NotFound(1))));
    assert!(db.delete(task.id).is_ok());
    assert!(db.list().is_empty());
}

#[test]
fn delete_keeps_other_tasks_in_order() {
    let mut db = TaskMac::new();
    for name in ["a", "b", "c"] {
        db.insert(patch(Some(name), None)).unwrap();
    }
    db.delete(2).unwrap();
    let names: Vec<String> = db.list().into_iter().map(|t| t.name).collect();
    assert_eq!(names, vec!["a".to_string(), "c".to_string()]);
    let d = db.insert(patch(Some("d"), None)).unwrap();
    assert_eq!(d.id, 4);
}

#[test]
fn get_never_inserted_is_not_found() {
    let db = TaskMac::new();
    assert!(matches!(db.get(1), Err(Error::NotFound(1))));
    assert!(matches!(db.get(0), Err(Error::NotFound(0))));
    assert!(matches!(db.get(-3), Err(Error::NotFound(-3))));
}

#[test]
fn mock_scenario_lists_in_insertion_order() {
    let mut db = TaskMac::new();
    let first = db.insert(patch(Some("Hello world"), None)).unwrap();
    assert_eq!(first.id, 1);
    assert_eq!(first.status.as_str(), "open");
    db.insert(patch(Some("Mock 2"), Some(TaskStatus::Closed))).unwrap();
    let tasks = db.list();
    assert_eq!(tasks.len(), 2);
    assert_eq!(tasks[0].name, "Hello world");
    assert_eq!(tasks[1].name, "Mock 2");
    assert_eq!(tasks[1].status.as_str(), "closed");
}

#[test]
fn status_text_round_trip() {
    assert_eq!(TaskStatus::Open.as_str(), "open");
    assert_eq!(TaskStatus::Closed.as_str(), "closed");
    assert_eq!(TaskStatus::parse("open"), Some(TaskStatus::Open));
    assert_eq!(TaskStatus::parse("closed"), Some(TaskStatus::Closed));
    assert_eq!(TaskStatus::parse("Open"), None);
    assert_eq!(TaskStatus::parse(""), None);
    assert_eq!(TaskStatus::default(), TaskStatus::Open);
}

#[test]
fn task_from_columns() {
    let t = Task::from_columns(3, "Row".to_string(), "closed", 99).unwrap();
    assert_eq!(t.id, 3);
    assert_eq!(t.name, "Row");
    assert_eq!(t.status, TaskStatus::Closed);
    assert_eq!(t.creation_time, 99);
    assert!(Task::from_columns(3, "Row".to_string(), "done", 99).is_none());
}

#[test]
fn patch_is_empty() {
    assert!(TaskPatch::default().is_empty());
    assert!(!patch(Some("n"), None).is_empty());
    assert!(!patch(None, Some(TaskStatus::Open)).is_empty());
}
