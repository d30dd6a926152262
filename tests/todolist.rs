use tempfile::NamedTempFile;
use todo::{PriorityEnum, Task, TodoList};

fn temp_path() -> String {
    NamedTempFile::new().unwrap().path().to_str().unwrap().to_string()
}

#[test]
fn test_new_todolist_is_empty() {
    let path = temp_path();
    let todolist = TodoList::new(&path);
    assert_eq!(todolist.tasks.len(), 0);
    assert_eq!(&todolist.path, &path);
}

#[test]
fn test_add_task_increase_length() {
    let path = temp_path();
    let mut todolist = TodoList::new(&path);
    todolist.add_task("task 1".to_string(), None);
    assert_eq!(todolist.tasks.len(), 1);
    todolist.add_task("task 2".to_string(), None);
    assert_eq!(todolist.tasks.len(), 2);
}

#[test]
fn test_remove_task_decrease_length() {
    let path = temp_path();
    let mut todolist = TodoList::new(&path);
    todolist.add_task("task 1".to_string(), None);
    todolist.add_task("task 2".to_string(), None);
    todolist.remove_task(2);
    assert_eq!(todolist.tasks.len(), 1);
}

#[test]
fn test_add_tasks_with_priority() {
    let path = temp_path();
    let mut todolist = TodoList::new(&path);
    todolist.add_task("task 1".to_string(), Some(PriorityEnum::High));
    todolist.add_task("task 2".to_string(), Some(PriorityEnum::Medium));
    todolist.add_task("task 2".to_string(), Some(PriorityEnum::Low));
    todolist.add_task("task 2".to_string(), None);
    assert_eq!(
        todolist.tasks.get(0).unwrap().priority,
        Some(PriorityEnum::High)
    );
    assert_eq!(
        todolist.tasks.get(1).unwrap().priority,
        Some(PriorityEnum::Medium)
    );
    assert_eq!(
        todolist.tasks.get(2).unwrap().priority,
        Some(PriorityEnum::Low)
    );
    assert_eq!(todolist.tasks.get(3).unwrap().priority, None);
}

#[test]
fn test_task_ids_are_incremented() {
    let path = temp_path();
    let mut todolist = TodoList::new(&path);
    todolist.add_task("task 1".to_string(), None);
    assert_eq!(todolist.tasks.get(0).unwrap().id, 1);
    todolist.add_task("task 2".to_string(), None);
    assert_eq!(todolist.tasks.get(1).unwrap().id, 2);
}

#[test]
fn test_complete_task_changes_status() {
    let path = temp_path();
    let mut todolist = TodoList::new(&path);
    todolist.add_task("task 1".to_string(), None);
    assert_eq!(todolist.tasks.get(0).unwrap().done, false);
    todolist.complete_task(1);
    assert_eq!(todolist.tasks.get(0).unwrap().done, true);
}

#[test]
fn test_complete_task_changes_completed_at() {
    let path = temp_path();
    let mut todolist = TodoList::new(&path);
    todolist.add_task("task 1".to_string(), None);
    assert_eq!(todolist.tasks.get(0).unwrap().completed_at, None);
    todolist.complete_task(1);
    assert_ne!(todolist.tasks.get(0).unwrap().completed_at, None);
}

#[test]
fn test_completed_task_iterator() {
    let path = temp_path();
    let mut todolist = TodoList::new(&path);
    todolist.add_task("task 1".to_string(), None);
    todolist.add_task("task 2".to_string(), None);
    todolist.add_task("task 3".to_string(), None);
    let completed_tasks: Vec<&Task> = todolist.completed_tasks();
    assert_eq!(completed_tasks.len(), 0);
    todolist.complete_task(2);
    todolist.complete_task(3);
    let completed_tasks: Vec<&Task> = todolist.completed_tasks();
    assert_eq!(completed_tasks.len(), 2);
}

#[test]
fn test_pending_task_iterator() {
    let path = temp_path();
    let mut todolist = TodoList::new(&path);
    todolist.add_task("task 1".to_string(), None);
    todolist.add_task("task 2".to_string(), None);
    todolist.add_task("task 3".to_string(), None);
    let pending_tasks: Vec<&Task> = todolist.pending_tasks();
    assert_eq!(pending_tasks.len(), 3);
    todolist.complete_task(2);
    todolist.complete_task(3);
    let pending_tasks: Vec<&Task> = todolist.pending_tasks();
    assert_eq!(pending_tasks.len(), 1);
}

#[test]
fn test_reset_all_tasks() {
    let path = temp_path();
    let mut todolist = TodoList::new(&path);
    todolist.add_task("task 1".to_string(), None);
    todolist.add_task("task 2".to_string(), None);
    todolist.add_task("task 3".to_string(), None);
    todolist.complete_task(1);
    todolist.complete_task(2);
    todolist.reset_tasks();
    let pending_tasks: Vec<&Task> = todolist.pending_tasks();
    assert_eq!(pending_tasks.len(), 3);
}
