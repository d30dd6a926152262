use todo::{PriorityEnum, Stamp, Task, TodoList};

fn at(secs: i64) -> Stamp {
    Stamp::new(secs, 0, 0).unwrap()
}

fn titled(n: usize) -> TodoList {
    let mut list = TodoList::new("todo.json");
    for k in 1..=n {
        list.add_task_at(format!("task {}", k), None, at(k as i64));
    }
    list
}

fn titles(tasks: &[Task]) -> Vec<String> {
    tasks.iter().map(|t| t.title.clone()).collect()
}

#[test]
fn scenario_add_complete_views_reset() {
    let mut list = TodoList::new("todo.json");
    list.add_task_at("task 1".to_string(), None, at(10));
    assert_eq!(list.tasks[0].id, 1);
    assert!(!list.tasks[0].done);
    list.add_task_at("task 2".to_string(), Some(PriorityEnum::High), at(20));
    assert_eq!(list.tasks[1].id, 2);
    list.complete_task_at(1, at(30));
    assert!(list.tasks[0].done);
    assert_eq!(list.tasks[0].completed_at, Some(at(30)));
    let pending: Vec<i32> = list.pending_tasks().iter().map(|t| t.id).collect();
    assert_eq!(pending, vec![2]);
    let done: Vec<i32> = list.completed_tasks().iter().map(|t| t.id).collect();
    assert_eq!(done, vec![1]);
    list.reset_tasks();
    for t in &list.tasks {
        assert!(!t.done);
        assert_eq!(t.completed_at, None);
    }
}

#[test]
fn scenario_remove_second_twice() {
    let mut list = titled(3);
    list.remove_task(2);
    assert_eq!(titles(&list.tasks), vec!["task 1", "task 3"]);
    list.remove_task(2);
    assert_eq!(titles(&list.tasks), vec!["task 1"]);
}

#[test]
fn ids_follow_adds_from_empty() {
    let list = titled(5);
    let ids: Vec<i32> = list.tasks.iter().map(|t| t.id).collect();
    assert_eq!(ids, vec![1, 2, 3, 4, 5]);
}

#[test]
fn id_after_removing_last_is_reused() {
    let mut list = titled(3);
    list.remove_task(3);
    list.add_task_at("again".to_string(), None, at(9));
    let ids: Vec<i32> = list.tasks.iter().map(|t| t.id).collect();
    assert_eq!(ids, vec![1, 2, 3]);
    list.remove_task(1);
    list.add_task_at("more".to_string(), None, at(9));
    let ids: Vec<i32> = list.tasks.iter().map(|t| t.id).collect();
    assert_eq!(ids, vec![2, 3, 4]);
}

#[test]
fn complete_twice_takes_second_time() {
    let mut list = titled(2);
    list.complete_task_at(2, at(100));
    list.complete_task_at(2, at(200));
    assert!(list.tasks[1].done);
    assert_eq!(list.tasks[1].completed_at, Some(at(200)));
    assert!(!list.tasks[0].done);
}

#[test]
fn complete_out_of_range_is_no_op() {
    let mut list = titled(2);
    for p in [0, -1, 3, i32::MIN, i32::MAX] {
        list.complete_task_at(p, at(100));
    }
    assert!(list.tasks.iter().all(|t| !t.done && t.completed_at.is_none()));
}

#[test]
fn reset_then_views() {
    let mut list = titled(3);
    list.complete_task_at(1, at(50));
    list.complete_task_at(3, at(60));
    list.reset_tasks();
    assert_eq!(list.pending_tasks().len(), 3);
    assert_eq!(list.completed_tasks().len(), 0);
}

#[test]
fn remove_out_of_range_is_no_op() {
    let mut list = titled(3);
    for p in [0, -1, -7, 4, 100, i32::MIN, i32::MAX] {
        list.remove_task(p);
        assert_eq!(titles(&list.tasks), vec!["task 1", "task 2", "task 3"]);
    }
}

#[test]
fn remove_from_empty_is_no_op() {
    let mut list = TodoList::new("todo.json");
    list.remove_task(1);
    assert!(list.tasks.is_empty());
    assert_eq!(list.path, "todo.json");
}

#[test]
fn load_keeps_saved_or_starts_empty() {
    let saved = titled(2).tasks;
    let list = TodoList::load_tasks("a.json".to_string(), Some(saved));
    assert_eq!(titles(&list.tasks), vec!["task 1", "task 2"]);
    assert_eq!(list.path, "a.json");
    let list = TodoList::load_tasks("b.json".to_string(), None);
    assert!(list.tasks.is_empty());
    assert_eq!(list.path, "b.json");
}

#[test]
fn listing_lines() {
    let mut list = TodoList::new("todo.json");
    list.add_task_at("a".to_string(), Some(PriorityEnum::High), at(0));
    list.add_task_at("b".to_string(), None, at(60));
    list.complete_task_at(2, at(3600));
    assert_eq!(
        list.list_tasks(),
        vec![
            "❌ a – created 1970-01-01 00:00:00 +00:00 - Priority high".to_string(),
            "✅ b – created 1970-01-01 00:01:00 +00:00 – completed 1970-01-01 01:00:00 +00:00"
                .to_string(),
        ]
    );
    assert_eq!(list.list_completed_tasks().len(), 1);
    assert!(list.list_pending_tasks()[0].starts_with("❌ a"));
}

#[test]
fn display_done_without_time() {
    let t = Task {
        id: 1,
        title: "x".to_string(),
        done: true,
        created_at: at(0),
        completed_at: None,
        priority: Some(PriorityEnum::Low),
    };
    assert_eq!(
        t.display(),
        "✅ x – created 1970-01-01 00:00:00 +00:00 – completed Not completed - Priority low"
    );
}

#[test]
fn priority_levels() {
    assert_eq!(PriorityEnum::High.level(), "high");
    assert_eq!(PriorityEnum::Medium.level(), "medium");
    assert_eq!(PriorityEnum::Low.level(), "low");
}
