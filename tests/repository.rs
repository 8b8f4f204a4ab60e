use todo_repository::{
    changed_or_not_found, found_or_not_found,
    CreateTodo, RepositoryError, Todo, TodoData, TodoRepository, TodoRepositoryForMemory,
    UpdateTodo,
};

fn create_text(repository: &TodoRepositoryForMemory, text: &str) -> Todo {
    repository
        .create(CreateTodo::new(text.to_string()))
        .expect("failed create todo")
}

fn sorted_ids(todos: &[Todo]) -> Vec<i32> {
    let mut ids: Vec<i32> = todos.iter().map(|t| t.id).collect();
    ids.sort();
    ids
}

#[test]
fn todo_crud_scenario() {
    let text = "todo text".to_string();
    let id = 1;
    let expected = Todo::new(id, text.clone());
    let repository = TodoRepositoryForMemory::new();

    let todo = repository
        .create(CreateTodo { text })
        .expect("failed create todo");
    assert_eq!(expected, todo);

    let todo = repository.find(todo.id).unwrap();
    assert_eq!(expected, todo);

    let todos = repository.all().expect("failed get all todo");
    assert_eq!(vec![expected], todos);

    let text = "update todo".to_string();
    let todo = repository
        .update(
            1,
            UpdateTodo {
                text: Some(text.clone()),
                completed: Some(true),
            },
        )
        .expect("failed update todo");
    let expected = Todo {
        id,
        text,
        completed: true,
    };
    assert_eq!(expected, todo);

    let res = repository.delete(id);
    assert!(res.is_ok());
}

#[test]
fn create_buy_milk_gets_first_id() {
    let repository = TodoRepositoryForMemory::new();
    let todo = create_text(&repository, "buy milk");
    assert_eq!(
        todo,
        Todo {
            id: 1,
            text: "buy milk".to_string(),
            completed: false
        }
    );
}

#[test]
fn find_after_create_buy_milk() {
    let repository = TodoRepositoryForMemory::new();
    create_text(&repository, "buy milk");
    let found = repository.find(1).unwrap();
    assert_eq!(
        found,
        Todo {
            id: 1,
            text: "buy milk".to_string(),
            completed: false
        }
    );
}

#[test]
fn update_only_completed_keeps_text() {
    let repository = TodoRepositoryForMemory::new();
    create_text(&repository, "buy milk");
    let updated = repository
        .update(
            1,
            UpdateTodo {
                text: None,
                completed: Some(true),
            },
        )
        .unwrap();
    assert_eq!(
        updated,
        Todo {
            id: 1,
            text: "buy milk".to_string(),
            completed: true
        }
    );
    assert_eq!(repository.find(1).unwrap(), updated);
}

#[test]
fn delete_then_find_reports_not_found() {
    let repository = TodoRepositoryForMemory::new();
    create_text(&repository, "buy milk");
    assert_eq!(repository.delete(1), Ok(()));
    assert_eq!(repository.find(1), Err(RepositoryError::NotFound(1)));
}

#[test]
fn delete_twice_reports_not_found() {
    let repository = TodoRepositoryForMemory::new();
    create_text(&repository, "buy milk");
    assert_eq!(repository.delete(1), Ok(()));
    assert_eq!(repository.delete(1), Err(RepositoryError::NotFound(1)));
}

#[test]
fn all_on_empty_store_is_empty() {
    let repository = TodoRepositoryForMemory::new();
    assert_eq!(repository.all(), Ok(Vec::new()));
}

#[test]
fn creates_hand_out_distinct_ids() {
    let repository = TodoRepositoryForMemory::new();
    let ids: Vec<i32> = (0..20)
        .map(|k| create_text(&repository, &format!("task {}", k)).id)
        .collect();
    let expected: Vec<i32> = (1..=20).collect();
    assert_eq!(ids, expected);
}

#[test]
fn ids_are_not_reused_after_delete() {
    let repository = TodoRepositoryForMemory::new();
    create_text(&repository, "a");
    create_text(&repository, "b");
    assert_eq!(repository.delete(1), Ok(()));
    let third = create_text(&repository, "c");
    assert_eq!(third.id, 3);
    assert_eq!(repository.find(2).unwrap().text, "b");
    assert_eq!(sorted_ids(&repository.all().unwrap()), vec![2, 3]);
}

#[test]
fn create_defaults_to_not_completed() {
    let repository = TodoRepositoryForMemory::new();
    let todo = create_text(&repository, "");
    assert_eq!(todo.text, "");
    assert!(!todo.completed);
    let todo = create_text(&repository, "write report");
    assert_eq!(todo.text, "write report");
    assert!(!todo.completed);
}

#[test]
fn partial_updates_merge_fields() {
    let repository = TodoRepositoryForMemory::new();
    let stored = create_text(&repository, "a");
    let id = stored.id;
    let first = repository
        .update(
            id,
            UpdateTodo {
                text: Some("b".to_string()),
                completed: None,
            },
        )
        .unwrap();
    assert_eq!(
        first,
        Todo {
            id,
            text: "b".to_string(),
            completed: false
        }
    );
    let second = repository
        .update(
            id,
            UpdateTodo {
                text: None,
                completed: Some(true),
            },
        )
        .unwrap();
    assert_eq!(
        second,
        Todo {
            id,
            text: "b".to_string(),
            completed: true
        }
    );
    let unchanged = repository
        .update(
            id,
            UpdateTodo {
                text: None,
                completed: None,
            },
        )
        .unwrap();
    assert_eq!(unchanged, second);
}

#[test]
fn unknown_ids_are_not_found() {
    let repository = TodoRepositoryForMemory::new();
    create_text(&repository, "present");
    for id in [0, -1, 2, i32::MAX, i32::MIN] {
        assert_eq!(repository.find(id), Err(RepositoryError::NotFound(id)));
        assert_eq!(
            repository.update(
                id,
                UpdateTodo {
                    text: Some("x".to_string()),
                    completed: Some(true)
                }
            ),
            Err(RepositoryError::NotFound(id))
        );
        assert_eq!(repository.delete(id), Err(RepositoryError::NotFound(id)));
    }
    assert_eq!(repository.all().unwrap().len(), 1);
}

#[test]
fn update_of_deleted_id_is_not_found() {
    let repository = TodoRepositoryForMemory::new();
    create_text(&repository, "gone");
    assert_eq!(repository.delete(1), Ok(()));
    assert_eq!(
        repository.update(
            1,
            UpdateTodo {
                text: None,
                completed: Some(true)
            }
        ),
        Err(RepositoryError::NotFound(1))
    );
}

#[test]
fn deleted_id_is_absent_from_all() {
    let repository = TodoRepositoryForMemory::new();
    create_text(&repository, "a");
    create_text(&repository, "b");
    create_text(&repository, "c");
    assert_eq!(repository.delete(2), Ok(()));
    let todos = repository.all().unwrap();
    assert!(todos.iter().all(|t| t.id != 2));
    assert_eq!(sorted_ids(&todos), vec![1, 3]);
}

#[test]
fn all_lists_each_present_todo_once() {
    let repository = TodoRepositoryForMemory::new();
    for k in 0..6 {
        create_text(&repository, &format!("item {}", k));
    }
    repository.delete(4).unwrap();
    repository
        .update(
            2,
            UpdateTodo {
                text: Some("changed".to_string()),
                completed: Some(true),
            },
        )
        .unwrap();
    repository.delete(6).unwrap();
    create_text(&repository, "late");
    let todos = repository.all().unwrap();
    assert_eq!(sorted_ids(&todos), vec![1, 2, 3, 5, 7]);
    for todo in &todos {
        assert_eq!(repository.find(todo.id).as_ref(), Ok(todo));
    }
    let changed = todos.iter().find(|t| t.id == 2).unwrap();
    assert_eq!(changed.text, "changed");
    assert!(changed.completed);
}

#[test]
fn clones_share_one_store() {
    let repository = TodoRepositoryForMemory::new();
    let other = repository.clone();
    create_text(&repository, "shared");
    assert_eq!(other.find(1).unwrap().text, "shared");
    assert_eq!(other.delete(1), Ok(()));
    assert_eq!(repository.find(1), Err(RepositoryError::NotFound(1)));
}

#[test]
fn todo_data_operations() {
    let mut data = TodoData::new();
    assert!(!data.is_full());
    assert_eq!(data.all(), Vec::new());
    let todo = data.create(CreateTodo::new("x".to_string()));
    assert_eq!(todo, Todo::new(1, "x".to_string()));
    assert_eq!(data.find(1), Ok(todo.clone()));
    assert_eq!(data.find(2), Err(RepositoryError::NotFound(2)));
    let updated = data
        .update(
            1,
            UpdateTodo {
                text: Some("y".to_string()),
                completed: None,
            },
        )
        .unwrap();
    assert_eq!(updated.text, "y");
    assert_eq!(data.all(), vec![updated]);
    assert_eq!(data.delete(1), Ok(()));
    assert_eq!(data.delete(1), Err(RepositoryError::NotFound(1)));
    assert!(data.all().is_empty());
}

#[test]
fn snapshot_copies_every_field() {
    let todo = Todo {
        id: 7,
        text: "copy me".to_string(),
        completed: true,
    };
    assert_eq!(todo.snapshot(), todo);
    assert_eq!(Todo::new(3, "n".to_string()).completed, false);
    assert_eq!(CreateTodo::new("t".to_string()).text, "t");
}

#[test]
fn lookup_outcomes() {
    let todo = Todo::new(4, "row".to_string());
    assert_eq!(found_or_not_found(4, Some(todo.clone())), Ok(todo));
    assert_eq!(found_or_not_found(9, None), Err(RepositoryError::NotFound(9)));
}

#[test]
fn change_outcomes() {
    assert_eq!(changed_or_not_found(3, 0), Err(RepositoryError::NotFound(3)));
    assert_eq!(changed_or_not_found(3, 1), Ok(()));
    assert_eq!(changed_or_not_found(-2, 0), Err(RepositoryError::NotFound(-2)));
}

#[test]
fn try_create_hands_out_next_id() {
    let mut data = TodoData::new();
    assert_eq!(
        data.try_create(CreateTodo::new("first".to_string())),
        Ok(Todo::new(1, "first".to_string()))
    );
    assert_eq!(
        data.try_create(CreateTodo::new("second".to_string())),
        Ok(Todo::new(2, "second".to_string()))
    );
    assert_eq!(data.all().len(), 2);
}
