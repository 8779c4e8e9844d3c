use haiku_api::errors::ApiError;
use haiku_api::haikus::{InputHaiku, UpdateHaiku};
use haiku_api::prompts::{PromptInput, PromptStore, UpdatePrompt};
use haiku_api::store::Table;
use haiku_api::users::{email_in_use, UpdateUser, UserInput, UserStore};

fn prompt(title: &str, content: &str) -> PromptInput {
    PromptInput { title: title.to_string(), content: content.to_string() }
}

fn user(first: &str, email: &str) -> UserInput {
    UserInput {
        first_name: first.to_string(),
        last_name: "Doe".to_string(),
        email: email.to_string(),
        password: "SECRET-REDACTED".to_string(),
    }
}

#[test]
fn soft_deleted_entity_is_hidden_then_restored() {
    let mut store: PromptStore = Table::new();
    let p = PromptInput::create(&mut store, prompt("A", "B"), 10).unwrap();
    let other = PromptInput::create(&mut store, prompt("X", "Y"), 11).unwrap();
    let gone = store.delete(p.id, 20).unwrap();
    assert_eq!(gone.deleted_at, Some(20));
    assert_eq!(gone.updated_at, 20);
    assert_eq!(store.get(p.id).unwrap_err(), ApiError::NotFound);
    let listed = store.list();
    assert_eq!(listed.len(), 1);
    assert_eq!(listed[0].id, other.id);
    let back = store.restore(p.id, 30).unwrap();
    assert_eq!(back.id, p.id);
    assert_eq!(back.deleted_at, None);
    assert_eq!(back.updated_at, 30);
    assert_eq!(back.created_at, 10);
    assert_eq!(back.data.title, "A");
    assert_eq!(store.get(p.id).unwrap().data.content, "B");
    assert_eq!(store.list().len(), 2);
}

#[test]
fn soft_delete_twice_is_not_found() {
    let mut store: PromptStore = Table::new();
    let p = PromptInput::create(&mut store, prompt("A", "B"), 1).unwrap();
    store.delete(p.id, 2).unwrap();
    assert_eq!(store.delete(p.id, 3).unwrap_err(), ApiError::NotFound);
}

#[test]
fn restore_of_active_entity_is_not_found() {
    let mut store: PromptStore = Table::new();
    let p = PromptInput::create(&mut store, prompt("A", "B"), 1).unwrap();
    assert_eq!(store.restore(p.id, 5).unwrap_err(), ApiError::NotFound);
    let still = store.get(p.id).unwrap();
    assert_eq!(still.updated_at, 1);
    assert_eq!(still.deleted_at, None);
}

#[test]
fn update_of_soft_deleted_entity_is_not_found_and_row_kept() {
    let mut store: PromptStore = Table::new();
    let p = PromptInput::create(&mut store, prompt("A", "B"), 1).unwrap();
    store.delete(p.id, 2).unwrap();
    let change = UpdatePrompt { title: Some("Z".to_string()), content: None };
    assert_eq!(UpdatePrompt::update(&mut store, p.id, change, 3).unwrap_err(), ApiError::NotFound);
    let back = store.restore(p.id, 4).unwrap();
    assert_eq!(back.data.title, "A");
    assert_eq!(back.data.content, "B");
    assert_eq!(back.updated_at, 4);
}

#[test]
fn partial_update_keeps_unspecified_fields() {
    let mut store: PromptStore = Table::new();
    let p = PromptInput::create(&mut store, prompt("A", "B"), 100).unwrap();
    let change = UpdatePrompt { title: None, content: Some("C".to_string()) };
    let after = UpdatePrompt::update(&mut store, p.id, change, 200).unwrap();
    assert_eq!(after.data.title, "A");
    assert_eq!(after.data.content, "C");
    assert_eq!(after.updated_at, 200);
    assert!(after.updated_at > p.updated_at);
    assert_eq!(after.created_at, 100);
    let stored = store.get(p.id).unwrap();
    assert_eq!(stored.data.title, "A");
    assert_eq!(stored.data.content, "C");
}

#[test]
fn destroyed_identity_is_gone_for_good() {
    let mut store: PromptStore = Table::new();
    let p = PromptInput::create(&mut store, prompt("A", "B"), 1).unwrap();
    store.delete(p.id, 2).unwrap();
    assert_eq!(store.destroy(p.id), Ok(()));
    assert_eq!(store.get(p.id).unwrap_err(), ApiError::NotFound);
    let change = UpdatePrompt { title: None, content: Some("C".to_string()) };
    assert_eq!(UpdatePrompt::update(&mut store, p.id, change, 3).unwrap_err(), ApiError::NotFound);
    assert_eq!(store.delete(p.id, 3).unwrap_err(), ApiError::NotFound);
    assert_eq!(store.restore(p.id, 3).unwrap_err(), ApiError::NotFound);
    assert_eq!(store.destroy(p.id), Err(ApiError::NotFound));
    let q = PromptInput::create(&mut store, prompt("T", "C"), 4).unwrap();
    assert_ne!(q.id, p.id);
}

#[test]
fn destroy_of_unknown_identity_is_not_found() {
    let mut store: PromptStore = Table::new();
    assert_eq!(store.destroy(42), Err(ApiError::NotFound));
}

#[test]
fn create_assigns_fresh_identity_and_equal_stamps() {
    let mut store: PromptStore = Table::new();
    let p = PromptInput::create(&mut store, prompt("T", "C"), 77).unwrap();
    assert_eq!(p.id, 1);
    assert_eq!(p.created_at, p.updated_at);
    assert_eq!(p.created_at, 77);
    assert_eq!(p.deleted_at, None);
    assert_eq!(p.data.title, "T");
    assert_eq!(p.data.content, "C");
    let q = PromptInput::create(&mut store, prompt("T", "C"), 77).unwrap();
    assert_eq!(q.id, 2);
}

#[test]
fn create_with_empty_field_is_validation_error() {
    let mut store: PromptStore = Table::new();
    assert_eq!(PromptInput::create(&mut store, prompt("", "C"), 1).unwrap_err(), ApiError::Validation);
    assert_eq!(PromptInput::create(&mut store, prompt("T", ""), 1).unwrap_err(), ApiError::Validation);
    assert!(store.list().is_empty());
}

#[test]
fn list_of_empty_table_is_empty() {
    let store: PromptStore = Table::new();
    assert!(store.list().is_empty());
}

#[test]
fn list_shows_active_records_in_identity_order() {
    let mut store: PromptStore = Table::new();
    for i in 0..5 {
        PromptInput::create(&mut store, prompt("t", &format!("c{}", i)), i).unwrap();
    }
    store.delete(2, 9).unwrap();
    store.destroy(4).unwrap();
    let ids: Vec<u64> = store.list().iter().map(|r| r.id).collect();
    assert_eq!(ids, vec![1, 3, 5]);
}

#[test]
fn duplicate_email_is_conflict() {
    let mut store: UserStore = Table::new();
    let a = UserInput::create(&mut store, user("Ann", "a@x.io"), 1).unwrap();
    assert_eq!(UserInput::create(&mut store, user("Bob", "a@x.io"), 2).unwrap_err(), ApiError::Conflict);
    let b = UserInput::create(&mut store, user("Bob", "b@x.io"), 2).unwrap();
    let change = UpdateUser { first_name: None, last_name: None, email: Some("a@x.io".to_string()), password: None };
    assert_eq!(UpdateUser::update(&mut store, b.id, change, 3).unwrap_err(), ApiError::Conflict);
    let same = UpdateUser { first_name: Some("Anna".to_string()), last_name: None, email: Some("a@x.io".to_string()), password: None };
    let a2 = UpdateUser::update(&mut store, a.id, same, 4).unwrap();
    assert_eq!(a2.data.first_name, "Anna");
    assert_eq!(a2.data.last_name, "Doe");
    assert!(email_in_use(&store, &"b@x.io".to_string(), None));
    assert!(!email_in_use(&store, &"b@x.io".to_string(), Some(b.id)));
}

#[test]
fn user_with_missing_field_is_validation_error() {
    let mut store: UserStore = Table::new();
    assert_eq!(UserInput::create(&mut store, user("", "a@x.io"), 1).unwrap_err(), ApiError::Validation);
}

#[test]
fn haiku_partial_update_and_lifecycle() {
    let mut store = Table::new();
    let h = InputHaiku::create(&mut store, InputHaiku { content: "old pond".to_string(), is_funny: false }, 1).unwrap();
    let change = UpdateHaiku { content: None, is_funny: Some(true) };
    let h2 = UpdateHaiku::update(&mut store, h.id, change, 2).unwrap();
    assert_eq!(h2.data.content, "old pond");
    assert!(h2.data.is_funny);
    assert_eq!(InputHaiku::create(&mut store, InputHaiku { content: String::new(), is_funny: true }, 3).unwrap_err(), ApiError::Validation);
    assert_eq!(store.delete(h.id, 4).unwrap().deleted_at, Some(4));
    assert!(store.list().is_empty());
}

#[test]
fn insert_and_revise_on_generic_table() {
    let mut store: PromptStore = Table::new();
    let r = store.insert(prompt("", ""), 5).unwrap();
    assert_eq!(r.id, 1);
    let r2 = store.revise(1, prompt("n", "m"), 6).unwrap();
    assert_eq!(r2.data.title, "n");
    assert_eq!(r2.updated_at, 6);
    assert_eq!(store.revise(9, prompt("n", "m"), 6).unwrap_err(), ApiError::NotFound);
    assert_eq!(store.all().len(), 1);
}
