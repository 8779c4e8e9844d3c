use haiku_api::dispatch::Database;
use haiku_api::errors::ApiError;
use haiku_api::prompts::{self, PromptInput, UpdatePrompt};
use haiku_api::users::{self, UpdateUser, UserInput};

#[test]
fn prompt_entry_points_follow_the_lifecycle() {
    let q = prompts::QueryRoot;
    let m = prompts::MutationRoot;
    let mut db = Database::new();
    assert!(q.list_prompts(&db).is_empty());
    let p = m.create_prompt(&mut db, PromptInput { title: "A".to_string(), content: "B".to_string() }, 1).unwrap();
    assert_eq!(q.get_prompt(&db, p.id).unwrap().data.title, "A");
    let u = m.update_prompt(&mut db, p.id, UpdatePrompt { title: Some("Z".to_string()), content: None }, 2).unwrap();
    assert_eq!(u.data.title, "Z");
    assert_eq!(u.data.content, "B");
    assert_eq!(m.delete_prompt(&mut db, p.id, 3).unwrap().deleted_at, Some(3));
    assert!(q.list_prompts(&db).is_empty());
    assert_eq!(m.restore_prompt(&mut db, p.id, 4).unwrap().deleted_at, None);
    assert_eq!(m.destroy_prompt(&mut db, p.id), Ok(true));
    assert_eq!(m.destroy_prompt(&mut db, p.id), Err(ApiError::NotFound));
    assert_eq!(q.get_prompt(&db, p.id).unwrap_err(), ApiError::NotFound);
}

#[test]
fn user_entry_points_follow_the_lifecycle() {
    let q = users::QueryRoot;
    let m = users::MutationRoot;
    let mut db = Database::new();
    let data = UserInput {
        first_name: "Ada".to_string(),
        last_name: "Lovelace".to_string(),
        email: "ada@example.org".to_string(),
        password: "SECRET-REDACTED".to_string(),
    };
    let u = m.create_user(&mut db, data, 10).unwrap();
    assert_eq!(u.created_at, u.updated_at);
    assert_eq!(q.list_users(&db).len(), 1);
    let change = UpdateUser { first_name: None, last_name: Some("King".to_string()), email: None, password: None };
    let u2 = m.update_user(&mut db, u.id, change, 11).unwrap();
    assert_eq!(u2.data.first_name, "Ada");
    assert_eq!(u2.data.last_name, "King");
    assert_eq!(u2.updated_at, 11);
    assert!(m.delete_user(&mut db, u.id, 12).is_ok());
    assert_eq!(q.get_user(&db, u.id).unwrap_err(), ApiError::NotFound);
    assert!(m.restore_user(&mut db, u.id, 13).is_ok());
    assert_eq!(m.destroy_user(&mut db, u.id), Ok(true));
    assert!(q.list_users(&db).is_empty());
}
