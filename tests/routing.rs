use haiku_api::dispatch::{dispatch, dispatch_batch, Args, Call, Change, Database, Output, Payload};
use haiku_api::errors::ApiError;
use haiku_api::prompts::{PromptInput, UpdatePrompt};
use haiku_api::registry::{entry_text, Kind, Op, Registry};
use haiku_api::users::UserInput;

fn call(name: &str, args: Args) -> Call {
    Call { operation: name.to_string(), args }
}

fn new_prompt(t: &str, c: &str) -> Args {
    Args::Create(Payload::Prompt(PromptInput { title: t.to_string(), content: c.to_string() }))
}

#[test]
fn batch_failure_does_not_abort_siblings() {
    let reg = Registry::new();
    let mut db = Database::new();
    let rs = dispatch_batch(&reg, &mut db, vec![call("getPrompt", Args::Id(999)), call("createPrompt", new_prompt("T", "C"))], 5);
    assert_eq!(rs.len(), 2);
    assert_eq!(rs[0].as_ref().unwrap_err(), &ApiError::NotFound);
    match &rs[1] {
        Ok(Output::Prompt(p)) => {
            assert_eq!(p.data.title, "T");
            assert_eq!(p.created_at, 5);
            assert_eq!(p.deleted_at, None);
        }
        other => panic!("unexpected {:?}", other),
    }
}

#[test]
fn unknown_operation_is_routing_error() {
    let reg = Registry::new();
    let mut db = Database::new();
    assert_eq!(dispatch(&reg, &mut db, call("dropTables", Args::Nothing), 1).unwrap_err(), ApiError::Routing);
    assert_eq!(reg.lookup(&"listprompts".to_string()), Err(ApiError::Routing));
}

#[test]
fn argument_shape_mismatch_is_validation_error() {
    let reg = Registry::new();
    let mut db = Database::new();
    assert_eq!(dispatch(&reg, &mut db, call("getPrompt", Args::Nothing), 1).unwrap_err(), ApiError::Validation);
    let wrong_kind = Args::Create(Payload::Account(UserInput {
        first_name: "a".to_string(),
        last_name: "b".to_string(),
        email: "c".to_string(),
        password: "d".to_string(),
    }));
    assert_eq!(dispatch(&reg, &mut db, call("createPrompt", wrong_kind), 1).unwrap_err(), ApiError::Validation);
    match dispatch(&reg, &mut db, call("listPrompts", Args::Nothing), 1) {
        Ok(Output::Prompts(v)) => assert!(v.is_empty()),
        other => panic!("unexpected {:?}", other),
    }
}

#[test]
fn every_entry_point_is_reachable() {
    let reg = Registry::new();
    let kinds = [Kind::Account, Kind::Prompt, Kind::Poem];
    let ops = [Op::List, Op::Get, Op::Create, Op::Update, Op::Delete, Op::Restore, Op::Destroy];
    let mut names = Vec::new();
    for k in kinds {
        for o in ops {
            let name = entry_text(k, o);
            assert_eq!(reg.lookup(&name), Ok((k, o)));
            names.push(name);
        }
    }
    names.sort();
    names.dedup();
    assert_eq!(names.len(), 21);
    assert_eq!(entry_text(Kind::Account, Op::List), "listUsers");
    assert_eq!(entry_text(Kind::Prompt, Op::Create), "createPrompt");
    assert_eq!(entry_text(Kind::Poem, Op::Destroy), "destroyHaiku");
}

#[test]
fn full_lifecycle_through_dispatch() {
    let reg = Registry::new();
    let mut db = Database::new();
    let id = match dispatch(&reg, &mut db, call("createPrompt", new_prompt("A", "B")), 1) {
        Ok(Output::Prompt(p)) => p.id,
        other => panic!("unexpected {:?}", other),
    };
    let change = Args::Update(id, Change::Prompt(UpdatePrompt { title: None, content: Some("C".to_string()) }));
    match dispatch(&reg, &mut db, call("updatePrompt", change), 2) {
        Ok(Output::Prompt(p)) => {
            assert_eq!(p.data.title, "A");
            assert_eq!(p.data.content, "C");
        }
        other => panic!("unexpected {:?}", other),
    }
    assert!(dispatch(&reg, &mut db, call("deletePrompt", Args::Id(id)), 3).is_ok());
    assert_eq!(dispatch(&reg, &mut db, call("getPrompt", Args::Id(id)), 4).unwrap_err(), ApiError::NotFound);
    assert!(dispatch(&reg, &mut db, call("restorePrompt", Args::Id(id)), 5).is_ok());
    assert!(matches!(dispatch(&reg, &mut db, call("destroyPrompt", Args::Id(id)), 6), Ok(Output::Destroyed)));
    assert_eq!(dispatch(&reg, &mut db, call("restorePrompt", Args::Id(id)), 7).unwrap_err(), ApiError::NotFound);
    match dispatch(&reg, &mut db, call("listUsers", Args::Nothing), 8) {
        Ok(Output::Users(v)) => assert!(v.is_empty()),
        other => panic!("unexpected {:?}", other),
    }
}
