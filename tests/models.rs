use charybdis::callbacks::{MutationAction, MutationEvent, MutationStage};
use charybdis::model::{CbQuery, Value};
use charybdis::request::{BoundQuery, Consistency};

const UPDATE_USERS: &str = "UPDATE users SET name = ? WHERE id = ?";

#[test]
fn key_values_bind_to_a_lookup() {
    let q = BoundQuery::new("SELECT * FROM users WHERE id = ?", vec![Value::BigInt(3)])
        .unwrap()
        .with_consistency(Consistency::One);
    assert_eq!(q.statement(), "SELECT * FROM users WHERE id = ?");
    assert_eq!(q.values(), &vec![Value::BigInt(3)]);
    assert_eq!(q.config().consistency, Some(Consistency::One));
    assert!(BoundQuery::<Value>::new("SELECT * FROM users WHERE id = ?", vec![]).is_err());
}

#[test]
fn values_of_every_kind_can_be_bound() {
    let values = vec![
        Value::Uuid([7; 16]),
        Value::Timestamp(1_700_000_000_000),
        Value::Date(1 << 31),
        Value::SmallInt(-3),
        Value::List(vec![Value::Int(1), Value::Int(2)]),
        Value::MapOf { keys: vec![Value::Text("a".to_string())], values: vec![Value::Boolean(true)] },
    ];
    let q = BoundQuery::new("INSERT INTO t (a, b, c, d, e, f) VALUES (?, ?, ?, ?, ?, ?)", values).unwrap();
    assert_eq!(q.values().len(), 6);
    assert_eq!(q.values()[0], Value::Uuid([7; 16]));
}

#[test]
fn update_cb_binds_values_left_by_the_hook() {
    let mut name = "al".to_string();
    let mut cb = CbQuery::new(UPDATE_USERS, 1, 1);
    assert_eq!(cb.mutation().stage(), MutationStage::Created);
    assert!(matches!(cb.mutation().start(), MutationAction::RunBeforeHook(0)));
    name = name.to_uppercase();
    assert!(matches!(cb.mutation().on_event(MutationEvent::HookSucceeded), MutationAction::Send));
    let q = cb.bind(vec![Value::Text(name), Value::BigInt(1)]).unwrap();
    assert_eq!(q.statement(), UPDATE_USERS);
    assert_eq!(q.values(), &vec![Value::Text("AL".to_string()), Value::BigInt(1)]);
    assert!(matches!(cb.mutation().on_event(MutationEvent::Sent), MutationAction::RunAfterHook(0)));
    assert!(matches!(cb.mutation().on_event(MutationEvent::HookSucceeded), MutationAction::Done(Ok(()))));
}

#[test]
fn update_cb_refuses_wrong_arity() {
    let cb = CbQuery::new(UPDATE_USERS, 0, 0);
    assert!(cb.bind(vec![Value::Null]).is_err());
}
