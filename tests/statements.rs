use charybdis::request::count_markers;
use charybdis::statement::{
    delete_by_partition_key_query_const, delete_query_const, generate, where_placeholders, FieldClassification,
    StatementKind,
};

fn names(v: &[&str]) -> Vec<String> {
    v.iter().map(|s| s.to_string()).collect()
}

fn users() -> FieldClassification {
    FieldClassification::new(names(&["id"]), names(&[]), names(&["name"])).unwrap()
}

#[test]
fn single_partition_key_select_and_delete() {
    let f = users();
    assert_eq!(generate(StatementKind::SelectByPrimaryKey, &f, "users"), "SELECT * FROM users WHERE id = ?");
    assert_eq!(generate(StatementKind::DeleteByPartitionKey, &f, "users"), "DELETE FROM users WHERE id = ?");
    assert_eq!(delete_by_partition_key_query_const("users", &f), "DELETE FROM users WHERE id = ?");
}

#[test]
fn two_field_partition_key_where_clause() {
    let f = FieldClassification::new(names(&["tenant_id", "id"]), names(&["created_at"]), names(&["name", "age"]))
        .unwrap();
    assert_eq!(where_placeholders(f.partition_key()), "tenant_id = ? AND id = ?");
    assert_eq!(
        generate(StatementKind::SelectByPartitionKey, &f, "items"),
        "SELECT * FROM items WHERE tenant_id = ? AND id = ?"
    );
    assert_eq!(
        delete_by_partition_key_query_const("items", &f),
        "DELETE FROM items WHERE tenant_id = ? AND id = ?"
    );
}

#[test]
fn primary_key_lists_partition_then_clustering() {
    let f = FieldClassification::new(names(&["b", "a"]), names(&["d", "c"]), names(&["x"])).unwrap();
    assert_eq!(f.primary_key(), names(&["b", "a", "d", "c"]));
    assert_eq!(
        generate(StatementKind::SelectByPrimaryKey, &f, "t"),
        "SELECT * FROM t WHERE b = ? AND a = ? AND d = ? AND c = ?"
    );
    assert_eq!(delete_query_const("t", &f), "DELETE FROM t WHERE b = ? AND a = ? AND d = ? AND c = ?");
    assert_eq!(
        generate(StatementKind::DeleteByPrimaryKey, &f, "t"),
        "DELETE FROM t WHERE b = ? AND a = ? AND d = ? AND c = ?"
    );
}

#[test]
fn insert_and_update_texts() {
    let f = FieldClassification::new(names(&["id"]), names(&["ts"]), names(&["name", "age"])).unwrap();
    assert_eq!(
        generate(StatementKind::Insert, &f, "users"),
        "INSERT INTO users (id, ts, name, age) VALUES (?, ?, ?, ?)"
    );
    assert_eq!(
        generate(StatementKind::Update, &f, "users"),
        "UPDATE users SET name = ?, age = ? WHERE id = ? AND ts = ?"
    );
}

#[test]
fn where_placeholders_of_no_fields_is_empty() {
    assert_eq!(where_placeholders(&Vec::new()), "");
    assert_eq!(where_placeholders(&names(&["k"])), "k = ?");
}

#[test]
fn classification_rejects_empty_partition_key() {
    assert!(FieldClassification::new(names(&[]), names(&["c"]), names(&["r"])).is_none());
}

#[test]
fn classification_rejects_shared_names() {
    assert!(FieldClassification::new(names(&["id"]), names(&["id"]), names(&[])).is_none());
    assert!(FieldClassification::new(names(&["id"]), names(&[]), names(&["id"])).is_none());
    assert!(FieldClassification::new(names(&["id"]), names(&["c"]), names(&["c"])).is_none());
    let f = FieldClassification::new(names(&["id"]), names(&["c"]), names(&["r"])).unwrap();
    assert_eq!(f.partition_key(), &names(&["id"]));
    assert_eq!(f.clustering_key(), &names(&["c"]));
    assert_eq!(f.regular(), &names(&["r"]));
}

#[test]
fn generated_statements_take_one_value_per_bound_field() {
    let f = FieldClassification::new(names(&["p1", "p2"]), names(&["c"]), names(&["r1", "r2", "r3"])).unwrap();
    assert_eq!(count_markers(&generate(StatementKind::SelectByPrimaryKey, &f, "t")), 3);
    assert_eq!(count_markers(&generate(StatementKind::SelectByPartitionKey, &f, "t")), 2);
    assert_eq!(count_markers(&generate(StatementKind::Insert, &f, "t")), 6);
    assert_eq!(count_markers(&generate(StatementKind::Update, &f, "t")), 6);
    assert_eq!(count_markers(&generate(StatementKind::DeleteByPrimaryKey, &f, "t")), 3);
    assert_eq!(count_markers(&generate(StatementKind::DeleteByPartitionKey, &f, "t")), 2);
}
