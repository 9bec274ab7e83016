use repository_kit::{DeleteBuilder, InsertBuilder, OrderDirection, RepositoryError, SelectBuilder, UpdateBuilder};

#[test]
fn select_basic() {
    let query = SelectBuilder::new().select("id").select("name").from("users").build().unwrap();
    assert_eq!(query, "SELECT id, name FROM users");
}

#[test]
fn select_with_where() {
    let username = "test";
    let query = SelectBuilder::new().select_all().from("users").where_param("username", &username).build().unwrap();
    assert_eq!(query, "SELECT * FROM users WHERE username = $1");
}

#[test]
fn select_with_join() {
    let query = SelectBuilder::new()
        .select("u.id").select("c.passkey")
        .from("users u")
        .inner_join("credentials c", "u.id = c.user_id")
        .where_clause("u.status = 'active'")
        .build().unwrap();
    assert_eq!(query, "SELECT u.id, c.passkey FROM users u INNER JOIN credentials c ON u.id = c.user_id WHERE u.status = 'active'");
}

#[test]
fn insert_with_returning() {
    let name = "product";
    let price = 100;
    let query = InsertBuilder::new().into("products").column("name", &name).column("price", &price).returning_all().build().unwrap();
    assert_eq!(query, "INSERT INTO products (name, price) VALUES ($1, $2) RETURNING *");
}

#[test]
fn update_with_optional_fields() {
    let name = Some("new_name");
    let price = Some(200);
    let query = UpdateBuilder::new().table("products").set("name", &name).set("price", &price).where_id(1).returning_all().build().unwrap();
    assert_eq!(query, "UPDATE products SET name = $1, price = $2 WHERE id = $3 RETURNING *");
}

#[test]
fn update_skips_none_fields() {
    let name: Option<String> = None;
    let price = Some(200);
    let query = UpdateBuilder::new().table("products").set("name", &name).set("price", &price).where_id(1).build().unwrap();
    assert_eq!(query, "UPDATE products SET price = $1 WHERE id = $2");
}

#[test]
fn delete_with_where() {
    let id = 1;
    let query = DeleteBuilder::new().from("products").where_param("id", &id).build().unwrap();
    assert_eq!(query, "DELETE FROM products WHERE id = $1");
}

fn invalid_query_message(r: Result<String, RepositoryError>) -> String {
    match r {
        Err(RepositoryError::InvalidQuery(m)) => m,
        other => panic!("expected an invalid query, got {:?}", other),
    }
}

#[test]
fn select_without_table_is_refused() {
    let r = SelectBuilder::new().select("id").build();
    assert_eq!(invalid_query_message(r), "FROM clause is required");
}

#[test]
fn select_without_columns_selects_everything() {
    let query = SelectBuilder::new().from("users").build().unwrap();
    assert_eq!(query, "SELECT * FROM users");
}

#[test]
fn select_full_clause_order() {
    let id = 7;
    let query = SelectBuilder::new()
        .limit(10)
        .offset(-5)
        .order_by("name", OrderDirection::Desc)
        .select("u.id")
        .left_join("roles r", "r.id = u.role_id")
        .from("users u")
        .where_param("u.id", &id)
        .where_clause("r.name = 'admin'")
        .order_by("u.id", OrderDirection::Asc)
        .build()
        .unwrap();
    assert_eq!(
        query,
        "SELECT u.id FROM users u LEFT JOIN roles r ON r.id = u.role_id WHERE u.id = $1 AND r.name = 'admin' ORDER BY name DESC, u.id ASC LIMIT 10 OFFSET -5"
    );
}

#[test]
fn select_last_table_and_limit_win() {
    let query = SelectBuilder::new().from("a").from("b").limit(1).limit(2).build().unwrap();
    assert_eq!(query, "SELECT * FROM b LIMIT 2");
}

#[test]
fn select_param_count_counts_parameters_only() {
    let v = 1;
    let b = SelectBuilder::new().where_clause("x IS NULL").where_param("a", &v).where_param("b", &v);
    assert_eq!(b.param_count(), 2);
    assert_eq!(SelectBuilder::new().param_count(), 0);
    assert_eq!(SelectBuilder::default().param_count(), 0);
}

#[test]
fn select_extreme_limits() {
    let query = SelectBuilder::new().from("t").limit(i64::MIN).offset(i64::MAX).build().unwrap();
    assert_eq!(query, "SELECT * FROM t LIMIT -9223372036854775808 OFFSET 9223372036854775807");
}

#[test]
fn placeholders_count_past_nine() {
    let v = 0;
    let mut b = DeleteBuilder::new().from("t");
    for i in 0..12 {
        b = b.where_param(&format!("c{i}"), &v);
    }
    let q = b.build().unwrap();
    assert!(q.ends_with("c9 = $10 AND c10 = $11 AND c11 = $12"));
    assert!(q.starts_with("DELETE FROM t WHERE c0 = $1 AND c1 = $2"));
}

#[test]
fn insert_without_table_is_refused() {
    let v = 1;
    let r = InsertBuilder::new().column("a", &v).build();
    assert_eq!(invalid_query_message(r), "table name is required");
}

#[test]
fn insert_without_columns_is_refused() {
    let r = InsertBuilder::new().into("t").build();
    assert_eq!(invalid_query_message(r), "at least one column is required");
}

#[test]
fn insert_returning_named_columns() {
    let v = 1;
    let query = InsertBuilder::default().into("t").column("a", &v).returning("id").returning("a").build().unwrap();
    assert_eq!(query, "INSERT INTO t (a) VALUES ($1) RETURNING id, a");
}

#[test]
fn update_without_table_is_refused() {
    let v = Some(1);
    let r = UpdateBuilder::new().set("a", &v).where_id(1).build();
    assert_eq!(invalid_query_message(r), "table name is required");
}

#[test]
fn update_without_assignments_is_refused() {
    let none: Option<i32> = None;
    let b = UpdateBuilder::new().table("t").set("a", &none).where_id(1);
    assert!(b.is_empty());
    assert_eq!(invalid_query_message(b.build()), "at least one SET clause is required");
}

#[test]
fn update_without_conditions_is_refused() {
    let b = UpdateBuilder::new().table("t").set_always("a", &1);
    assert!(!b.is_empty());
    assert_eq!(invalid_query_message(b.build()), "WHERE clause is required for UPDATE");
}

#[test]
fn update_numbers_in_call_order() {
    let v = 3;
    let query = UpdateBuilder::default()
        .table("t")
        .where_id(9)
        .set_always("a", &v)
        .where_param("b", &v)
        .where_clause("c > 0")
        .returning("a")
        .build()
        .unwrap();
    assert_eq!(query, "UPDATE t SET a = $2 WHERE id = $1 AND b = $3 AND c > 0 RETURNING a");
}

#[test]
fn delete_without_table_is_refused() {
    let r = DeleteBuilder::new().where_clause("a = 1").build();
    assert_eq!(invalid_query_message(r), "table name is required");
}

#[test]
fn delete_without_conditions_is_refused() {
    let r = DeleteBuilder::default().from("t").build();
    assert_eq!(invalid_query_message(r), "WHERE clause is required for DELETE");
}

#[test]
fn order_direction_keywords() {
    assert_eq!(OrderDirection::Asc.as_str(), "ASC");
    assert_eq!(OrderDirection::Desc.as_str(), "DESC");
}
