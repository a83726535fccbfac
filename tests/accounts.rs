use storefront::checkout::{prepare_checkout, CartLine};
use storefront::credentials::{authenticate, login_decision, new_password_hash};
use storefront::error::AppError;
use storefront::migrate::migration_statements;

#[test]
fn password_round_trip() {
    let hash = new_password_hash("correct horse").unwrap();
    assert!(hash.starts_with("$argon2"));
    assert_ne!(hash, "correct horse");
    assert!(authenticate("correct horse", &hash).is_ok());
    match authenticate("wrong horse", &hash) {
        Err(AppError::BadRequest(m)) => assert_eq!(m, "Invalid email or password"),
        other => panic!("unexpected {:?}", other),
    }
    assert!(matches!(authenticate("correct horse", "dummy"), Err(AppError::Internal)));
}

#[test]
fn login_decisions() {
    assert!(login_decision(Some(true)).is_ok());
    assert!(matches!(login_decision(Some(false)), Err(AppError::BadRequest(_))));
    assert!(matches!(login_decision(None), Err(AppError::Internal)));
}

#[test]
fn migration_script_splits_into_statements() {
    let sql = "CREATE TABLE a (x int);\n\n  INSERT INTO a VALUES (1) ;\n;  \n-- tail\n";
    assert_eq!(
        migration_statements(sql),
        vec![
            "CREATE TABLE a (x int);".to_string(),
            "INSERT INTO a VALUES (1);".to_string(),
            "-- tail;".to_string(),
        ]
    );
    assert!(migration_statements("").is_empty());
    assert!(migration_statements(" ;\n; ").is_empty());
    assert_eq!(migration_statements("SELECT 1"), vec!["SELECT 1;".to_string()]);
}

#[test]
fn ids_are_version_four() {
    let rows = vec![CartLine { product_id: 1, quantity: 1, price: 1, stock: 1 }];
    let placed = prepare_checkout(7, &rows).unwrap();
    assert_eq!(uuid::Uuid::from_u128(placed.order.id).get_version_num(), 4);
    assert_eq!(uuid::Uuid::from_u128(placed.items[0].id).get_version_num(), 4);
}
