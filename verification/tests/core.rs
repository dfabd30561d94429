//! Tests of errors, queries and instants.

use rust_db_lib::datetime::{UtcDateTime, MAX_INSTANT_SECS, MIN_INSTANT_SECS};
use rust_db_lib::error::{
    admit_policy, classify_transaction_failure, transaction_error_to_datastore, DataStoreError,
    TransactionError, TransactionPolicy,
};
use rust_db_lib::placeholders::bindings_sent;
use rust_db_lib::query::{ParameterizedQuery, QueryParameter};

#[test]
fn test_display_datastore_error() {
    let error = DataStoreError {
        details: "Test error".to_string(),
    };
    assert_eq!(error.to_string(), "DataStoreError: Test error");
}

#[test]
fn test_parameterized_query_new_and_bind() {
    let mut param_query = ParameterizedQuery::new("SELECT * FROM table WHERE id = $1");
    assert_eq!(param_query.statement, "SELECT * FROM table WHERE id = $1");
    assert!(param_query.bindings.is_empty());

    let test_param = QueryParameter::I32(42);
    param_query.bind(test_param.clone());
    assert_eq!(param_query.bindings.len(), 1);
    assert_eq!(param_query.bindings[0], test_param);
}

#[test]
fn test_bindings_keep_placeholder_order() {
    let ids = vec![1i32, 2, 3];
    let placeholders: String = (1..=ids.len())
        .map(|i| format!("${i}"))
        .collect::<Vec<_>>()
        .join(", ");
    let statement = format!("SELECT * FROM users WHERE id IN ({placeholders})");
    let mut q = ParameterizedQuery::new(&statement);
    for id in &ids {
        q.bind(QueryParameter::I32(*id));
    }
    q.bind(QueryParameter::F64(1.5_f64.to_bits()));
    assert_eq!(q.statement, "SELECT * FROM users WHERE id IN ($1, $2, $3)");
    assert_eq!(
        q.bindings,
        vec![
            QueryParameter::I32(1),
            QueryParameter::I32(2),
            QueryParameter::I32(3),
            QueryParameter::F64(1.5_f64.to_bits()),
        ]
    );
}

#[test]
fn test_display_transaction_errors() {
    assert_eq!(
        TransactionError::Retryable.to_string(),
        "transaction conflict (retryable)"
    );
    let inner = DataStoreError::new("deadlock detected".to_string());
    assert_eq!(
        TransactionError::DatabaseError(inner).to_string(),
        "DataStoreError: deadlock detected"
    );
}

#[test]
fn test_transaction_error_to_datastore() {
    let retry = transaction_error_to_datastore(TransactionError::Retryable);
    assert_eq!(retry.details, "transaction conflict (retryable)");
    let inner = DataStoreError::new("boom".to_string());
    let passed = transaction_error_to_datastore(TransactionError::DatabaseError(inner));
    assert_eq!(passed.details, "boom");
}

#[test]
fn test_clones_are_equal() {
    let mut q = ParameterizedQuery::new("UPDATE t SET a = $1, b = $2, c = $3");
    q.bind(QueryParameter::Str("text".to_string()));
    q.bind(QueryParameter::DateTime(UtcDateTime::new(1_700_000_000, 5)));
    q.bind(QueryParameter::Bool(false));
    assert_eq!(q.clone(), q);
    assert_eq!(QueryParameter::I8(-3).clone(), QueryParameter::I8(-3));
    let e = TransactionError::DatabaseError(DataStoreError::new("x".to_string()));
    assert_eq!(e.clone().to_string(), e.to_string());
}

#[test]
fn test_conflicts_are_retryable() {
    for code in ["40001", "40P01"] {
        let e = classify_transaction_failure(Some(code.to_string()), "conflict".to_string());
        assert!(matches!(e, TransactionError::Retryable));
    }
}

#[test]
fn test_other_failures_are_database_errors() {
    let e = classify_transaction_failure(Some("23505".to_string()), "duplicate key".to_string());
    match e {
        TransactionError::DatabaseError(inner) => assert_eq!(inner.details, "duplicate key"),
        _ => panic!("a unique violation is a database error"),
    }
    let e = classify_transaction_failure(None, "pool timed out".to_string());
    assert_eq!(e.to_string(), "DataStoreError: pool timed out");
}

#[test]
fn test_instants_follow_the_calendar_range() {
    assert_eq!(UtcDateTime::try_new(0, 0), Some(UtcDateTime::new(0, 0)));
    assert_eq!(UtcDateTime::try_new(0, 3_000_000_000), None);
    assert_eq!(UtcDateTime::try_new(0, 2_000_000_000), None);
    // a leap second only on the last second of a minute
    assert_eq!(UtcDateTime::try_new(59, 1_500_000_000), Some(UtcDateTime::new(59, 1_500_000_000)));
    assert_eq!(UtcDateTime::try_new(58, 1_500_000_000), None);
    assert_eq!(UtcDateTime::try_new(-1, 1_000_000_000), Some(UtcDateTime::new(-1, 1_000_000_000)));
    assert_eq!(UtcDateTime::try_new(-2, 1_000_000_000), None);
    assert!(UtcDateTime::try_new(MIN_INSTANT_SECS, 0).is_some());
    assert!(UtcDateTime::try_new(MAX_INSTANT_SECS, 999_999_999).is_some());
    assert_eq!(UtcDateTime::try_new(MIN_INSTANT_SECS - 1, 0), None);
    assert_eq!(UtcDateTime::try_new(MAX_INSTANT_SECS + 1, 0), None);
}

#[test]
fn test_instant_range_matches_chrono() {
    for (secs, nanos) in [
        (MIN_INSTANT_SECS, 0u32),
        (MAX_INSTANT_SECS, 999_999_999),
        (MIN_INSTANT_SECS - 1, 0),
        (MAX_INSTANT_SECS + 1, 0),
        (59, 1_999_999_999),
        (58, 1_000_000_000),
        (-61, 1_200_000_000),
        (7, 2_000_000_000),
    ] {
        assert_eq!(
            UtcDateTime::try_new(secs, nanos).is_some(),
            chrono::DateTime::from_timestamp(secs, nanos).is_some(),
            "{secs} {nanos}"
        );
    }
}

#[test]
fn test_float_parameters_compare_as_values() {
    let nan = QueryParameter::F32(f32::NAN.to_bits());
    assert_ne!(nan, nan.clone());
    assert_eq!(QueryParameter::F32(0.0_f32.to_bits()), QueryParameter::F32((-0.0_f32).to_bits()));
    assert_eq!(QueryParameter::F64(0.0_f64.to_bits()), QueryParameter::F64((-0.0_f64).to_bits()));
    assert_ne!(QueryParameter::F64(f64::NAN.to_bits()), QueryParameter::F64(f64::NAN.to_bits()));
    assert_eq!(QueryParameter::F64(2.5_f64.to_bits()), QueryParameter::F64(2.5_f64.to_bits()));
    assert_ne!(QueryParameter::F64(2.5_f64.to_bits()), QueryParameter::F64(3.5_f64.to_bits()));
    assert_ne!(QueryParameter::F32(f32::INFINITY.to_bits()), QueryParameter::F32(f32::NEG_INFINITY.to_bits()));
    assert_eq!(QueryParameter::F32(f32::INFINITY.to_bits()), QueryParameter::F32(f32::INFINITY.to_bits()));
    assert_ne!(QueryParameter::I32(1), QueryParameter::I64(1));
}

#[test]
fn test_queries_compare_statement_and_bindings() {
    let mut a = ParameterizedQuery::new("SELECT $1");
    a.bind(QueryParameter::F64((-0.0_f64).to_bits()));
    let mut b = ParameterizedQuery::new("SELECT $1");
    b.bind(QueryParameter::F64(0.0_f64.to_bits()));
    assert_eq!(a, b);
    let mut c = ParameterizedQuery::new("SELECT $2");
    c.bind(QueryParameter::F64(0.0_f64.to_bits()));
    assert_ne!(a, c);
    b.bind(QueryParameter::Bool(true));
    assert_ne!(a, b);
    let mut nan = ParameterizedQuery::new("SELECT $1");
    nan.bind(QueryParameter::F32(f32::NAN.to_bits()));
    assert_ne!(nan, nan.clone());
}

#[test]
fn test_unsupported_policy_error() {
    assert_eq!(
        TransactionError::UnsupportedPolicy.to_string(),
        "transaction policy not supported"
    );
    let e = transaction_error_to_datastore(TransactionError::UnsupportedPolicy);
    assert_eq!(e.details, "transaction policy not supported");
}

#[test]
fn test_admit_policy() {
    assert!(admit_policy(&TransactionPolicy::Default, false).is_ok());
    assert!(admit_policy(&TransactionPolicy::Default, true).is_ok());
    let serialized = TransactionPolicy::SerializeOn("device:42".to_string());
    assert!(admit_policy(&serialized, true).is_ok());
    assert!(matches!(
        admit_policy(&serialized, false),
        Err(TransactionError::UnsupportedPolicy)
    ));
    assert_eq!(serialized.clone(), serialized);
}

#[test]
fn test_extra_bindings_are_not_sent() {
    let mut q = ParameterizedQuery::new("UPDATE devices SET enabled = $1 WHERE id = $2");
    q.bind(QueryParameter::Bool(true));
    q.bind(QueryParameter::I64(42));
    q.bind(QueryParameter::Str("extra".to_string()));
    assert_eq!(
        bindings_sent(&q),
        vec![QueryParameter::Bool(true), QueryParameter::I64(42)]
    );
}

#[test]
fn test_bindings_sent_follow_the_highest_placeholder() {
    let mut q = ParameterizedQuery::new("SELECT $2, $10, $1");
    for n in 1..=12 {
        q.bind(QueryParameter::I32(n));
    }
    assert_eq!(bindings_sent(&q).len(), 10);
    assert_eq!(bindings_sent(&q)[9], QueryParameter::I32(10));

    let mut none = ParameterizedQuery::new("SELECT 1 -- costs $ 5");
    none.bind(QueryParameter::I32(1));
    assert!(bindings_sent(&none).is_empty());

    let mut short = ParameterizedQuery::new("SELECT $3");
    short.bind(QueryParameter::I32(1));
    assert_eq!(bindings_sent(&short), vec![QueryParameter::I32(1)]);

    let mut huge = ParameterizedQuery::new("SELECT $99999999999999999999999999");
    huge.bind(QueryParameter::I32(7));
    assert_eq!(bindings_sent(&huge), vec![QueryParameter::I32(7)]);

    let mut unicode = ParameterizedQuery::new("SELECT 'é', $1");
    unicode.bind(QueryParameter::Str("ü".to_string()));
    unicode.bind(QueryParameter::Str("ignored".to_string()));
    assert_eq!(bindings_sent(&unicode), vec![QueryParameter::Str("ü".to_string())]);
}
