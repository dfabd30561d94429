//! Tests of the test doubles: decoding mock values, the mock query and the mock store.

use chrono::Utc;
use rust_db_lib::datetime::UtcDateTime;
use rust_db_lib::query::{ParameterizedQuery, QueryParameter};
use rust_db_lib::row::DataRow;
use rust_db_lib::testing_utils::{Operation, TestDataStore, TestError, TestParameterizedQuery, TestVal};

fn instant_now() -> UtcDateTime {
    let now = Utc::now();
    UtcDateTime::new(now.timestamp(), now.timestamp_subsec_nanos())
}

#[derive(Clone, Debug, Eq, PartialEq)]
struct TestRow {
    pub data: String,
}

impl DataRow<TestVal> for TestRow {
    fn get(&self, _: &str) -> TestVal {
        let mut val = TestVal::new();
        val.test_string = Some(self.data.clone());
        val
    }
}

#[test]
fn mod_test_val_to_bool() {
    let err_val = TestVal::new();
    assert!(err_val.to_bool().is_err());

    let mut val = TestVal::new();
    val.test_bool = Some(true);
    assert!(val.to_bool().unwrap());
}

#[test]
fn mod_test_val_to_i8() {
    let err_val = TestVal::new();
    assert!(err_val.to_i8().is_err());

    let mut val = TestVal::new();
    val.test_i8 = Some(0_i8);
    assert_eq!(0_i8, val.to_i8().unwrap());
}

#[test]
fn mod_test_val_to_i16() {
    let err_val = TestVal::new();
    assert!(err_val.to_i16().is_err());

    let mut val = TestVal::new();
    val.test_i16 = Some(0_i16);
    assert_eq!(0_i16, val.to_i16().unwrap());
}

#[test]
fn mod_test_val_to_i32() {
    let err_val = TestVal::new();
    assert!(err_val.to_i32().is_err());

    let mut val = TestVal::new();
    val.test_i32 = Some(0_i32);
    assert_eq!(0_i32, val.to_i32().unwrap());
}

#[test]
fn mod_test_val_to_i64() {
    let err_val = TestVal::new();
    assert!(err_val.to_i64().is_err());

    let mut val = TestVal::new();
    val.test_i64 = Some(0_i64);
    assert_eq!(0_i64, val.to_i64().unwrap());
}

#[test]
fn mod_test_val_to_f32() {
    let err_val = TestVal::new();
    assert!(err_val.to_f32_bits().is_err());

    let mut val = TestVal::new();
    val.test_f32 = Some(0_f32.to_bits());
    assert_eq!(0_f32, f32::from_bits(val.to_f32_bits().unwrap()));
}

#[test]
fn mod_test_val_to_f64() {
    let err_val = TestVal::new();
    assert!(err_val.to_f64_bits().is_err());

    let mut val = TestVal::new();
    val.test_f64 = Some(0_f64.to_bits());
    assert_eq!(0_f64, f64::from_bits(val.to_f64_bits().unwrap()));
}

#[test]
fn mod_test_val_to_string() {
    let err_val = TestVal::new();
    assert!(err_val.to_string().is_err());

    let mut val = TestVal::new();
    val.test_string = Some(String::default());
    assert_eq!(String::default(), val.to_string().unwrap());
}

#[test]
fn mod_test_val_to_datetime() {
    let err_val = TestVal::new();
    assert!(err_val.to_datetime().is_err());

    let mut val = TestVal::new();
    let now = instant_now();
    val.test_datetime = Some(now);
    assert_eq!(now, val.to_datetime().unwrap());
}

#[test]
fn mod_test_display_test_error() {
    let err = TestError;
    assert_eq!(err.to_string(), "TestError!");
}

#[test]
fn mod_test_testval_default() {
    let val = TestVal::default();
    assert_eq!(val, TestVal::new());
}

#[test]
fn tests_test_val_to_bool() {
    let err_val = TestVal::new();
    assert!(err_val.to_bool().is_err());

    let mut val = TestVal::new();
    val.test_bool = Some(true);
    assert!(val.to_bool().unwrap());
}

#[test]
fn tests_test_val_to_i8() {
    let err_val = TestVal::new();
    assert!(err_val.to_i8().is_err());

    let mut val = TestVal::new();
    val.test_i8 = Some(0_i8);
    assert_eq!(0_i8, val.to_i8().unwrap());
}

#[test]
fn tests_test_val_to_i16() {
    let err_val = TestVal::new();
    assert!(err_val.to_i16().is_err());

    let mut val = TestVal::new();
    val.test_i16 = Some(0_i16);
    assert_eq!(0_i16, val.to_i16().unwrap());
}

#[test]
fn tests_test_val_to_i32() {
    let err_val = TestVal::new();
    assert!(err_val.to_i32().is_err());

    let mut val = TestVal::new();
    val.test_i32 = Some(0_i32);
    assert_eq!(0_i32, val.to_i32().unwrap());
}

#[test]
fn tests_test_val_to_i64() {
    let err_val = TestVal::new();
    assert!(err_val.to_i64().is_err());

    let mut val = TestVal::new();
    val.test_i64 = Some(0_i64);
    assert_eq!(0_i64, val.to_i64().unwrap());
}

#[test]
fn tests_test_val_to_f32() {
    let err_val = TestVal::new();
    assert!(err_val.to_f32_bits().is_err());

    let mut val = TestVal::new();
    val.test_f32 = Some(0_f32.to_bits());
    assert_eq!(0_f32, f32::from_bits(val.to_f32_bits().unwrap()));
}

#[test]
fn tests_test_val_to_f64() {
    let err_val = TestVal::new();
    assert!(err_val.to_f64_bits().is_err());

    let mut val = TestVal::new();
    val.test_f64 = Some(0_f64.to_bits());
    assert_eq!(0_f64, f64::from_bits(val.to_f64_bits().unwrap()));
}

#[test]
fn tests_test_val_to_string() {
    let err_val = TestVal::new();
    assert!(err_val.to_string().is_err());

    let mut val = TestVal::new();
    val.test_string = Some(String::default());
    assert_eq!(String::default(), val.to_string().unwrap());
}

#[test]
fn tests_test_val_to_datetime() {
    let err_val = TestVal::new();
    assert!(err_val.to_datetime().is_err());

    let mut val = TestVal::new();
    let now = instant_now();
    val.test_datetime = Some(now);
    assert_eq!(now, val.to_datetime().unwrap());
}

#[test]
fn tests_test_display_test_error() {
    let err = TestError;
    assert_eq!(err.to_string(), "TestError!");
}

#[test]
fn tests_test_testval_default() {
    let val = TestVal::default();
    assert_eq!(val, TestVal::new());
}

#[test]
fn test_val_to_bool_optional() {
    let mut err_val = TestVal::new();
    err_val.is_nullable = false;
    assert!(err_val.to_bool_optional().is_err());

    let val = TestVal::new();
    assert!(val.to_bool_optional().unwrap().is_none());

    let mut val = TestVal::new();
    val.test_bool = Some(true);
    assert!(val.to_bool_optional().unwrap().unwrap());
}

#[test]
fn test_val_to_i8_optional() {
    let mut err_val = TestVal::new();
    err_val.is_nullable = false;
    assert!(err_val.to_i8_optional().is_err());

    let val = TestVal::new();
    assert!(val.to_i8_optional().unwrap().is_none());

    let mut val = TestVal::new();
    val.test_i8 = Some(0_i8);
    assert_eq!(0_i8, val.to_i8_optional().unwrap().unwrap());
}

#[test]
fn test_val_to_i16_optional() {
    let mut err_val = TestVal::new();
    err_val.is_nullable = false;
    assert!(err_val.to_i16_optional().is_err());

    let val = TestVal::new();
    assert!(val.to_i16_optional().unwrap().is_none());

    let mut val = TestVal::new();
    val.test_i16 = Some(0_i16);
    assert_eq!(0_i16, val.to_i16_optional().unwrap().unwrap());
}

#[test]
fn test_val_to_i32_optional() {
    let mut err_val = TestVal::new();
    err_val.is_nullable = false;
    assert!(err_val.to_i32_optional().is_err());

    let val = TestVal::new();
    assert!(val.to_i32_optional().unwrap().is_none());

    let mut val = TestVal::new();
    val.test_i32 = Some(0_i32);
    assert_eq!(0_i32, val.to_i32_optional().unwrap().unwrap());
}

#[test]
fn test_val_to_i64_optional() {
    let mut err_val = TestVal::new();
    err_val.is_nullable = false;
    assert!(err_val.to_i64_optional().is_err());

    let val = TestVal::new();
    assert!(val.to_i64_optional().unwrap().is_none());

    let mut val = TestVal::new();
    val.test_i64 = Some(0_i64);
    assert_eq!(0_i64, val.to_i64_optional().unwrap().unwrap());
}

#[test]
fn test_val_to_f32_optional() {
    let mut err_val = TestVal::new();
    err_val.is_nullable = false;
    assert!(err_val.to_f32_bits_optional().is_err());

    let val = TestVal::new();
    assert!(val.to_f32_bits_optional().unwrap().is_none());

    let mut val = TestVal::new();
    val.test_f32 = Some(0_f32.to_bits());
    assert_eq!(0_f32, f32::from_bits(val.to_f32_bits_optional().unwrap().unwrap()));
}

#[test]
fn test_val_to_f64_optional() {
    let mut err_val = TestVal::new();
    err_val.is_nullable = false;
    assert!(err_val.to_f64_bits_optional().is_err());

    let val = TestVal::new();
    assert!(val.to_f64_bits_optional().unwrap().is_none());

    let mut val = TestVal::new();
    val.test_f64 = Some(0_f64.to_bits());
    assert_eq!(0_f64, f64::from_bits(val.to_f64_bits_optional().unwrap().unwrap()));
}

#[test]
fn test_val_to_string_optional() {
    let mut err_val = TestVal::new();
    err_val.is_nullable = false;
    assert!(err_val.to_string_optional().is_err());

    let val = TestVal::new();
    assert!(val.to_string_optional().unwrap().is_none());

    let mut val = TestVal::new();
    val.test_string = Some(String::default());
    assert_eq!(
        String::default(),
        val.to_string_optional().unwrap().unwrap()
    );
}

#[test]
fn test_val_to_datetime_optional() {
    let mut err_val = TestVal::new();
    err_val.is_nullable = false;
    assert!(err_val.to_datetime_optional().is_err());

    let val = TestVal::new();
    assert!(val.to_datetime_optional().unwrap().is_none());

    let mut val = TestVal::new();
    let now = instant_now();
    val.test_datetime = Some(now);
    assert_eq!(now, val.to_datetime_optional().unwrap().unwrap());
}

#[test]
fn test_parameterized_query_bind_bool() {
    let mut pq: TestParameterizedQuery<TestRow> = TestParameterizedQuery::new(vec![]);
    assert!(pq.bind_bool(true).is_ok());
}

#[test]
fn test_parameterized_query_bind_datetime() {
    let mut pq: TestParameterizedQuery<TestRow> = TestParameterizedQuery::new(vec![]);
    assert!(pq.bind_datetime(instant_now()).is_ok());
}

#[test]
fn test_parameterized_query_bind_i8() {
    let mut pq: TestParameterizedQuery<TestRow> = TestParameterizedQuery::new(vec![]);
    assert!(pq.bind_i8(0).is_ok());
}

#[test]
fn test_parameterized_query_bind_i16() {
    let mut pq: TestParameterizedQuery<TestRow> = TestParameterizedQuery::new(vec![]);
    assert!(pq.bind_i16(0).is_ok());
}

#[test]
fn test_parameterized_query_bind_i32() {
    let mut pq: TestParameterizedQuery<TestRow> = TestParameterizedQuery::new(vec![]);
    assert!(pq.bind_i32(0).is_ok());
}

#[test]
fn test_parameterized_query_bind_i64() {
    let mut pq: TestParameterizedQuery<TestRow> = TestParameterizedQuery::new(vec![]);
    assert!(pq.bind_i64(0).is_ok());
}

#[test]
fn test_parameterized_query_bind_f32() {
    let mut pq: TestParameterizedQuery<TestRow> = TestParameterizedQuery::new(vec![]);
    assert!(pq.bind_f32_bits(0.0_f32.to_bits()).is_ok());
}

#[test]
fn test_parameterized_query_bind_f64() {
    let mut pq: TestParameterizedQuery<TestRow> = TestParameterizedQuery::new(vec![]);
    assert!(pq.bind_f64_bits(0.0_f64.to_bits()).is_ok());
}

#[test]
fn test_data_store() {
    let data1 = TestRow {
        data: "row1".to_string(),
    };
    let data2 = TestRow {
        data: "row2".to_string(),
    };
    let mut store = TestDataStore::new(vec![data1, data2]);
    assert_eq!(store.data, store.clone().data);
    let results = store.execute_query("SELECT * FROM dummy").unwrap();
    assert_eq!(results.len(), 2);
    let expected = results[0].get("").to_string();
    assert_eq!("row1".to_string(), expected.unwrap());

    let mut parameterized_query = TestParameterizedQuery::new(store.data.clone());
    parameterized_query
        .bind_string("Some binding".to_string())
        .unwrap();
    assert_eq!(
        parameterized_query.latest_string_binding,
        "Some binding".to_string()
    );

    let parameterized_results = parameterized_query.execute().unwrap();
    assert_eq!(parameterized_results, results);
}

#[test]
fn test_data_store_returns_stored_values() {
    let data1 = TestRow {
        data: "row1".to_string(),
    };
    let data2 = TestRow {
        data: "row2".to_string(),
    };
    let mut store = TestDataStore::new(vec![data1.clone(), data2.clone()]);
    // Ensure that cloning the store preserves the data
    assert_eq!(store.data, store.clone().data);

    let simple_results = store.execute_query("SELECT * FROM dummy").unwrap();
    assert_eq!(simple_results.len(), 2);
    assert_eq!(
        simple_results[0].get("data").to_string().unwrap(),
        data1.clone().data
    );
    assert_eq!(
        simple_results[1].get("data").to_string().unwrap(),
        data2.clone().data
    );

    let mut parameterized_query =
        ParameterizedQuery::new("SELECT * FROM dummy WHERE id = $1 AND name = $2");
    parameterized_query.bind(QueryParameter::I32(42));
    parameterized_query.bind(QueryParameter::Str("row1".to_string()));
    let parameterized_results = store
        .execute_parameterized_query(parameterized_query.clone())
        .unwrap();
    assert_eq!(parameterized_results, simple_results);
}

#[test]
fn test_data_store_captures_queries() {
    let mut store: TestDataStore<TestRow> = TestDataStore::new(vec![]);

    let simple_query = "SELECT * FROM dummy";
    store.execute_query(simple_query).unwrap();

    let mut parameterized_query =
        ParameterizedQuery::new("SELECT * FROM dummy WHERE id = $1 AND name = $2");
    parameterized_query.bind(QueryParameter::I32(42));
    parameterized_query.bind(QueryParameter::Str("row1".to_string()));
    store
        .execute_parameterized_query(parameterized_query.clone())
        .unwrap();

    assert_eq!(
        store.captured_operations(),
        vec![
            Operation::Query(simple_query.into()),
            Operation::ParameterizedQuery(parameterized_query),
        ]
    );
    // Ensure that cloning the store preserves the captured queries
    assert_eq!(
        store.clone().captured_operations(),
        store.captured_operations()
    );
}

#[test]
fn test_data_store_transaction_empty_batch() {
    let mut store: TestDataStore<TestRow> = TestDataStore::new(vec![]);
    let result = store.execute_transaction(vec![]);
    assert!(result.is_ok());
    assert_eq!(
        store.captured_operations(),
        vec![Operation::Transaction(vec![])]
    );
}

#[test]
fn test_data_store_transaction_with_queries() {
    let mut store: TestDataStore<TestRow> = TestDataStore::new(vec![]);
    let mut q1 = ParameterizedQuery::new("INSERT INTO t VALUES ($1)");
    q1.bind(QueryParameter::I32(1));
    let mut q2 = ParameterizedQuery::new("INSERT INTO t VALUES ($1)");
    q2.bind(QueryParameter::I32(2));
    let result = store.execute_transaction(vec![q1.clone(), q2.clone()]);
    assert!(result.is_ok());
    assert_eq!(
        store.captured_operations(),
        vec![Operation::Transaction(vec![q1, q2])]
    );
}

#[test]
fn test_val_errors_name_test_error() {
    let err = TestVal::new().to_i32().unwrap_err();
    assert_eq!(err.details, "TestError");
    assert_eq!(err.to_string(), "DataStoreError: TestError");
}

#[test]
fn test_val_populated_optional_ignores_nullability() {
    let mut val = TestVal::new();
    val.is_nullable = false;
    val.test_i64 = Some(-7);
    assert_eq!(Some(-7), val.to_i64_optional().unwrap());
}

#[test]
fn test_val_new_is_blank_and_nullable() {
    let val = TestVal::new();
    assert!(val.is_nullable);
    assert_eq!(val.test_bool, None);
    assert_eq!(val.test_string, None);
    assert_eq!(val.test_datetime, None);
}

#[test]
fn test_parameterized_query_bind_string_keeps_latest() {
    let mut pq: TestParameterizedQuery<TestRow> =
        TestParameterizedQuery::new(vec![TestRow { data: "a".to_string() }]);
    assert_eq!(pq.latest_string_binding, "");
    pq.bind_string("first".to_string()).unwrap();
    pq.bind_string("second".to_string()).unwrap();
    assert_eq!(pq.latest_string_binding, "second");
    assert_eq!(pq.execute().unwrap(), vec![TestRow { data: "a".to_string() }]);
}

#[test]
fn test_data_store_records_every_operation_in_order() {
    let mut store = TestDataStore::new(vec![TestRow { data: "x".to_string() }]);
    assert!(store.captured_operations().is_empty());
    let rows = store.execute_query("SELECT 1").unwrap();
    assert_eq!(rows, vec![TestRow { data: "x".to_string() }]);
    store.execute_transaction(vec![ParameterizedQuery::new("DELETE FROM t")]).unwrap();
    store.execute_query("SELECT 2").unwrap();
    assert_eq!(
        store.captured_operations(),
        vec![
            Operation::Query("SELECT 1".to_string()),
            Operation::Transaction(vec![ParameterizedQuery::new("DELETE FROM t")]),
            Operation::Query("SELECT 2".to_string()),
        ]
    );
    assert_eq!(store.data, vec![TestRow { data: "x".to_string() }]);
}

#[test]
fn test_val_floats_compare_as_values() {
    let mut zero = TestVal::new();
    zero.test_f64 = Some(0.0_f64.to_bits());
    let mut negative_zero = TestVal::new();
    negative_zero.test_f64 = Some((-0.0_f64).to_bits());
    assert_eq!(zero, negative_zero);
    let mut nan = TestVal::new();
    nan.test_f32 = Some(f32::NAN.to_bits());
    assert_ne!(nan, nan.clone());
    let mut text = TestVal::new();
    text.test_string = Some("a".to_string());
    assert_ne!(text, TestVal::new());
    assert_eq!(text, text.clone());
}

#[test]
fn test_data_store_log_holds_what_was_sent() {
    let mut store: TestDataStore<TestRow> = TestDataStore::new(vec![]);
    store.execute_query("SELECT 1").unwrap();
    assert_eq!(store.log.operations(), store.captured_operations());
    assert_eq!(store.log.clone().operations(), vec![Operation::Query("SELECT 1".to_string())]);
}
