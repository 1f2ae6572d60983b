use undeclared_vars::classify::is_global;
use undeclared_vars::globals::{is_js_global, is_ts_global};
use undeclared_vars::model::SourceType;

#[test]
fn js_table_holds_intrinsics_and_host_globals() {
    assert!(is_js_global("Array"));
    assert!(is_js_global("Object"));
    assert!(is_js_global("Promise"));
    assert!(is_js_global("undefined"));
    assert!(is_js_global("NaN"));
    assert!(is_js_global("console"));
    assert!(is_js_global("window"));
    assert!(is_js_global("process"));
    assert!(is_js_global("__dirname"));
}

#[test]
fn js_table_is_exact_and_case_sensitive() {
    assert!(!is_js_global("foobar"));
    assert!(!is_js_global("array"));
    assert!(!is_js_global("ARRAY"));
    assert!(!is_js_global("Array "));
    assert!(!is_js_global(""));
}

#[test]
fn ts_table_holds_ambient_types() {
    assert!(is_ts_global("PromiseLike"));
    assert!(is_ts_global("Partial"));
    assert!(is_ts_global("Record"));
    assert!(is_ts_global("ReturnType"));
    assert!(is_ts_global("Awaited"));
}

#[test]
fn ts_table_is_exact() {
    assert!(!is_ts_global("Array"));
    assert!(!is_ts_global("promiselike"));
    assert!(!is_ts_global("foobar"));
}

#[test]
fn typescript_recognizes_union_of_tables() {
    assert!(is_global("PromiseLike", SourceType::TypeScript));
    assert!(is_global("Array", SourceType::TypeScript));
    assert!(is_global("Partial", SourceType::TypeScript));
    assert!(!is_global("foobar", SourceType::TypeScript));
}

#[test]
fn javascript_recognizes_js_table_alone() {
    assert!(is_global("Array", SourceType::JavaScript));
    assert!(!is_global("PromiseLike", SourceType::JavaScript));
    assert!(!is_global("Partial", SourceType::JavaScript));
    assert!(!is_global("foobar", SourceType::JavaScript));
}
