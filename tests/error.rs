use cache_bench::error::{add_context, AppError, ErrorContext, Result};

fn message(e: &AppError) -> &str {
    match e {
        AppError::RuntimeCreate(m) | AppError::ZipfCreate(m) | AppError::CacheOperation(m) | AppError::Io(m) | AppError::Config(m) => m,
    }
}

#[test]
fn context_prefixes_the_message() {
    let r: Result<u8> = Err(AppError::Config("bad skew".to_string()));
    let out = r.with_context("Failed to generate workload");
    match out {
        Err(AppError::Config(m)) => assert_eq!(m, "Failed to generate workload: bad skew"),
        other => panic!("unexpected {:?}", other),
    }
    let r: Result<u8> = Err(AppError::Io("disk".to_string()));
    let e = add_context(r, "ctx").unwrap_err();
    assert!(matches!(e, AppError::Io(_)));
    assert_eq!(message(&e), "ctx: disk");
}

#[test]
fn context_keeps_success() {
    let r: Result<u8> = Ok(7);
    assert_eq!(r.with_context("ignored").unwrap(), 7);
}

#[test]
fn describe_names_the_category() {
    let cases = [
        (AppError::RuntimeCreate("a".to_string()), "Runtime create error: a"),
        (AppError::ZipfCreate("b".to_string()), "Zipf distribution create error: b"),
        (AppError::CacheOperation("c".to_string()), "Cache operation error: c"),
        (AppError::Io("d".to_string()), "IO error: d"),
        (AppError::Config("e".to_string()), "Configuration error: e"),
    ];
    for (e, text) in cases {
        assert_eq!(e.describe(), text);
    }
}

#[test]
fn context_nests_outermost_last() {
    let r: Result<u8> = Err(AppError::ZipfCreate("s too small".to_string()));
    let e = r.with_context("Failed to generate workload").unwrap_err();
    assert!(matches!(&e, AppError::ZipfCreate(m) if m == "Failed to generate workload: s too small"));
    let r: Result<u8> = Err(AppError::CacheOperation("m".to_string()));
    let e = r.with_context("a").with_context("b").unwrap_err();
    assert!(matches!(&e, AppError::CacheOperation(m) if m == "b: a: m"));
}
