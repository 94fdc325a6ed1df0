use krun_config::cmdline::{args_parse, val_parse};
use krun_config::error::ConfigError;
use krun_config::grammar::{join_fields, parse_u32, split_on, str_eq};

#[test]
fn split_fields_exact_count_succeeds() {
    let r = args_parse("a,b,c".to_string(), "bootloader", Some(3)).unwrap();
    assert_eq!(r, vec!["a".to_string(), "b".to_string(), "c".to_string()]);
}

#[test]
fn split_fields_count_mismatch_names_counts() {
    let r = args_parse("a,b".to_string(), "bootloader", Some(3));
    assert_eq!(
        r,
        Err(ConfigError::FieldCountMismatch {
            label: "bootloader".to_string(),
            expected: 3,
            found: 2,
        })
    );
}

#[test]
fn split_fields_no_expected_count() {
    let r = args_parse("a,b".to_string(), "virtio", None).unwrap();
    assert_eq!(r, vec!["a".to_string(), "b".to_string()]);
}

#[test]
fn split_empty_string_yields_one_empty_field() {
    let r = split_on("", ',');
    assert_eq!(r, vec!["".to_string()]);
}

#[test]
fn split_keeps_empty_fields() {
    let r = split_on("a,,b,", ',');
    assert_eq!(
        r,
        vec!["a".to_string(), "".to_string(), "b".to_string(), "".to_string()]
    );
}

#[test]
fn split_label_matching_label() {
    assert_eq!(val_parse("path=/x".to_string(), "path"), Ok("/x".to_string()));
}

#[test]
fn split_label_wrong_label() {
    assert_eq!(
        val_parse("path=/x".to_string(), "foo"),
        Err(ConfigError::LabelMismatch { expected: "foo".to_string(), found: "path".to_string() })
    );
}

#[test]
fn split_label_bare_value_skips_check() {
    assert_eq!(val_parse("/x".to_string(), "path"), Ok("/x".to_string()));
}

#[test]
fn split_label_two_equals_malformed() {
    assert_eq!(
        val_parse("a=b=c".to_string(), "a"),
        Err(ConfigError::MalformedField { raw: "a=b=c".to_string() })
    );
}

#[test]
fn join_fields_rebuilds_residual() {
    let v = vec!["virtio-fs".to_string(), "sharedDir=/a".to_string(), "mountTag=/b".to_string()];
    assert_eq!(join_fields(&v, 1), "sharedDir=/a,mountTag=/b".to_string());
    assert_eq!(join_fields(&v, 3), "".to_string());
}

#[test]
fn str_eq_decides_equality() {
    assert!(str_eq("virtio-blk", "virtio-blk"));
    assert!(!str_eq("virtio-blk", "virtio-rng"));
    assert!(!str_eq("abc", "abcd"));
}

#[test]
fn parse_u32_plain_and_signed() {
    assert_eq!(parse_u32("1024"), Some(1024));
    assert_eq!(parse_u32("+1024"), Some(1024));
    assert_eq!(parse_u32("0"), Some(0));
    assert_eq!(parse_u32("007"), Some(7));
}

#[test]
fn parse_u32_bounds() {
    assert_eq!(parse_u32("4294967295"), Some(u32::MAX));
    assert_eq!(parse_u32("4294967296"), None);
    assert_eq!(parse_u32("99999999999999999999"), None);
}

#[test]
fn parse_u32_rejects_garbage() {
    assert_eq!(parse_u32(""), None);
    assert_eq!(parse_u32("+"), None);
    assert_eq!(parse_u32("abc"), None);
    assert_eq!(parse_u32("12a"), None);
    assert_eq!(parse_u32("-1"), None);
    assert_eq!(parse_u32(" 1"), None);
}
