use sheepdog::numfmt::{bool_string, i64_text, u64_text};

#[test]
fn integers_render_like_to_string() {
    for n in [0i64, 1, -1, 9, 10, -10, 99, 100, 12345, -987654321, i64::MAX, i64::MIN] {
        assert_eq!(i64_text(n), n.to_string());
    }
    for n in [0u64, 7, 10, 1000, u64::MAX] {
        assert_eq!(u64_text(n), n.to_string());
    }
}

#[test]
fn booleans_render_like_to_string() {
    assert_eq!(bool_string(true), "true");
    assert_eq!(bool_string(false), "false");
}
