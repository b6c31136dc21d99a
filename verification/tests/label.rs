use boson_valence_identity::decimal::{decimal_chars, parse_u64_range};
use boson_valence_identity::{actor_label_or_default, invoke_label, parse_invoke_id};

#[test]
fn parses_id_before_bar() {
    assert_eq!(parse_invoke_id("invoke:42|{\"User\":{}}"), Some(42));
}

#[test]
fn parses_id_without_bar() {
    assert_eq!(parse_invoke_id("invoke:7"), Some(7));
}

#[test]
fn parses_only_up_to_first_bar() {
    assert_eq!(parse_invoke_id("invoke:12|3|4"), Some(12));
}

#[test]
fn accepts_plus_sign_and_leading_zeros() {
    assert_eq!(parse_invoke_id("invoke:+5|x"), Some(5));
    assert_eq!(parse_invoke_id("invoke:0009"), Some(9));
}

#[test]
fn rejects_other_shapes() {
    assert_eq!(parse_invoke_id("system"), None);
    assert_eq!(parse_invoke_id(""), None);
    assert_eq!(parse_invoke_id("invoke"), None);
    assert_eq!(parse_invoke_id("invoke:"), None);
    assert_eq!(parse_invoke_id("invoke:|x"), None);
    assert_eq!(parse_invoke_id("invoke:+|x"), None);
    assert_eq!(parse_invoke_id("invoke:-1|x"), None);
    assert_eq!(parse_invoke_id("invoke: 1|x"), None);
    assert_eq!(parse_invoke_id("invoke:1a|x"), None);
    assert_eq!(parse_invoke_id("Invoke:1|x"), None);
    assert_eq!(parse_invoke_id("xinvoke:1|x"), None);
}

#[test]
fn u64_bounds() {
    assert_eq!(parse_invoke_id("invoke:18446744073709551615|a"), Some(u64::MAX));
    assert_eq!(parse_invoke_id("invoke:18446744073709551616|a"), None);
    assert_eq!(parse_invoke_id("invoke:99999999999999999999999"), None);
    assert_eq!(parse_invoke_id("invoke:0"), Some(0));
}

#[test]
fn parse_agrees_with_std_parse() {
    let samples = [
        "0", "1", "+1", "+", "", "-0", "007", "18446744073709551615", "18446744073709551616",
        "12x", "x12", "٣", "+-1", "++1",
    ];
    for s in samples {
        let label = format!("invoke:{s}|tail");
        assert_eq!(parse_invoke_id(&label), s.parse::<u64>().ok(), "sample {s:?}");
    }
}

#[test]
fn label_has_exact_shape() {
    assert_eq!(invoke_label(17, "{\"User\":{}}"), "invoke:17|{\"User\":{}}");
    assert_eq!(invoke_label(0, ""), "invoke:0|");
    assert_eq!(invoke_label(u64::MAX, "actor"), "invoke:18446744073709551615|actor");
}

#[test]
fn label_roundtrips_through_parse() {
    for id in [0u64, 1, 9, 10, 99, 100, 12345, u64::MAX - 1, u64::MAX] {
        for actor in ["", "actor", "a|b|c", "{\"System\":{\"operation\":\"x\"}}", "ünï|çødé"] {
            assert_eq!(parse_invoke_id(&invoke_label(id, actor)), Some(id));
        }
    }
}

#[test]
fn decimal_rendering_matches_display() {
    for n in [0u64, 5, 10, 42, 1000, 987654321, u64::MAX] {
        let text: String = decimal_chars(n).into_iter().collect();
        assert_eq!(text, n.to_string());
    }
}

#[test]
fn parse_range_reads_a_slice_of_characters() {
    let text = "ab123cd";
    assert_eq!(parse_u64_range(text, 2, 5), Some(123));
    assert_eq!(parse_u64_range(text, 2, 2), None);
    assert_eq!(parse_u64_range(text, 1, 5), None);
}

#[test]
fn actor_label_falls_back_on_render_failure() {
    assert_eq!(actor_label_or_default(Ok("{\"a\":1}".to_string())), "{\"a\":1}");
    let err = serde_json::from_str::<serde_json::Value>("{").unwrap_err();
    assert_eq!(actor_label_or_default(Err(err)), "actor");
}
