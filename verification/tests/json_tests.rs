use order_lookup::json::{escape_json, render_order, u64_to_dec};
use order_lookup::order::create_test_order;

const SEED_JSON: &str = "{\"order_uid\":\"b563feb7b2b84b6test\",\"track_number\":\"WBILMTESTTRACK\",\"entry\":\"WBIL\",\"delivery\":{\"name\":\"Test Testov\",\"phone\":\"+9720000000\",\"zip\":\"2639809\",\"city\":\"Kiryat Mozkin\",\"address\":\"Ploshad Mira 15\",\"region\":\"Kraiot\",\"email\":\"test@gmail.com\"},\"payment\":{\"transaction\":\"b563feb7b2b84b6test\",\"request_id\":\"\",\"currency\":\"USD\",\"provider\":\"wbpay\",\"amount\":1817,\"payment_dt\":1637907727,\"bank\":\"alpha\",\"delivery_cost\":1500,\"goods_total\":317,\"custom_fee\":0},\"items\":[{\"chrt_id\":9934930,\"track_number\":\"WBILMTESTTRACK\",\"price\":453,\"rid\":\"ab4219087a764ae0btest\",\"name\":\"Mascaras\",\"sale\":30,\"size\":\"0\",\"total_price\":317,\"nm_id\":2389212,\"brand\":\"Vivienne Sabo\",\"status\":202}],\"locale\":\"en\",\"internal_signature\":\"\",\"customer_id\":\"test\",\"delivery_service\":\"meest\",\"shardkey\":\"9\",\"sm_id\":99,\"date_created\":\"2021-11-26T06:22:19Z\",\"oof_shard\":\"1\"}";

#[test]
fn seed_order_renders_exact_json() {
    let body = render_order(&create_test_order());
    assert_eq!(body, SEED_JSON);
}

#[test]
fn rendered_json_is_what_serde_json_would_write() {
    // The rendered body must round-trip through a real JSON parser and
    // print back byte-identically: field order, escaping and number
    // rendering all agree with serde_json.
    let body = render_order(&create_test_order());
    let value: serde_json::Value = serde_json::from_str(&body).expect("library output must parse");
    assert_eq!(value["order_uid"], "b563feb7b2b84b6test");
    assert_eq!(value["delivery"]["city"], "Kiryat Mozkin");
    assert_eq!(value["payment"]["amount"], 1817);
    assert_eq!(value["items"][0]["chrt_id"], 9934930);
    assert_eq!(value["items"].as_array().map(|a| a.len()), Some(1));
}

#[test]
fn decimal_rendering_exact_values() {
    assert_eq!(u64_to_dec(0), "0");
    assert_eq!(u64_to_dec(7), "7");
    assert_eq!(u64_to_dec(10), "10");
    assert_eq!(u64_to_dec(99), "99");
    assert_eq!(u64_to_dec(1637907727), "1637907727");
    assert_eq!(u64_to_dec(u64::MAX), "18446744073709551615");
}

#[test]
fn escaping_plain_text_is_identity() {
    assert_eq!(escape_json("hello world"), "hello world");
    assert_eq!(escape_json(""), "");
    assert_eq!(escape_json("Kiryat Mozkin"), "Kiryat Mozkin");
    assert_eq!(escape_json("зелёная улица"), "зелёная улица");
}

#[test]
fn escaping_specials_matches_json() {
    assert_eq!(escape_json("a\"b"), "a\\\"b");
    assert_eq!(escape_json("a\\b"), "a\\\\b");
    assert_eq!(escape_json("a\nb\tc\rd"), "a\\nb\\tc\\rd");
    assert_eq!(escape_json("\u{8}\u{c}"), "\\b\\f");
    assert_eq!(escape_json("\u{1}"), "\\u0001");
    assert_eq!(escape_json("\u{1f}"), "\\u001f");
}

#[test]
fn escaping_agrees_with_serde_json_on_controls() {
    for code in 0u32..0x20u32 {
        let c = char::from_u32(code).unwrap();
        let s = c.to_string();
        let escaped = format!("\"{}\"", escape_json(&s));
        let reference = serde_json::to_string(&s).expect("serde_json escapes controls");
        assert_eq!(escaped, reference);
    }
}

#[test]
fn order_with_special_characters_renders_parseable_json() {
    let mut order = create_test_order();
    order.customer_id = "quote\" backslash\\ newline\n".to_string();
    let body = render_order(&order);
    let value: serde_json::Value = serde_json::from_str(&body).expect("escaped output must parse");
    assert_eq!(value["customer_id"], "quote\" backslash\\ newline\n");
}

#[test]
fn order_with_no_items_renders_empty_array() {
    let mut order = create_test_order();
    order.items = Vec::new();
    let body = render_order(&order);
    assert!(body.contains("\"items\":[]"));
    let value: serde_json::Value = serde_json::from_str(&body).expect("output must parse");
    assert_eq!(value["items"].as_array().map(|a| a.len()), Some(0));
}

#[test]
fn order_with_two_items_renders_comma_separated_array() {
    let mut order = create_test_order();
    let mut second = order.items[0].clone();
    second.chrt_id = 42;
    order.items.push(second);
    let body = render_order(&order);
    let value: serde_json::Value = serde_json::from_str(&body).expect("output must parse");
    assert_eq!(value["items"].as_array().map(|a| a.len()), Some(2));
    assert_eq!(value["items"][0]["chrt_id"], 9934930);
    assert_eq!(value["items"][1]["chrt_id"], 42);
}
