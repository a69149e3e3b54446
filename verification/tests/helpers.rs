use order_service::helpers::{build_mock_order, generate_random_string, get_mock_order, MockDraws};
use order_service::text::decimal_string;

fn draws() -> MockDraws {
    MockDraws {
        track_number: "WBILMTESTTRA".to_string(),
        phone: 12345678,
        zip: 2639809,
        email: 7,
        amount: 1817,
        payment_dt: 1637907727,
        delivery_cost: 150,
        goods_total: 317,
        chrt_id: 9934930,
        price: 453,
        rid: "ab4219087a764ae0".to_string(),
        sale: 30,
        total_price: 317,
        nm_id: 2389212,
        shardkey: 9,
        sm_id: 99,
        date_created: "2021-11-26T06:22:19+00:00".to_string(),
        oof_shard: 1,
    }
}

#[test]
fn random_string_has_the_length_asked_for() {
    assert_eq!(generate_random_string(0), "");
    assert_eq!(generate_random_string(1).chars().count(), 1);
    assert_eq!(generate_random_string(12).chars().count(), 12);
    assert_eq!(generate_random_string(257).len(), 257);
}

#[test]
fn random_string_is_alphanumeric() {
    let text = generate_random_string(500);
    assert!(text.chars().all(|c| c.is_ascii_alphanumeric()));
}

#[test]
fn random_strings_differ() {
    assert_ne!(generate_random_string(32), generate_random_string(32));
}

#[test]
fn decimal_string_writes_numbers_as_text() {
    assert_eq!(decimal_string(0), "0");
    assert_eq!(decimal_string(7), "7");
    assert_eq!(decimal_string(10), "10");
    assert_eq!(decimal_string(9999999), "9999999");
    assert_eq!(decimal_string(1020304050), "1020304050");
    assert_eq!(decimal_string(u64::MAX), "18446744073709551615");
}

#[test]
fn mock_order_is_built_from_its_draws() {
    let order = build_mock_order("b563feb7b2b84b6test".to_string(), draws());
    assert_eq!(order.order_uid, "b563feb7b2b84b6test");
    assert_eq!(order.track_number, "WBILMTESTTRA");
    assert_eq!(order.entry, "WBIL");
    assert_eq!(order.delivery.name, "Test Testov");
    assert_eq!(order.delivery.phone, "+97212345678");
    assert_eq!(order.delivery.zip, "2639809");
    assert_eq!(order.delivery.city, "Kiryat Mozkin");
    assert_eq!(order.delivery.address, "Ploshad Mira 15");
    assert_eq!(order.delivery.region, "Kraiot");
    assert_eq!(order.delivery.email, "test7@gmail.com");
    assert_eq!(order.payment.transaction, "b563feb7b2b84b6test");
    assert_eq!(order.payment.request_id, "");
    assert_eq!(order.payment.currency, "USD");
    assert_eq!(order.payment.provider, "wbpay");
    assert_eq!(order.payment.amount, 1817);
    assert_eq!(order.payment.payment_dt, 1637907727);
    assert_eq!(order.payment.bank, "alpha");
    assert_eq!(order.payment.delivery_cost, 150);
    assert_eq!(order.payment.goods_total, 317);
    assert_eq!(order.payment.custom_fee, 0);
    assert_eq!(order.items.len(), 1);
    assert_eq!(order.items[0].chrt_id, 9934930);
    assert_eq!(order.items[0].track_number, "WBILMTESTTRA");
    assert_eq!(order.items[0].price, 453);
    assert_eq!(order.items[0].rid, "ab4219087a764ae0");
    assert_eq!(order.items[0].name, "Random Item");
    assert_eq!(order.items[0].sale, 30);
    assert_eq!(order.items[0].size, "L");
    assert_eq!(order.items[0].total_price, 317);
    assert_eq!(order.items[0].nm_id, 2389212);
    assert_eq!(order.items[0].brand, "Random Brand");
    assert_eq!(order.items[0].status, 202);
    assert_eq!(order.locale, "en");
    assert_eq!(order.internal_signature, "");
    assert_eq!(order.customer_id, "random_customer");
    assert_eq!(order.delivery_service, "meest");
    assert_eq!(order.shardkey, "9");
    assert_eq!(order.sm_id, 99);
    assert_eq!(order.date_created, "2021-11-26T06:22:19+00:00");
    assert_eq!(order.oof_shard, "1");
}

#[test]
fn drawn_values_are_within_their_ranges() {
    for _ in 0..200 {
        let drawn = MockDraws::draw();
        assert_eq!(drawn.track_number.len(), 12);
        assert!(drawn.track_number.chars().all(|c| c.is_ascii_alphanumeric()));
        assert!((10000000..99999999).contains(&drawn.phone));
        assert!((1000000..9999999).contains(&drawn.zip));
        assert!((1..100).contains(&drawn.email));
        assert!((1000..5000).contains(&drawn.amount));
        assert!(drawn.payment_dt > 1_600_000_000);
        assert!((100..500).contains(&drawn.delivery_cost));
        assert!((500..2000).contains(&drawn.goods_total));
        assert!((1000000..9999999).contains(&drawn.chrt_id));
        assert!((100..500).contains(&drawn.price));
        assert_eq!(drawn.rid.len(), 16);
        assert!(drawn.rid.chars().all(|c| c.is_ascii_alphanumeric()));
        assert!((0..50).contains(&drawn.sale));
        assert!((100..500).contains(&drawn.total_price));
        assert!((1000000..9999999).contains(&drawn.nm_id));
        assert!((1..10).contains(&drawn.shardkey));
        assert!((1..100).contains(&drawn.sm_id));
        assert!((1..10).contains(&drawn.oof_shard));
        assert!(chrono::DateTime::parse_from_rfc3339(&drawn.date_created).is_ok());
    }
}

#[test]
fn mock_order_carries_its_identifier() {
    let order = get_mock_order("42".to_string());
    assert_eq!(order.order_uid, "42");
    assert_eq!(order.payment.transaction, "42");
    assert_eq!(order.entry, "WBIL");
    assert_eq!(order.items.len(), 1);
    assert_eq!(order.items[0].track_number, order.track_number);
    assert_eq!(order.items[0].status, 202);
    assert_eq!(order.track_number.len(), 12);
    assert!(order.delivery.phone.starts_with("+972"));
    assert_eq!(order.delivery.phone.len(), 12);
    assert!(order.delivery.email.starts_with("test"));
    assert!(order.delivery.email.ends_with("@gmail.com"));
    assert_eq!(order.delivery.zip.len(), 7);
    assert!((1000..5000).contains(&order.payment.amount));
    assert_eq!(order.payment.custom_fee, 0);
    let shard: u64 = order.shardkey.parse().unwrap();
    assert!((1..10).contains(&shard));
    let oof: u64 = order.oof_shard.parse().unwrap();
    assert!((1..10).contains(&oof));
    assert!((1..100).contains(&order.sm_id));
}
