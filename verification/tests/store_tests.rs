use order_lookup::order::{create_test_order, Delivery, Item, Order, Payment};
use order_lookup::store::OrderStore;

fn small_order(uid: &str, track: &str) -> Order {
    Order {
        order_uid: uid.to_string(),
        track_number: track.to_string(),
        entry: "WBIL".to_string(),
        delivery: Delivery {
            name: "A B".to_string(),
            phone: "+100".to_string(),
            zip: "1".to_string(),
            city: "X".to_string(),
            address: "Y 1".to_string(),
            region: "Z".to_string(),
            email: "a@b.c".to_string(),
        },
        payment: Payment {
            transaction: uid.to_string(),
            request_id: "".to_string(),
            currency: "USD".to_string(),
            provider: "wbpay".to_string(),
            amount: 1,
            payment_dt: 2,
            bank: "b".to_string(),
            delivery_cost: 3,
            goods_total: 4,
            custom_fee: 5,
        },
        items: Vec::new(),
        locale: "en".to_string(),
        internal_signature: "".to_string(),
        customer_id: "c".to_string(),
        delivery_service: "d".to_string(),
        shardkey: "9".to_string(),
        sm_id: 7,
        date_created: "2021-11-26T06:22:19Z".to_string(),
        oof_shard: "1".to_string(),
    }
}

fn assert_item_fields_equal(a: &Item, b: &Item) {
    assert_eq!(a.chrt_id, b.chrt_id);
    assert_eq!(a.track_number, b.track_number);
    assert_eq!(a.price, b.price);
    assert_eq!(a.rid, b.rid);
    assert_eq!(a.name, b.name);
    assert_eq!(a.sale, b.sale);
    assert_eq!(a.size, b.size);
    assert_eq!(a.total_price, b.total_price);
    assert_eq!(a.nm_id, b.nm_id);
    assert_eq!(a.brand, b.brand);
    assert_eq!(a.status, b.status);
}

fn assert_order_fields_equal(a: &Order, b: &Order) {
    assert_eq!(a.order_uid, b.order_uid);
    assert_eq!(a.track_number, b.track_number);
    assert_eq!(a.entry, b.entry);
    assert_eq!(a.delivery.name, b.delivery.name);
    assert_eq!(a.delivery.phone, b.delivery.phone);
    assert_eq!(a.delivery.zip, b.delivery.zip);
    assert_eq!(a.delivery.city, b.delivery.city);
    assert_eq!(a.delivery.address, b.delivery.address);
    assert_eq!(a.delivery.region, b.delivery.region);
    assert_eq!(a.delivery.email, b.delivery.email);
    assert_eq!(a.payment.transaction, b.payment.transaction);
    assert_eq!(a.payment.request_id, b.payment.request_id);
    assert_eq!(a.payment.currency, b.payment.currency);
    assert_eq!(a.payment.provider, b.payment.provider);
    assert_eq!(a.payment.amount, b.payment.amount);
    assert_eq!(a.payment.payment_dt, b.payment.payment_dt);
    assert_eq!(a.payment.bank, b.payment.bank);
    assert_eq!(a.payment.delivery_cost, b.payment.delivery_cost);
    assert_eq!(a.payment.goods_total, b.payment.goods_total);
    assert_eq!(a.payment.custom_fee, b.payment.custom_fee);
    assert_eq!(a.items.len(), b.items.len());
    for (x, y) in a.items.iter().zip(b.items.iter()) {
        assert_item_fields_equal(x, y);
    }
    assert_eq!(a.locale, b.locale);
    assert_eq!(a.internal_signature, b.internal_signature);
    assert_eq!(a.customer_id, b.customer_id);
    assert_eq!(a.delivery_service, b.delivery_service);
    assert_eq!(a.shardkey, b.shardkey);
    assert_eq!(a.sm_id, b.sm_id);
    assert_eq!(a.date_created, b.date_created);
    assert_eq!(a.oof_shard, b.oof_shard);
}

#[test]
fn fresh_store_is_empty_and_misses() {
    let store = OrderStore::new();
    assert_eq!(store.len(), 0);
    assert!(store.get("b563feb7b2b84b6test").is_none());
    assert!(store.get("").is_none());
}

#[test]
fn uninserted_keys_miss_even_after_other_inserts() {
    let mut store = OrderStore::new();
    store.insert("k1".to_string(), small_order("k1", "T1"));
    store.insert("k2".to_string(), small_order("k2", "T2"));
    assert!(store.get("k3").is_none());
    assert!(store.get("K1").is_none());
    assert!(store.get("k1 ").is_none());
}

#[test]
fn insert_then_get_returns_equal_record() {
    let mut store = OrderStore::new();
    let seed = create_test_order();
    store.insert("b563feb7b2b84b6test".to_string(), create_test_order());
    let got = store.get("b563feb7b2b84b6test").expect("inserted key must be found");
    assert_order_fields_equal(&got, &seed);
    // A second lookup sees the very same record.
    let again = store.get("b563feb7b2b84b6test").expect("inserted key must stay found");
    assert_order_fields_equal(&again, &seed);
}

#[test]
fn overwrite_same_key_last_write_wins() {
    let mut store = OrderStore::new();
    store.insert("k".to_string(), small_order("k", "FIRST"));
    store.insert("k".to_string(), small_order("k", "SECOND"));
    let got = store.get("k").expect("overwritten key must be found");
    assert_eq!(got.track_number, "SECOND");
    assert_order_fields_equal(&got, &small_order("k", "SECOND"));
    assert_eq!(store.len(), 1);
}

#[test]
fn equal_value_under_two_keys_stays_separate() {
    let mut store = OrderStore::new();
    store.insert("a".to_string(), small_order("a", "TA"));
    store.insert("b".to_string(), small_order("b", "TB"));
    assert_eq!(store.len(), 2);
    assert_eq!(store.get("a").unwrap().track_number, "TA");
    assert_eq!(store.get("b").unwrap().track_number, "TB");
}

#[test]
fn many_records_each_found_under_its_key() {
    let mut store = OrderStore::new();
    for i in 0..100u32 {
        let uid = format!("uid-{}", i);
        store.insert(uid.clone(), small_order(&uid, &format!("TRACK-{}", i)));
    }
    assert_eq!(store.len(), 100);
    for i in 0..100u32 {
        let uid = format!("uid-{}", i);
        let got = store.get(&uid).expect("every inserted key must be found");
        assert_eq!(got.order_uid, uid);
        assert_eq!(got.track_number, format!("TRACK-{}", i));
    }
}

#[test]
fn seed_record_has_fixture_fields() {
    let seed = create_test_order();
    assert_eq!(seed.order_uid, "b563feb7b2b84b6test");
    assert_eq!(seed.track_number, "WBILMTESTTRACK");
    assert_eq!(seed.entry, "WBIL");
    assert_eq!(seed.delivery.name, "Test Testov");
    assert_eq!(seed.delivery.email, "test@gmail.com");
    assert_eq!(seed.payment.transaction, "b563feb7b2b84b6test");
    assert_eq!(seed.payment.amount, 1817);
    assert_eq!(seed.payment.payment_dt, 1637907727);
    assert_eq!(seed.items.len(), 1);
    assert_eq!(seed.items[0].chrt_id, 9934930);
    assert_eq!(seed.items[0].total_price, 317);
    assert_eq!(seed.sm_id, 99);
    assert_eq!(seed.date_created, "2021-11-26T06:22:19Z");
}
