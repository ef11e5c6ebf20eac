//! The order data model: an `Order` record with its embedded `Delivery`,
//! `Payment` and `Item` value objects, together with mathematical views of
//! each and the fixed seed record inserted at process startup.

use vstd::prelude::*;
use vstd::string::*;

verus! {

/// Mathematical view of a `Delivery`.
#[verifier::ext_equal]
pub ghost struct DeliveryView {
    pub name: Seq<char>,
    pub phone: Seq<char>,
    pub zip: Seq<char>,
    pub city: Seq<char>,
    pub address: Seq<char>,
    pub region: Seq<char>,
    pub email: Seq<char>,
}

/// Mathematical view of a `Payment`.
#[verifier::ext_equal]
pub ghost struct PaymentView {
    pub transaction: Seq<char>,
    pub request_id: Seq<char>,
    pub currency: Seq<char>,
    pub provider: Seq<char>,
    pub amount: u32,
    pub payment_dt: u64,
    pub bank: Seq<char>,
    pub delivery_cost: u32,
    pub goods_total: u32,
    pub custom_fee: u32,
}

/// Mathematical view of an `Item`.
#[verifier::ext_equal]
pub ghost struct ItemView {
    pub chrt_id: u32,
    pub track_number: Seq<char>,
    pub price: u32,
    pub rid: Seq<char>,
    pub name: Seq<char>,
    pub sale: u32,
    pub size: Seq<char>,
    pub total_price: u32,
    pub nm_id: u32,
    pub brand: Seq<char>,
    pub status: u32,
}

/// Mathematical view of an `Order`: every field of the record and of its
/// embedded value objects, with strings as character sequences.
#[verifier::ext_equal]
pub ghost struct OrderView {
    pub order_uid: Seq<char>,
    pub track_number: Seq<char>,
    pub entry: Seq<char>,
    pub delivery: DeliveryView,
    pub payment: PaymentView,
    pub items: Seq<ItemView>,
    pub locale: Seq<char>,
    pub internal_signature: Seq<char>,
    pub customer_id: Seq<char>,
    pub delivery_service: Seq<char>,
    pub shardkey: Seq<char>,
    pub sm_id: u32,
    pub date_created: Seq<char>,
    pub oof_shard: Seq<char>,
}

/// The view of a sequence of items: each item replaced by its view.
pub open spec fn items_view(items: Seq<Item>) -> Seq<ItemView> {
    items.map_values(|it: Item| it@)
}

/// Shipping destination of an order; owned exclusively by its `Order`.
pub struct Delivery {
    pub name: String,
    pub phone: String,
    pub zip: String,
    pub city: String,
    pub address: String,
    pub region: String,
    pub email: String,
}

/// Payment details of an order; owned exclusively by its `Order`.
pub struct Payment {
    pub transaction: String,
    pub request_id: String,
    pub currency: String,
    pub provider: String,
    pub amount: u32,
    pub payment_dt: u64,
    pub bank: String,
    pub delivery_cost: u32,
    pub goods_total: u32,
    pub custom_fee: u32,
}

/// One line of an order; the sequence order within an `Order` is preserved.
pub struct Item {
    pub chrt_id: u32,
    pub track_number: String,
    pub price: u32,
    pub rid: String,
    pub name: String,
    pub sale: u32,
    pub size: String,
    pub total_price: u32,
    pub nm_id: u32,
    pub brand: String,
    pub status: u32,
}

/// A customer purchase record, the unit of storage and lookup. Immutable
/// once stored; created in full, with all nested value objects present.
pub struct Order {
    pub order_uid: String,
    pub track_number: String,
    pub entry: String,
    pub delivery: Delivery,
    pub payment: Payment,
    pub items: Vec<Item>,
    pub locale: String,
    pub internal_signature: String,
    pub customer_id: String,
    pub delivery_service: String,
    pub shardkey: String,
    pub sm_id: u32,
    pub date_created: String,
    pub oof_shard: String,
}

impl View for Delivery {
    type V = DeliveryView;

    open spec fn view(&self) -> DeliveryView {
        DeliveryView {
            name: self.name@,
            phone: self.phone@,
            zip: self.zip@,
            city: self.city@,
            address: self.address@,
            region: self.region@,
            email: self.email@,
        }
    }
}

impl View for Payment {
    type V = PaymentView;

    open spec fn view(&self) -> PaymentView {
        PaymentView {
            transaction: self.transaction@,
            request_id: self.request_id@,
            currency: self.currency@,
            provider: self.provider@,
            amount: self.amount,
            payment_dt: self.payment_dt,
            bank: self.bank@,
            delivery_cost: self.delivery_cost,
            goods_total: self.goods_total,
            custom_fee: self.custom_fee,
        }
    }
}

impl View for Item {
    type V = ItemView;

    open spec fn view(&self) -> ItemView {
        ItemView {
            chrt_id: self.chrt_id,
            track_number: self.track_number@,
            price: self.price,
            rid: self.rid@,
            name: self.name@,
            sale: self.sale,
            size: self.size@,
            total_price: self.total_price,
            nm_id: self.nm_id,
            brand: self.brand@,
            status: self.status,
        }
    }
}

impl View for Order {
    type V = OrderView;

    open spec fn view(&self) -> OrderView {
        OrderView {
            order_uid: self.order_uid@,
            track_number: self.track_number@,
            entry: self.entry@,
            delivery: self.delivery@,
            payment: self.payment@,
            items: items_view(self.items@),
            locale: self.locale@,
            internal_signature: self.internal_signature@,
            customer_id: self.customer_id@,
            delivery_service: self.delivery_service@,
            shardkey: self.shardkey@,
            sm_id: self.sm_id,
            date_created: self.date_created@,
            oof_shard: self.oof_shard@,
        }
    }
}

impl Clone for Delivery {
    fn clone(&self) -> (res: Self)
        ensures
            res@ == self@,
    {
        Delivery {
            name: self.name.clone(),
            phone: self.phone.clone(),
            zip: self.zip.clone(),
            city: self.city.clone(),
            address: self.address.clone(),
            region: self.region.clone(),
            email: self.email.clone(),
        }
    }
}

impl Clone for Payment {
    fn clone(&self) -> (res: Self)
        ensures
            res@ == self@,
    {
        Payment {
            transaction: self.transaction.clone(),
            request_id: self.request_id.clone(),
            currency: self.currency.clone(),
            provider: self.provider.clone(),
            amount: self.amount,
            payment_dt: self.payment_dt,
            bank: self.bank.clone(),
            delivery_cost: self.delivery_cost,
            goods_total: self.goods_total,
            custom_fee: self.custom_fee,
        }
    }
}

impl Clone for Item {
    fn clone(&self) -> (res: Self)
        ensures
            res@ == self@,
    {
        Item {
            chrt_id: self.chrt_id,
            track_number: self.track_number.clone(),
            price: self.price,
            rid: self.rid.clone(),
            name: self.name.clone(),
            sale: self.sale,
            size: self.size.clone(),
            total_price: self.total_price,
            nm_id: self.nm_id,
            brand: self.brand.clone(),
            status: self.status,
        }
    }
}

impl Clone for Order {
    fn clone(&self) -> (res: Self)
        ensures
            res@ == self@,
    {
        let mut items: Vec<Item> = Vec::new();
        let mut i: usize = 0;
        while i < self.items.len()
            invariant
                i <= self.items.len(),
                items@.len() == i,
                forall|j: int| 0 <= j < i ==> items@[j]@ == self.items@[j]@,
            decreases self.items.len() - i,
        {
            items.push(self.items[i].clone());
            i = i + 1;
        }
        let res = Order {
            order_uid: self.order_uid.clone(),
            track_number: self.track_number.clone(),
            entry: self.entry.clone(),
            delivery: self.delivery.clone(),
            payment: self.payment.clone(),
            items,
            locale: self.locale.clone(),
            internal_signature: self.internal_signature.clone(),
            customer_id: self.customer_id.clone(),
            delivery_service: self.delivery_service.clone(),
            shardkey: self.shardkey.clone(),
            sm_id: self.sm_id,
            date_created: self.date_created.clone(),
            oof_shard: self.oof_shard.clone(),
        };
        proof {
            assert(res@.items =~= self@.items);
            assert(res@ =~= self@);
        }
        res
    }
}

/// The view of the seed record: identifier `b563feb7b2b84b6test`, inserted
/// once at startup for smoke-testing deployments.
pub open spec fn test_order_view() -> OrderView {
    OrderView {
        order_uid: "b563feb7b2b84b6test"@,
        track_number: "WBILMTESTTRACK"@,
        entry: "WBIL"@,
        delivery: DeliveryView {
            name: "Test Testov"@,
            phone: "+9720000000"@,
            zip: "2639809"@,
            city: "Kiryat Mozkin"@,
            address: "Ploshad Mira 15"@,
            region: "Kraiot"@,
            email: "test@gmail.com"@,
        },
        payment: PaymentView {
            transaction: "b563feb7b2b84b6test"@,
            request_id: ""@,
            currency: "USD"@,
            provider: "wbpay"@,
            amount: 1817u32,
            payment_dt: 1637907727u64,
            bank: "alpha"@,
            delivery_cost: 1500u32,
            goods_total: 317u32,
            custom_fee: 0u32,
        },
        items: seq![
            ItemView {
                chrt_id: 9934930u32,
                track_number: "WBILMTESTTRACK"@,
                price: 453u32,
                rid: "ab4219087a764ae0btest"@,
                name: "Mascaras"@,
                sale: 30u32,
                size: "0"@,
                total_price: 317u32,
                nm_id: 2389212u32,
                brand: "Vivienne Sabo"@,
                status: 202u32,
            },
        ],
        locale: "en"@,
        internal_signature: ""@,
        customer_id: "test"@,
        delivery_service: "meest"@,
        shardkey: "9"@,
        sm_id: 99u32,
        date_created: "2021-11-26T06:22:19Z"@,
        oof_shard: "1"@,
    }
}

/// Builds the fixed seed record. Every field is pinned by `test_order_view`.
pub fn create_test_order() -> (res: Order)
    ensures
        res@ == test_order_view(),
{
    let item = Item {
        chrt_id: 9934930,
        track_number: String::from_str("WBILMTESTTRACK"),
        price: 453,
        rid: String::from_str("ab4219087a764ae0btest"),
        name: String::from_str("Mascaras"),
        sale: 30,
        size: String::from_str("0"),
        total_price: 317,
        nm_id: 2389212,
        brand: String::from_str("Vivienne Sabo"),
        status: 202,
    };
    let mut items: Vec<Item> = Vec::new();
    items.push(item);
    let res = Order {
        order_uid: String::from_str("b563feb7b2b84b6test"),
        track_number: String::from_str("WBILMTESTTRACK"),
        entry: String::from_str("WBIL"),
        delivery: Delivery {
            name: String::from_str("Test Testov"),
            phone: String::from_str("+9720000000"),
            zip: String::from_str("2639809"),
            city: String::from_str("Kiryat Mozkin"),
            address: String::from_str("Ploshad Mira 15"),
            region: String::from_str("Kraiot"),
            email: String::from_str("test@gmail.com"),
        },
        payment: Payment {
            transaction: String::from_str("b563feb7b2b84b6test"),
            request_id: String::from_str(""),
            currency: String::from_str("USD"),
            provider: String::from_str("wbpay"),
            amount: 1817,
            payment_dt: 1637907727,
            bank: String::from_str("alpha"),
            delivery_cost: 1500,
            goods_total: 317,
            custom_fee: 0,
        },
        items,
        locale: String::from_str("en"),
        internal_signature: String::from_str(""),
        customer_id: String::from_str("test"),
        delivery_service: String::from_str("meest"),
        shardkey: String::from_str("9"),
        sm_id: 99,
        date_created: String::from_str("2021-11-26T06:22:19Z"),
        oof_shard: String::from_str("1"),
    };
    proof {
        assert(res@.items =~= test_order_view().items);
        assert(res@ =~= test_order_view());
    }
    res
}

} // verus!
