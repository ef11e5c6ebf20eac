//! JSON rendering of order records, pinned down character for character.
//!
//! The wire format of a looked-up order is part of the service's contract:
//! a single JSON object whose fields appear in declaration order, with
//! nested objects inlined, no whitespace, strings escaped as JSON demands
//! and unsigned integers in plain decimal. The spec functions here state
//! that format exactly, and the render functions are proved to produce it.

use vstd::prelude::*;
use vstd::string::*;
use crate::order::{Delivery, DeliveryView, Item, ItemView, Order, OrderView, Payment, PaymentView, items_view};

verus! {

/// The character for one digit value below sixteen.
pub open spec fn digit_char(d: int) -> char {
    if d == 0 {
        '0'
    } else if d == 1 {
        '1'
    } else if d == 2 {
        '2'
    } else if d == 3 {
        '3'
    } else if d == 4 {
        '4'
    } else if d == 5 {
        '5'
    } else if d == 6 {
        '6'
    } else if d == 7 {
        '7'
    } else if d == 8 {
        '8'
    } else if d == 9 {
        '9'
    } else if d == 10 {
        'a'
    } else if d == 11 {
        'b'
    } else if d == 12 {
        'c'
    } else if d == 13 {
        'd'
    } else if d == 14 {
        'e'
    } else {
        'f'
    }
}

/// The decimal rendering of a natural number: no sign, no leading zero
/// except for the number zero itself.
pub open spec fn dec_str(n: nat) -> Seq<char>
    decreases n,
{
    if n < 10 {
        seq![digit_char(n as int)]
    } else {
        dec_str(n / 10).push(digit_char((n % 10) as int))
    }
}

/// The escape of one character inside a JSON string: quote and backslash
/// get a backslash, the named control characters their short escapes, the
/// remaining control characters a `\u00..` escape with lowercase hex
/// digits, and every other character stands for itself.
pub open spec fn esc_char(c: char) -> Seq<char> {
    if c == '"' {
        "\\\""@
    } else if c == '\\' {
        "\\\\"@
    } else if c == '\u{8}' {
        "\\b"@
    } else if c == '\t' {
        "\\t"@
    } else if c == '\n' {
        "\\n"@
    } else if c == '\u{c}' {
        "\\f"@
    } else if c == '\r' {
        "\\r"@
    } else if (c as u32) < 32 {
        "\\u00"@ + seq![digit_char((c as u32) as int / 16), digit_char((c as u32) as int % 16)]
    } else {
        seq![c]
    }
}

/// The escape of a whole string body: each character escaped in turn.
pub open spec fn esc_seq(s: Seq<char>) -> Seq<char>
    decreases s.len(),
{
    if s.len() == 0 {
        Seq::empty()
    } else {
        esc_seq(s.drop_last()) + esc_char(s.last())
    }
}

/// A string literal for one digit value below sixteen.
fn digit_str(d: u8) -> (res: &'static str)
    requires
        d < 16,
    ensures
        res@ == seq![digit_char(d as int)],
{
    if d == 0 {
        proof {
            reveal_strlit("0");
            assert("0"@ =~= seq![digit_char(d as int)]);
        }
        "0"
    } else if d == 1 {
        proof {
            reveal_strlit("1");
            assert("1"@ =~= seq![digit_char(d as int)]);
        }
        "1"
    } else if d == 2 {
        proof {
            reveal_strlit("2");
            assert("2"@ =~= seq![digit_char(d as int)]);
        }
        "2"
    } else if d == 3 {
        proof {
            reveal_strlit("3");
            assert("3"@ =~= seq![digit_char(d as int)]);
        }
        "3"
    } else if d == 4 {
        proof {
            reveal_strlit("4");
            assert("4"@ =~= seq![digit_char(d as int)]);
        }
        "4"
    } else if d == 5 {
        proof {
            reveal_strlit("5");
            assert("5"@ =~= seq![digit_char(d as int)]);
        }
        "5"
    } else if d == 6 {
        proof {
            reveal_strlit("6");
            assert("6"@ =~= seq![digit_char(d as int)]);
        }
        "6"
    } else if d == 7 {
        proof {
            reveal_strlit("7");
            assert("7"@ =~= seq![digit_char(d as int)]);
        }
        "7"
    } else if d == 8 {
        proof {
            reveal_strlit("8");
            assert("8"@ =~= seq![digit_char(d as int)]);
        }
        "8"
    } else if d == 9 {
        proof {
            reveal_strlit("9");
            assert("9"@ =~= seq![digit_char(d as int)]);
        }
        "9"
    } else if d == 10 {
        proof {
            reveal_strlit("a");
            assert("a"@ =~= seq![digit_char(d as int)]);
        }
        "a"
    } else if d == 11 {
        proof {
            reveal_strlit("b");
            assert("b"@ =~= seq![digit_char(d as int)]);
        }
        "b"
    } else if d == 12 {
        proof {
            reveal_strlit("c");
            assert("c"@ =~= seq![digit_char(d as int)]);
        }
        "c"
    } else if d == 13 {
        proof {
            reveal_strlit("d");
            assert("d"@ =~= seq![digit_char(d as int)]);
        }
        "d"
    } else if d == 14 {
        proof {
            reveal_strlit("e");
            assert("e"@ =~= seq![digit_char(d as int)]);
        }
        "e"
    } else {
        proof {
            reveal_strlit("f");
            assert("f"@ =~= seq![digit_char(d as int)]);
        }
        "f"
    }
}

/// Renders an unsigned integer in decimal.
pub fn u64_to_dec(n: u64) -> (res: String)
    ensures
        res@ == dec_str(n as nat),
    decreases n,
{
    if n < 10 {
        String::from_str(digit_str(n as u8))
    } else {
        proof {
            assert(n / 10 < n);
        }
        let mut s = u64_to_dec(n / 10);
        s.append(digit_str((n % 10) as u8));
        proof {
            assert(s@ =~= dec_str(n as nat));
        }
        s
    }
}

/// Escapes a string body for inclusion in a JSON string.
pub fn escape_json(s: &str) -> (res: String)
    ensures
        res@ == esc_seq(s@),
{
    let n = s.unicode_len();
    let mut out = String::new();
    let mut i: usize = 0;
    proof {
        assert(out@ =~= esc_seq(s@.take(0)));
    }
    while i < n
        invariant
            n == s@.len(),
            i <= n,
            out@ == esc_seq(s@.take(i as int)),
        decreases n - i,
    {
        let c = s.get_char(i);
        if c == '"' {
            out.append("\\\"");
        } else if c == '\\' {
            out.append("\\\\");
        } else if c == '\u{8}' {
            out.append("\\b");
        } else if c == '\t' {
            out.append("\\t");
        } else if c == '\n' {
            out.append("\\n");
        } else if c == '\u{c}' {
            out.append("\\f");
        } else if c == '\r' {
            out.append("\\r");
        } else if (c as u32) < 32 {
            let code: u32 = c as u32;
            out.append("\\u00");
            out.append(digit_str((code / 16) as u8));
            out.append(digit_str((code % 16) as u8));
        } else {
            let piece = s.substring_char(i, i + 1);
            out.append(piece);
            proof {
                assert(s@.subrange(i as int, i as int + 1) =~= seq![s@[i as int]]);
            }
        }
        proof {
            assert(s@.take(i as int + 1).drop_last() =~= s@.take(i as int));
            assert(s@.take(i as int + 1).last() == s@[i as int]);
            assert(out@ =~= esc_seq(s@.take(i as int + 1)));
        }
        i = i + 1;
    }
    proof {
        assert(s@.take(n as int) =~= s@);
    }
    out
}

/// The JSON object for a `Delivery`, fields in declaration order.
pub open spec fn delivery_json(d: DeliveryView) -> Seq<char> {
    "{\"name\":\""@ + esc_seq(d.name) + "\",\"phone\":\""@ + esc_seq(d.phone) + "\",\"zip\":\""@
        + esc_seq(d.zip) + "\",\"city\":\""@ + esc_seq(d.city) + "\",\"address\":\""@ + esc_seq(
        d.address,
    ) + "\",\"region\":\""@ + esc_seq(d.region) + "\",\"email\":\""@ + esc_seq(d.email) + "\"}"@
}

/// The JSON object for a `Payment`, fields in declaration order.
pub open spec fn payment_json(p: PaymentView) -> Seq<char> {
    "{\"transaction\":\""@ + esc_seq(p.transaction) + "\",\"request_id\":\""@ + esc_seq(
        p.request_id,
    ) + "\",\"currency\":\""@ + esc_seq(p.currency) + "\",\"provider\":\""@ + esc_seq(p.provider)
        + "\",\"amount\":"@ + dec_str(p.amount as nat) + ",\"payment_dt\":"@ + dec_str(
        p.payment_dt as nat,
    ) + ",\"bank\":\""@ + esc_seq(p.bank) + "\",\"delivery_cost\":"@ + dec_str(
        p.delivery_cost as nat,
    ) + ",\"goods_total\":"@ + dec_str(p.goods_total as nat) + ",\"custom_fee\":"@ + dec_str(
        p.custom_fee as nat,
    ) + "}"@
}

/// The JSON object for an `Item`, fields in declaration order.
pub open spec fn item_json(it: ItemView) -> Seq<char> {
    "{\"chrt_id\":"@ + dec_str(it.chrt_id as nat) + ",\"track_number\":\""@ + esc_seq(
        it.track_number,
    ) + "\",\"price\":"@ + dec_str(it.price as nat) + ",\"rid\":\""@ + esc_seq(it.rid)
        + "\",\"name\":\""@ + esc_seq(it.name) + "\",\"sale\":"@ + dec_str(it.sale as nat)
        + ",\"size\":\""@ + esc_seq(it.size) + "\",\"total_price\":"@ + dec_str(
        it.total_price as nat,
    ) + ",\"nm_id\":"@ + dec_str(it.nm_id as nat) + ",\"brand\":\""@ + esc_seq(it.brand)
        + "\",\"status\":"@ + dec_str(it.status as nat) + "}"@
}

/// The comma-separated bodies of an item array, in sequence order.
pub open spec fn items_inner(s: Seq<ItemView>) -> Seq<char>
    decreases s.len(),
{
    if s.len() == 0 {
        Seq::empty()
    } else if s.len() == 1 {
        item_json(s[0])
    } else {
        items_inner(s.drop_last()) + ","@ + item_json(s.last())
    }
}

/// The JSON array of an order's items.
pub open spec fn items_json(s: Seq<ItemView>) -> Seq<char> {
    "["@ + items_inner(s) + "]"@
}

/// The JSON object for an `Order`: every field of the record in
/// declaration order, nested objects inlined.
pub open spec fn order_json(o: OrderView) -> Seq<char> {
    "{\"order_uid\":\""@ + esc_seq(o.order_uid) + "\",\"track_number\":\""@ + esc_seq(
        o.track_number,
    ) + "\",\"entry\":\""@ + esc_seq(o.entry) + "\",\"delivery\":"@ + delivery_json(o.delivery)
        + ",\"payment\":"@ + payment_json(o.payment) + ",\"items\":"@ + items_json(o.items)
        + ",\"locale\":\""@ + esc_seq(o.locale) + "\",\"internal_signature\":\""@ + esc_seq(
        o.internal_signature,
    ) + "\",\"customer_id\":\""@ + esc_seq(o.customer_id) + "\",\"delivery_service\":\""@
        + esc_seq(o.delivery_service) + "\",\"shardkey\":\""@ + esc_seq(o.shardkey)
        + "\",\"sm_id\":"@ + dec_str(o.sm_id as nat) + ",\"date_created\":\""@ + esc_seq(
        o.date_created,
    ) + "\",\"oof_shard\":\""@ + esc_seq(o.oof_shard) + "\"}"@
}

/// Renders a `Delivery` as its JSON object.
pub fn render_delivery(d: &Delivery) -> (res: String)
    ensures
        res@ == delivery_json(d@),
{
    let mut out = String::new();
    out.append("{\"name\":\"");
    let e = escape_json(d.name.as_str());
    out.append(e.as_str());
    out.append("\",\"phone\":\"");
    let e = escape_json(d.phone.as_str());
    out.append(e.as_str());
    out.append("\",\"zip\":\"");
    let e = escape_json(d.zip.as_str());
    out.append(e.as_str());
    out.append("\",\"city\":\"");
    let e = escape_json(d.city.as_str());
    out.append(e.as_str());
    out.append("\",\"address\":\"");
    let e = escape_json(d.address.as_str());
    out.append(e.as_str());
    out.append("\",\"region\":\"");
    let e = escape_json(d.region.as_str());
    out.append(e.as_str());
    out.append("\",\"email\":\"");
    let e = escape_json(d.email.as_str());
    out.append(e.as_str());
    out.append("\"}");
    proof {
        assert(out@ =~= delivery_json(d@));
    }
    out
}

/// Renders a `Payment` as its JSON object.
pub fn render_payment(p: &Payment) -> (res: String)
    ensures
        res@ == payment_json(p@),
{
    let mut out = String::new();
    out.append("{\"transaction\":\"");
    let e = escape_json(p.transaction.as_str());
    out.append(e.as_str());
    out.append("\",\"request_id\":\"");
    let e = escape_json(p.request_id.as_str());
    out.append(e.as_str());
    out.append("\",\"currency\":\"");
    let e = escape_json(p.currency.as_str());
    out.append(e.as_str());
    out.append("\",\"provider\":\"");
    let e = escape_json(p.provider.as_str());
    out.append(e.as_str());
    out.append("\",\"amount\":");
    let n = u64_to_dec(p.amount as u64);
    out.append(n.as_str());
    out.append(",\"payment_dt\":");
    let n = u64_to_dec(p.payment_dt);
    out.append(n.as_str());
    out.append(",\"bank\":\"");
    let e = escape_json(p.bank.as_str());
    out.append(e.as_str());
    out.append("\",\"delivery_cost\":");
    let n = u64_to_dec(p.delivery_cost as u64);
    out.append(n.as_str());
    out.append(",\"goods_total\":");
    let n = u64_to_dec(p.goods_total as u64);
    out.append(n.as_str());
    out.append(",\"custom_fee\":");
    let n = u64_to_dec(p.custom_fee as u64);
    out.append(n.as_str());
    out.append("}");
    proof {
        assert(out@ =~= payment_json(p@));
    }
    out
}

/// Renders an `Item` as its JSON object.
pub fn render_item(it: &Item) -> (res: String)
    ensures
        res@ == item_json(it@),
{
    let mut out = String::new();
    out.append("{\"chrt_id\":");
    let n = u64_to_dec(it.chrt_id as u64);
    out.append(n.as_str());
    out.append(",\"track_number\":\"");
    let e = escape_json(it.track_number.as_str());
    out.append(e.as_str());
    out.append("\",\"price\":");
    let n = u64_to_dec(it.price as u64);
    out.append(n.as_str());
    out.append(",\"rid\":\"");
    let e = escape_json(it.rid.as_str());
    out.append(e.as_str());
    out.append("\",\"name\":\"");
    let e = escape_json(it.name.as_str());
    out.append(e.as_str());
    out.append("\",\"sale\":");
    let n = u64_to_dec(it.sale as u64);
    out.append(n.as_str());
    out.append(",\"size\":\"");
    let e = escape_json(it.size.as_str());
    out.append(e.as_str());
    out.append("\",\"total_price\":");
    let n = u64_to_dec(it.total_price as u64);
    out.append(n.as_str());
    out.append(",\"nm_id\":");
    let n = u64_to_dec(it.nm_id as u64);
    out.append(n.as_str());
    out.append(",\"brand\":\"");
    let e = escape_json(it.brand.as_str());
    out.append(e.as_str());
    out.append("\",\"status\":");
    let n = u64_to_dec(it.status as u64);
    out.append(n.as_str());
    out.append("}");
    proof {
        assert(out@ =~= item_json(it@));
    }
    out
}

/// Renders an order's items as a JSON array, sequence order preserved.
pub fn render_items(items: &Vec<Item>) -> (res: String)
    ensures
        res@ == items_json(items_view(items@)),
{
    let ghost g = items_view(items@);
    let mut out = String::new();
    out.append("[");
    let mut i: usize = 0;
    proof {
        assert(out@ =~= "["@ + items_inner(g.take(0)));
    }
    while i < items.len()
        invariant
            g == items_view(items@),
            g.len() == items@.len(),
            i <= items@.len(),
            out@ == "["@ + items_inner(g.take(i as int)),
        decreases items@.len() - i,
    {
        if i > 0 {
            out.append(",");
        }
        let r = render_item(&items[i]);
        out.append(r.as_str());
        proof {
            assert(g.take(i as int + 1).drop_last() =~= g.take(i as int));
            assert(g.take(i as int + 1).last() == g[i as int]);
            assert(g[i as int] == items@[i as int]@);
            assert(out@ =~= "["@ + items_inner(g.take(i as int + 1)));
        }
        i = i + 1;
    }
    out.append("]");
    proof {
        assert(g.take(items@.len() as int) =~= g);
        assert(out@ =~= items_json(g));
    }
    out
}

/// Renders an `Order` as its JSON object, the exact response body of a
/// successful lookup.
pub fn render_order(o: &Order) -> (res: String)
    ensures
        res@ == order_json(o@),
{
    let mut out = String::new();
    out.append("{\"order_uid\":\"");
    let e = escape_json(o.order_uid.as_str());
    out.append(e.as_str());
    out.append("\",\"track_number\":\"");
    let e = escape_json(o.track_number.as_str());
    out.append(e.as_str());
    out.append("\",\"entry\":\"");
    let e = escape_json(o.entry.as_str());
    out.append(e.as_str());
    out.append("\",\"delivery\":");
    let part = render_delivery(&o.delivery);
    out.append(part.as_str());
    out.append(",\"payment\":");
    let part = render_payment(&o.payment);
    out.append(part.as_str());
    out.append(",\"items\":");
    let part = render_items(&o.items);
    out.append(part.as_str());
    out.append(",\"locale\":\"");
    let e = escape_json(o.locale.as_str());
    out.append(e.as_str());
    out.append("\",\"internal_signature\":\"");
    let e = escape_json(o.internal_signature.as_str());
    out.append(e.as_str());
    out.append("\",\"customer_id\":\"");
    let e = escape_json(o.customer_id.as_str());
    out.append(e.as_str());
    out.append("\",\"delivery_service\":\"");
    let e = escape_json(o.delivery_service.as_str());
    out.append(e.as_str());
    out.append("\",\"shardkey\":\"");
    let e = escape_json(o.shardkey.as_str());
    out.append(e.as_str());
    out.append("\",\"sm_id\":");
    let n = u64_to_dec(o.sm_id as u64);
    out.append(n.as_str());
    out.append(",\"date_created\":\"");
    let e = escape_json(o.date_created.as_str());
    out.append(e.as_str());
    out.append("\",\"oof_shard\":\"");
    let e = escape_json(o.oof_shard.as_str());
    out.append(e.as_str());
    out.append("\"}");
    proof {
        assert(out@ =~= order_json(o@));
    }
    out
}

} // verus!
