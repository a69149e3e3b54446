//! Mock orders for trying the service out.
//!
//! A mock order is fixed text around a few values that chance and the clock
//! supply. [`MockDraws`] holds those values, [`build_mock_order`] says
//! exactly which order they give, and [`get_mock_order`] draws them and
//! builds the order. The random numbers come from `rand`, the time from
//! `chrono`.

use chrono::Utc;
use rand::distributions::Alphanumeric;
use rand::rngs::ThreadRng;
use rand::Rng;
use vstd::prelude::*;
use vstd::string::StringExecFns;

use crate::models::{
    Delivery, DeliveryView, Item, ItemView, Order, OrderView, Payment, PaymentView,
};
use crate::text::{decimal, decimal_string, push_decimal};

verus! {

/// `rand::rngs::ThreadRng`.
#[verifier::external_type_specification]
#[verifier::external_body]
pub struct ExThreadRng(ThreadRng);

/// `rand::thread_rng`: a handle to the generator of the current thread. It
/// fails only where the system cannot seed the generator.
pub assume_specification[ rand::thread_rng ]() -> ThreadRng
;

/// Whether `byte` is an ASCII letter or digit.
pub open spec fn is_alphanumeric(byte: u8) -> bool {
    ||| 0x30 <= byte <= 0x39
    ||| 0x41 <= byte <= 0x5a
    ||| 0x61 <= byte <= 0x7a
}

/// `Rng::sample` with the distribution `Alphanumeric`: one of the letters
/// `a` to `z`, `A` to `Z` and the digits `0` to `9`, as a byte.
#[verifier::external_body]
fn sample_alphanumeric(rng: &mut ThreadRng) -> (byte: u8)
    ensures
        is_alphanumeric(byte),
{
    rng.sample(Alphanumeric)
}

/// `Rng::gen_range` on the half-open range from `low` to `high`: a number
/// that is at least `low` and less than `high`.
#[verifier::external_body]
fn gen_range(rng: &mut ThreadRng, low: u64, high: u64) -> (drawn: u64)
    requires
        low < high,
    ensures
        low <= drawn < high,
{
    rng.gen_range(low..high)
}

/// `DateTime::timestamp` of `Utc::now`: the seconds since the start of 1970
/// on the system's clock, never a negative number. `Utc::now` panics where
/// the clock stands before 1970.
#[verifier::external_body]
fn unix_time_now() -> (seconds: i64)
    ensures
        seconds >= 0,
{
    Utc::now().timestamp()
}

/// `DateTime::to_rfc3339` of `Utc::now`: the time on the system's clock as
/// text. `Utc::now` panics where the clock stands before 1970.
#[verifier::external_body]
fn rfc3339_now() -> String {
    Utc::now().to_rfc3339()
}

/// Whether every character of `text` is an ASCII letter or digit.
pub open spec fn all_alphanumeric(text: Seq<char>) -> bool {
    forall|i: int|
        0 <= i < text.len() ==> (#[trigger] text[i]) as u32 <= 0x7f && is_alphanumeric(
            text[i] as u8,
        )
}

/// `length` characters, each a letter or a digit picked by the generator of
/// the current thread.
pub fn generate_random_string(length: usize) -> (text: String)
    ensures
        text@.len() == length,
        all_alphanumeric(text@),
{
    let mut rng = rand::thread_rng();
    let mut text = String::new();
    let mut done: usize = 0;
    while done < length
        invariant
            done <= length,
            text@.len() == done,
            all_alphanumeric(text@),
        decreases length - done,
    {
        let byte = sample_alphanumeric(&mut rng);
        text.push(byte as char);
        done += 1;
    }
    text
}

/// What chance and the clock contribute to a mock order.
#[derive(Debug)]
pub struct MockDraws {
    pub track_number: String,
    pub phone: u64,
    pub zip: u64,
    pub email: u64,
    pub amount: u64,
    pub payment_dt: u64,
    pub delivery_cost: u64,
    pub goods_total: u64,
    pub chrt_id: u64,
    pub price: u64,
    pub rid: String,
    pub sale: u64,
    pub total_price: u64,
    pub nm_id: u64,
    pub shardkey: u64,
    pub sm_id: u64,
    pub date_created: String,
    pub oof_shard: u64,
}

impl MockDraws {
    /// The bounds within which the values are drawn: a track number of twelve
    /// and a row identifier of sixteen letters and digits, and each number in
    /// its range. The time is whatever the clock says.
    pub open spec fn in_range(self) -> bool {
        &&& self.track_number@.len() == 12
        &&& all_alphanumeric(self.track_number@)
        &&& 10000000 <= self.phone < 99999999
        &&& 1000000 <= self.zip < 9999999
        &&& 1 <= self.email < 100
        &&& 1000 <= self.amount < 5000
        &&& 100 <= self.delivery_cost < 500
        &&& 500 <= self.goods_total < 2000
        &&& 1000000 <= self.chrt_id < 9999999
        &&& 100 <= self.price < 500
        &&& self.rid@.len() == 16
        &&& all_alphanumeric(self.rid@)
        &&& 0 <= self.sale < 50
        &&& 100 <= self.total_price < 500
        &&& 1000000 <= self.nm_id < 9999999
        &&& 1 <= self.shardkey < 10
        &&& 1 <= self.sm_id < 100
        &&& 1 <= self.oof_shard < 10
    }

    /// Draws the values of one mock order.
    pub fn draw() -> (draws: MockDraws)
        ensures
            draws.in_range(),
    {
        let mut rng = rand::thread_rng();
        let track_number = generate_random_string(12);
        let phone = gen_range(&mut rng, 10000000, 99999999);
        let zip = gen_range(&mut rng, 1000000, 9999999);
        let email = gen_range(&mut rng, 1, 100);
        let amount = gen_range(&mut rng, 1000, 5000);
        let payment_dt = unix_time_now() as u64;
        let delivery_cost = gen_range(&mut rng, 100, 500);
        let goods_total = gen_range(&mut rng, 500, 2000);
        let chrt_id = gen_range(&mut rng, 1000000, 9999999);
        let price = gen_range(&mut rng, 100, 500);
        let rid = generate_random_string(16);
        let sale = gen_range(&mut rng, 0, 50);
        let total_price = gen_range(&mut rng, 100, 500);
        let nm_id = gen_range(&mut rng, 1000000, 9999999);
        let shardkey = gen_range(&mut rng, 1, 10);
        let sm_id = gen_range(&mut rng, 1, 100);
        let date_created = rfc3339_now();
        let oof_shard = gen_range(&mut rng, 1, 10);
        MockDraws {
            track_number,
            phone,
            zip,
            email,
            amount,
            payment_dt,
            delivery_cost,
            goods_total,
            chrt_id,
            price,
            rid,
            sale,
            total_price,
            nm_id,
            shardkey,
            sm_id,
            date_created,
            oof_shard,
        }
    }
}

/// The mock order with the identifier `id` that the values `draws` give: one
/// line item, the identifier also as the payment's transaction, the track
/// number on the order and on its item, and the drawn numbers in their
/// places, where a text needs one in decimal notation.
pub open spec fn mock_order(id: Seq<char>, draws: MockDraws) -> OrderView {
    OrderView {
        order_uid: id,
        track_number: draws.track_number@,
        entry: "WBIL"@,
        delivery: DeliveryView {
            name: "Test Testov"@,
            phone: "+972"@ + decimal(draws.phone as nat),
            zip: decimal(draws.zip as nat),
            city: "Kiryat Mozkin"@,
            address: "Ploshad Mira 15"@,
            region: "Kraiot"@,
            email: "test"@ + decimal(draws.email as nat) + "@gmail.com"@,
        },
        payment: PaymentView {
            transaction: id,
            request_id: Seq::empty(),
            currency: "USD"@,
            provider: "wbpay"@,
            amount: draws.amount,
            payment_dt: draws.payment_dt,
            bank: "alpha"@,
            delivery_cost: draws.delivery_cost,
            goods_total: draws.goods_total,
            custom_fee: 0,
        },
        items: seq![
            ItemView {
                chrt_id: draws.chrt_id,
                track_number: draws.track_number@,
                price: draws.price,
                rid: draws.rid@,
                name: "Random Item"@,
                sale: draws.sale,
                size: "L"@,
                total_price: draws.total_price,
                nm_id: draws.nm_id,
                brand: "Random Brand"@,
                status: 202,
            },
        ],
        locale: "en"@,
        internal_signature: Seq::empty(),
        customer_id: "random_customer"@,
        delivery_service: "meest"@,
        shardkey: decimal(draws.shardkey as nat),
        sm_id: draws.sm_id,
        date_created: draws.date_created@,
        oof_shard: decimal(draws.oof_shard as nat),
    }
}

/// Builds the mock order with the identifier `id` from the values `draws`.
pub fn build_mock_order(id: String, draws: MockDraws) -> (order: Order)
    ensures
        order@ == mock_order(id@, draws),
{
    let mut phone = String::from_str("+972");
    push_decimal(&mut phone, draws.phone);
    let mut email = String::from_str("test");
    push_decimal(&mut email, draws.email);
    email.append("@gmail.com");
    let delivery = Delivery {
        name: String::from_str("Test Testov"),
        phone,
        zip: decimal_string(draws.zip),
        city: String::from_str("Kiryat Mozkin"),
        address: String::from_str("Ploshad Mira 15"),
        region: String::from_str("Kraiot"),
        email,
    };
    let payment = Payment {
        transaction: id.clone(),
        request_id: String::new(),
        currency: String::from_str("USD"),
        provider: String::from_str("wbpay"),
        amount: draws.amount,
        payment_dt: draws.payment_dt,
        bank: String::from_str("alpha"),
        delivery_cost: draws.delivery_cost,
        goods_total: draws.goods_total,
        custom_fee: 0,
    };
    let mut items: Vec<Item> = Vec::new();
    items.push(
        Item {
            chrt_id: draws.chrt_id,
            track_number: draws.track_number.clone(),
            price: draws.price,
            rid: draws.rid,
            name: String::from_str("Random Item"),
            sale: draws.sale,
            size: String::from_str("L"),
            total_price: draws.total_price,
            nm_id: draws.nm_id,
            brand: String::from_str("Random Brand"),
            status: 202,
        },
    );
    let order = Order {
        order_uid: id,
        track_number: draws.track_number,
        entry: String::from_str("WBIL"),
        delivery,
        payment,
        items,
        locale: String::from_str("en"),
        internal_signature: String::new(),
        customer_id: String::from_str("random_customer"),
        delivery_service: String::from_str("meest"),
        shardkey: decimal_string(draws.shardkey),
        sm_id: draws.sm_id,
        date_created: draws.date_created,
        oof_shard: decimal_string(draws.oof_shard),
    };
    assert(order@.items =~= mock_order(id@, draws).items);
    order
}

/// A mock order with the identifier `id`: the order that
/// [`build_mock_order`] makes of freshly drawn values.
pub fn get_mock_order(id: String) -> (order: Order)
    ensures
        exists|draws: MockDraws| draws.in_range() && order@ == #[trigger] mock_order(id@, draws),
{
    let draws = MockDraws::draw();
    build_mock_order(id, draws)
}

} // verus!
