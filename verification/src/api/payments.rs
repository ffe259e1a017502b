//! Invoices and payments.
use crate::api::address;
use crate::api::address::{add_members, telegram_conversation_payload};
use crate::api::request;
use crate::api::request::{make_call, Request, RequestView};
use crate::commerce::{Invoice, InvoiceOptions, LineItem, Money, ShippingOption};
use crate::conversation::MessageTarget;
use crate::error;
use crate::error::{message, Error, ErrorView};
use crate::json;
use crate::json::{Fields, Json, JsonView};
use crate::list;
use crate::list::collect_json;
use crate::native;
use crate::native::merge_optional_native;
use crate::text;
use crate::text::{parse_i64, same};
use vstd::prelude::*;

verus! {

/// What a line of an invoice costs: its price, as often as it is bought.
pub open spec fn line_amount(item: LineItem) -> int {
    item.amount.amount * match item.quantity {
        Some(quantity) => quantity as int,
        None => 1,
    }
}

/// A line of an invoice.
pub open spec fn labeled_price_outcome(item: LineItem) -> Result<JsonView, ErrorView> {
    if !(i64::MIN <= line_amount(item) <= i64::MAX) {
        error::refused("invoice line-item amount overflow"@)
    } else if line_amount(item) < 0 {
        error::refused("Telegram invoice prices cannot be negative"@)
    } else {
        Ok(
            JsonView::Object(
                json::no_fields().insert("label"@, JsonView::Text(item.label@)).insert(
                    "amount"@,
                    JsonView::Integer(line_amount(item)),
                ),
            ),
        )
    }
}

/// Writes a line of an invoice.
pub fn telegram_labeled_price(item: &LineItem) -> (result: Result<Json, Error>)
    ensures
        error::shown(result) == labeled_price_outcome(*item),
{
    let quantity: i64 = match item.quantity {
        Some(quantity) => quantity as i64,
        None => 1,
    };
    let amount: i64 = match item.amount.amount.checked_mul(quantity) {
        Some(amount) => amount,
        None => {
            return Err(message("invoice line-item amount overflow"));
        },
    };
    if amount < 0 {
        return Err(message("Telegram invoice prices cannot be negative"));
    }
    let mut object = Fields::none();
    object.put("label", Json::text(item.label.as_str()));
    object.put("amount", Json::integer(amount));
    Ok(Json::object(object))
}

/// How each line is written.
pub open spec fn labeled_prices() -> spec_fn(int, LineItem) -> Result<JsonView, ErrorView> {
    |i: int, item: LineItem| labeled_price_outcome(item)
}

fn write_price(i: usize, item: &LineItem) -> (result: Result<Json, Error>)
    ensures
        error::shown(result) == labeled_prices()(i as int, *item),
{
    telegram_labeled_price(item)
}

/// Every price is in the same currency.
pub open spec fn one_currency(items: Seq<LineItem>) -> bool {
    forall|i: int|
        0 <= i < items.len() ==> (#[trigger] items[i]).amount.currency@ == items[0].amount.currency@
}

fn check_one_currency(items: &Vec<LineItem>) -> (result: bool)
    requires
        items@.len() > 0,
    ensures
        result == one_currency(items@),
{
    let mut i: usize = 0;
    while i < items.len()
        invariant
            i <= items@.len(),
            items@.len() > 0,
            forall|j: int|
                0 <= j < i ==> (#[trigger] items@[j]).amount.currency@
                    == items@[0].amount.currency@,
        decreases items@.len() - i,
    {
        if !same(items[i].amount.currency.as_str(), items[0].amount.currency.as_str()) {
            assert(items@[i as int].amount.currency@ != items@[0].amount.currency@);
            return false;
        }
        i += 1;
    }
    true
}

/// The parameters of an invoice.
pub open spec fn invoice_members(
    invoice: Invoice,
    options: InvoiceOptions,
    prices: Seq<JsonView>,
) -> Map<Seq<char>, JsonView> {
    json::no_fields().insert("title"@, JsonView::Text(invoice.title@)).insert(
        "description"@,
        JsonView::Text(invoice.description@),
    ).insert("payload"@, JsonView::Text(invoice.payload@)).insert(
        "currency"@,
        JsonView::Text(invoice.items@[0].amount.currency@),
    ).insert("prices"@, JsonView::Array(prices)).insert(
        "provider_token"@,
        json::optional_text_view(options.provider_token),
    ).insert("start_parameter"@, json::optional_text_view(options.start_parameter)).insert(
        "photo_url"@,
        json::optional_text_view(options.photo_url),
    ).insert("protect_content"@, JsonView::Bool(options.protect_content)).insert(
        "need_name"@,
        JsonView::Bool(invoice.customer_details.name is Some),
    ).insert("need_phone_number"@, JsonView::Bool(invoice.customer_details.phone is Some)).insert(
        "need_email"@,
        JsonView::Bool(invoice.customer_details.email is Some),
    ).insert(
        "need_shipping_address"@,
        JsonView::Bool(invoice.customer_details.shipping_address is Some),
    ).insert("is_flexible"@, JsonView::Bool(invoice.flexible_shipping))
}

/// The call that sends an invoice.
pub open spec fn send_invoice_outcome(
    target: MessageTarget,
    invoice: Invoice,
    options: InvoiceOptions,
) -> Result<RequestView, ErrorView> {
    if invoice.items@.len() == 0 {
        error::refused("Telegram invoices require prices"@)
    } else if !one_currency(invoice.items@) {
        error::refused("all Telegram invoice prices must use the same currency"@)
    } else {
        match list::collect(invoice.items@, labeled_prices()) {
            Err(e) => Err(e),
            Ok(prices) => match address::conversation_payload(target.conversation) {
                Err(e) => Err(e),
                Ok(place) => match address::with_members(
                    place,
                    invoice_members(invoice, options, prices),
                ) {
                    Err(e) => Err(e),
                    Ok(payload) => match native::optional_native_merged(
                        payload,
                        target.platform_data,
                        "invoice target"@,
                    ) {
                        Err(e) => Err(e),
                        Ok(payload) => match native::optional_native_merged(
                            payload,
                            invoice.platform_data,
                            "invoice"@,
                        ) {
                            Err(e) => Err(e),
                            Ok(payload) => request::requested(
                                "sendInvoice"@,
                                native::optional_native_merged(
                                    payload,
                                    options.platform_data,
                                    "invoice options"@,
                                ),
                            ),
                        },
                    },
                },
            },
        }
    }
}

/// The call that sends an invoice.
pub fn send_invoice(target: &MessageTarget, invoice: &Invoice, options: &InvoiceOptions) -> (result:
    Result<Request, Error>)
    ensures
        error::shown(result) == send_invoice_outcome(*target, *invoice, *options),
{
    if invoice.items.len() == 0 {
        return Err(message("Telegram invoices require prices"));
    }
    if !check_one_currency(&invoice.items) {
        return Err(message("all Telegram invoice prices must use the same currency"));
    }
    let prices = collect_json(&invoice.items, write_price, Ghost(labeled_prices()))?;
    let place = telegram_conversation_payload(&target.conversation)?;
    let mut own = Fields::none();
    own.put("title", Json::text(invoice.title.as_str()));
    own.put("description", Json::text(invoice.description.as_str()));
    own.put("payload", Json::text(invoice.payload.as_str()));
    own.put("currency", Json::text(invoice.items[0].amount.currency.as_str()));
    own.put("prices", Json::array(prices));
    own.put("provider_token", Json::optional_text(&options.provider_token));
    own.put("start_parameter", Json::optional_text(&options.start_parameter));
    own.put("photo_url", Json::optional_text(&options.photo_url));
    own.put("protect_content", Json::bool(options.protect_content));
    own.put("need_name", Json::bool(invoice.customer_details.name.is_some()));
    own.put("need_phone_number", Json::bool(invoice.customer_details.phone.is_some()));
    own.put("need_email", Json::bool(invoice.customer_details.email.is_some()));
    own.put(
        "need_shipping_address",
        Json::bool(invoice.customer_details.shipping_address.is_some()),
    );
    own.put("is_flexible", Json::bool(invoice.flexible_shipping));
    let payload = add_members(place, &own)?;
    let payload = merge_optional_native(payload, &target.platform_data, "invoice target")?;
    let payload = merge_optional_native(payload, &invoice.platform_data, "invoice")?;
    let payload = merge_optional_native(payload, &options.platform_data, "invoice options")?;
    Ok(make_call("sendInvoice", payload))
}

/// How each way of shipping is written.
pub open spec fn shipping_options() -> spec_fn(int, ShippingOption) -> Result<JsonView, ErrorView> {
    |i: int, option: ShippingOption| shipping_option_outcome(option)
}

/// A way of shipping.
pub open spec fn shipping_option_outcome(option: ShippingOption) -> Result<JsonView, ErrorView> {
    match list::collect(option.prices@, labeled_prices()) {
        Err(e) => Err(e),
        Ok(prices) => Ok(
            JsonView::Object(
                json::no_fields().insert("id"@, JsonView::Text(option.id@)).insert(
                    "title"@,
                    JsonView::Text(option.title@),
                ).insert("prices"@, JsonView::Array(prices)),
            ),
        ),
    }
}

fn write_shipping_option(i: usize, option: &ShippingOption) -> (result: Result<Json, Error>)
    ensures
        error::shown(result) == shipping_options()(i as int, *option),
{
    let prices = collect_json(&option.prices, write_price, Ghost(labeled_prices()))?;
    let mut object = Fields::none();
    object.put("id", Json::text(option.id.as_str()));
    object.put("title", Json::text(option.title.as_str()));
    object.put("prices", Json::array(prices));
    Ok(Json::object(object))
}

/// The call that answers a question about shipping.
pub open spec fn shipping_answer_outcome(
    request_id: Seq<char>,
    options: Seq<ShippingOption>,
    refusal: Option<String>,
) -> Result<RequestView, ErrorView> {
    if !(refusal is None || options.len() == 0) {
        error::refused("a rejected Telegram shipping query cannot include shipping options"@)
    } else {
        match list::collect(options, shipping_options()) {
            Err(e) => Err(e),
            Ok(list) => Ok(
                request::call(
                    "answerShippingQuery"@,
                    json::no_fields().insert("shipping_query_id"@, JsonView::Text(request_id)).insert(
                        "ok"@,
                        JsonView::Bool(refusal is None),
                    ).insert(
                        "shipping_options"@,
                        if list.len() == 0 {
                            JsonView::Null
                        } else {
                            JsonView::Array(list)
                        },
                    ).insert("error_message"@, json::optional_text_view(refusal)),
                ),
            ),
        }
    }
}

/// The call that answers a question about shipping.
pub fn answer_shipping_request(
    request_id: &str,
    options: &Vec<ShippingOption>,
    refusal: &Option<String>,
) -> (result: Result<Request, Error>)
    ensures
        error::shown(result) == shipping_answer_outcome(request_id@, options@, *refusal),
{
    if !(refusal.is_none() || options.len() == 0) {
        return Err(
            message("a rejected Telegram shipping query cannot include shipping options"),
        );
    }
    let list = collect_json(options, write_shipping_option, Ghost(shipping_options()))?;
    let list = if list.len() == 0 {
        Json::null()
    } else {
        Json::array(list)
    };
    let mut payload = Fields::none();
    payload.put("shipping_query_id", Json::text(request_id));
    payload.put("ok", Json::bool(refusal.is_none()));
    payload.put("shipping_options", list);
    payload.put("error_message", Json::optional_text(refusal));
    Ok(make_call("answerShippingQuery", payload))
}

/// The call that answers a checkout.
pub open spec fn checkout_answer_outcome(
    request_id: Seq<char>,
    approved: bool,
    refusal: Option<String>,
) -> Result<RequestView, ErrorView> {
    if approved == (refusal is Some) {
        error::refused(
            "approved Telegram checkouts cannot include an error, and rejected checkouts require one"@,
        )
    } else {
        Ok(
            request::call(
                "answerPreCheckoutQuery"@,
                json::no_fields().insert("pre_checkout_query_id"@, JsonView::Text(request_id)).insert(
                    "ok"@,
                    JsonView::Bool(approved),
                ).insert("error_message"@, json::optional_text_view(refusal)),
            ),
        )
    }
}

/// The call that answers a checkout.
pub fn answer_checkout_request(request_id: &str, approved: bool, refusal: &Option<String>) -> (result:
    Result<Request, Error>)
    ensures
        error::shown(result) == checkout_answer_outcome(request_id@, approved, *refusal),
{
    if approved == refusal.is_some() {
        return Err(
            message(
                "approved Telegram checkouts cannot include an error, and rejected checkouts require one",
            ),
        );
    }
    let mut payload = Fields::none();
    payload.put("pre_checkout_query_id", Json::text(request_id));
    payload.put("ok", Json::bool(approved));
    payload.put("error_message", Json::optional_text(refusal));
    Ok(make_call("answerPreCheckoutQuery", payload))
}

/// The call that pays a payment back.
pub open spec fn refund_outcome(
    charge_id: Seq<char>,
    total: Money,
    payer: Option<Seq<char>>,
) -> Result<RequestView, ErrorView> {
    if total.currency@ != "XTR"@ {
        error::refused("Telegram Bot API can refund only Telegram Star payments"@)
    } else {
        match payer {
            None => error::refused("Telegram refunds require the payer"@),
            Some(payer) => match text::i64_value(payer) {
                None => error::refused("invalid Telegram payer user id"@),
                Some(user) => Ok(
                    request::call(
                        "refundStarPayment"@,
                        json::no_fields().insert("user_id"@, JsonView::Integer(user as int)).insert(
                            "telegram_payment_charge_id"@,
                            JsonView::Text(charge_id),
                        ),
                    ),
                ),
            },
        }
    }
}

/// The call that pays a payment back.
pub fn refund_payment(charge_id: &str, total: &Money, payer: &Option<String>) -> (result: Result<
    Request,
    Error,
>)
    ensures
        error::shown(result) == refund_outcome(charge_id@, *total, json::optional_chars(*payer)),
{
    if !same(total.currency.as_str(), "XTR") {
        return Err(message("Telegram Bot API can refund only Telegram Star payments"));
    }
    let payer = match payer {
        Some(payer) => payer,
        None => {
            return Err(message("Telegram refunds require the payer"));
        },
    };
    let user: i64 = match parse_i64(payer.as_str()) {
        Some(user) => user,
        None => {
            return Err(message("invalid Telegram payer user id"));
        },
    };
    let mut payload = Fields::none();
    payload.put("user_id", Json::integer(user));
    payload.put("telegram_payment_charge_id", Json::text(charge_id));
    Ok(make_call("refundStarPayment", payload))
}

// ---------------------------------------------------------------------------
// Laws
// ---------------------------------------------------------------------------

proof fn lemma_payment_keys()
    ensures
        "title"@.len() == 5,
        "description"@.len() == 11,
        "payload"@.len() == 7,
        "currency"@.len() == 8,
        "prices"@.len() == 6,
        "provider_token"@.len() == 14,
        "start_parameter"@.len() == 15,
        "photo_url"@.len() == 9,
        "protect_content"@.len() == 15,
        "need_name"@.len() == 9,
        "need_phone_number"@.len() == 17,
        "need_email"@.len() == 10,
        "need_shipping_address"@.len() == 21,
        "is_flexible"@.len() == 11,
        "label"@.len() == 5,
        "amount"@.len() == 6,
        "shipping_query_id"@.len() == 17,
        "ok"@.len() == 2,
        "shipping_options"@.len() == 16,
        "error_message"@.len() == 13,
        "pre_checkout_query_id"@.len() == 21,
        "user_id"@.len() == 7,
        "telegram_payment_charge_id"@.len() == 26,
        "id"@.len() == 2,
        "chat_id"@.len() == 7,
        "title"@ != "label"@,
        "description"@ != "is_flexible"@,
        "payload"@ != "user_id"@,
        "payload"@ != "chat_id"@,
        "prices"@ != "amount"@,
        "start_parameter"@ != "protect_content"@,
        "photo_url"@ != "need_name"@,
        "need_phone_number"@ != "shipping_query_id"@,
        "need_shipping_address"@ != "pre_checkout_query_id"@,
        "ok"@ != "id"@,
        "user_id"@ != "chat_id"@,
{
    reveal_strlit("title");
    reveal_strlit("description");
    reveal_strlit("payload");
    reveal_strlit("currency");
    reveal_strlit("prices");
    reveal_strlit("provider_token");
    reveal_strlit("start_parameter");
    reveal_strlit("photo_url");
    reveal_strlit("protect_content");
    reveal_strlit("need_name");
    reveal_strlit("need_phone_number");
    reveal_strlit("need_email");
    reveal_strlit("need_shipping_address");
    reveal_strlit("is_flexible");
    reveal_strlit("label");
    reveal_strlit("amount");
    reveal_strlit("shipping_query_id");
    reveal_strlit("ok");
    reveal_strlit("shipping_options");
    reveal_strlit("error_message");
    reveal_strlit("pre_checkout_query_id");
    reveal_strlit("user_id");
    reveal_strlit("telegram_payment_charge_id");
    reveal_strlit("id");
    reveal_strlit("chat_id");
    assert("title"@[0] != "label"@[0]);
    assert("description"@[0] != "is_flexible"@[0]);
    assert("payload"@[0] != "user_id"@[0]);
    assert("payload"@[0] != "chat_id"@[0]);
    assert("prices"@[0] != "amount"@[0]);
    assert("start_parameter"@[0] != "protect_content"@[0]);
    assert("photo_url"@[0] != "need_name"@[0]);
    assert("need_phone_number"@[0] != "shipping_query_id"@[0]);
    assert("need_shipping_address"@[0] != "pre_checkout_query_id"@[0]);
    assert("ok"@[0] != "id"@[0]);
    assert("user_id"@[0] != "chat_id"@[0]);
}

/// The document says the price: its label and, in the smallest unit, the amount
/// of one piece times the number of pieces.
pub open spec fn says_price(written: JsonView, item: LineItem) -> bool {
    &&& written matches JsonView::Object(price)
    &&& json::text_in(price, "label"@) == Some(item.label@)
    &&& json::i64_in(price, "amount"@) matches Some(amount)
    &&& amount >= 0
    &&& item.quantity is None ==> amount == item.amount.amount
    &&& item.quantity matches Some(pieces) ==> amount == item.amount.amount * pieces
}

proof fn lemma_price_said(item: LineItem)
    requires
        labeled_price_outcome(item) is Ok,
    ensures
        says_price(json::stripped(labeled_price_outcome(item)->Ok_0), item),
{
    lemma_payment_keys();
    let written = labeled_price_outcome(item)->Ok_0->Object_0;
    json::lemma_stripped_member(written, "label"@);
    json::lemma_stripped_member(written, "amount"@);
    if item.quantity is None {
        assert(item.amount.amount * 1 == item.amount.amount);
    }
}

proof fn lemma_prices_said(items: Seq<LineItem>, i: int)
    requires
        list::collect(items, labeled_prices()) is Ok,
        0 <= i < items.len(),
    ensures
        json::stripped(JsonView::Array(list::collect(items, labeled_prices())->Ok_0)) matches JsonView::Array(
            written,
        ) && written.len() == items.len() && says_price(written[i], items[i]),
{
    list::lemma_collect_ok(items, labeled_prices());
    let prices = list::collect(items, labeled_prices())->Ok_0;
    assert(labeled_prices()(i, items[i]) == Ok::<JsonView, ErrorView>(prices[i]));
    json::lemma_stripped_item(prices, i);
    lemma_price_said(items[i]);
}

/// An invoice is sent with its texts, in the currency of its prices, with each
/// price in its place, and asks for exactly the details that are wanted.
pub proof fn law_invoices_are_sent_as_they_are(
    target: MessageTarget,
    invoice: Invoice,
    options: InvoiceOptions,
    i: int,
)
    requires
        send_invoice_outcome(target, invoice, options) is Ok,
        0 <= i < invoice.items@.len(),
    ensures
        ({
            let call = send_invoice_outcome(target, invoice, options)->Ok_0;
            let wanted = invoice.customer_details;
            &&& call.method == "sendInvoice"@
            &&& json::text_in(call.payload, "title"@) == Some(invoice.title@)
            &&& json::text_in(call.payload, "description"@) == Some(invoice.description@)
            &&& json::text_in(call.payload, "payload"@) == Some(invoice.payload@)
            &&& json::text_in(call.payload, "currency"@) == Some(
                invoice.items@[i].amount.currency@,
            )
            &&& json::array_in(call.payload, "prices"@) matches Some(prices)
            &&& prices.len() == invoice.items@.len()
            &&& says_price(prices[i], invoice.items@[i])
            &&& json::text_in(call.payload, "provider_token"@) == json::optional_chars(
                options.provider_token,
            )
            &&& json::text_in(call.payload, "start_parameter"@) == json::optional_chars(
                options.start_parameter,
            )
            &&& json::text_in(call.payload, "photo_url"@) == json::optional_chars(options.photo_url)
            &&& json::bool_in(call.payload, "protect_content"@) == Some(options.protect_content)
            &&& json::bool_in(call.payload, "need_name"@) == Some(wanted.name is Some)
            &&& json::bool_in(call.payload, "need_phone_number"@) == Some(wanted.phone is Some)
            &&& json::bool_in(call.payload, "need_email"@) == Some(wanted.email is Some)
            &&& json::bool_in(call.payload, "need_shipping_address"@) == Some(
                wanted.shipping_address is Some,
            )
            &&& json::bool_in(call.payload, "is_flexible"@) == Some(invoice.flexible_shipping)
            &&& json::member(call.payload, "chat_id"@) == Some(
                match text::i64_value(address::root(target.conversation).id@) {
                    Some(id) => JsonView::Integer(id as int),
                    None => JsonView::Text(address::root(target.conversation).id@),
                },
            )
        }),
{
    lemma_payment_keys();
    lemma_prices_said(invoice.items@, i);
    address::lemma_chat_is_named(target.conversation);
    lemma_invoice_said(target, invoice, options, "title"@);
    lemma_invoice_said(target, invoice, options, "description"@);
    lemma_invoice_said(target, invoice, options, "payload"@);
    lemma_invoice_said(target, invoice, options, "currency"@);
    lemma_invoice_said(target, invoice, options, "prices"@);
    lemma_invoice_said(target, invoice, options, "provider_token"@);
    lemma_invoice_said(target, invoice, options, "start_parameter"@);
    lemma_invoice_said(target, invoice, options, "photo_url"@);
    lemma_invoice_said(target, invoice, options, "protect_content"@);
    lemma_invoice_said(target, invoice, options, "need_name"@);
    lemma_invoice_said(target, invoice, options, "need_phone_number"@);
    lemma_invoice_said(target, invoice, options, "need_email"@);
    lemma_invoice_said(target, invoice, options, "need_shipping_address"@);
    lemma_invoice_said(target, invoice, options, "is_flexible"@);
    lemma_invoice_said(target, invoice, options, "chat_id"@);
}

proof fn lemma_invoice_said(
    target: MessageTarget,
    invoice: Invoice,
    options: InvoiceOptions,
    key: Seq<char>,
)
    requires
        send_invoice_outcome(target, invoice, options) is Ok,
    ensures
        ({
            let prices = list::collect(invoice.items@, labeled_prices())->Ok_0;
            let place = address::conversation_payload(target.conversation)->Ok_0;
            let said = send_invoice_outcome(target, invoice, options)->Ok_0.payload;
            &&& json::member(invoice_members(invoice, options, prices), key) matches Some(value)
                ==> json::member(said, key) == if value is Null {
                None
            } else {
                Some(json::stripped(value))
            }
            &&& json::member(place, key) matches Some(value) ==> json::member(said, key)
                == if value is Null {
                None
            } else {
                Some(json::stripped(value))
            }
        }),
{
    let prices = list::collect(invoice.items@, labeled_prices())->Ok_0;
    let place = address::conversation_payload(target.conversation)->Ok_0;
    let own = invoice_members(invoice, options, prices);
    let first = address::with_members(place, own)->Ok_0;
    let second = native::optional_native_merged(
        first,
        target.platform_data,
        "invoice target"@,
    )->Ok_0;
    let third = native::optional_native_merged(second, invoice.platform_data, "invoice"@)->Ok_0;
    let all = native::optional_native_merged(
        third,
        options.platform_data,
        "invoice options"@,
    )->Ok_0;
    address::lemma_members_kept(place, own, key);
    native::lemma_optional_keeps(first, target.platform_data, "invoice target"@, key);
    native::lemma_optional_keeps(second, invoice.platform_data, "invoice"@, key);
    native::lemma_optional_keeps(third, options.platform_data, "invoice options"@, key);
    request::lemma_call_member("sendInvoice"@, all, key);
}

/// A question about shipping is answered with yes exactly where no reason is
/// given against it, and with the ways of shipping in their order; a no says
/// the reason.
pub proof fn law_shipping_is_offered_or_refused(
    request_id: Seq<char>,
    options: Seq<ShippingOption>,
    refusal: Option<String>,
    i: int,
    j: int,
)
    requires
        shipping_answer_outcome(request_id, options, refusal) is Ok,
    ensures
        ({
            let call = shipping_answer_outcome(request_id, options, refusal)->Ok_0;
            &&& call.method == "answerShippingQuery"@
            &&& json::text_in(call.payload, "shipping_query_id"@) == Some(request_id)
            &&& json::bool_in(call.payload, "ok"@) == Some(refusal is None)
            &&& json::text_in(call.payload, "error_message"@) == json::optional_chars(refusal)
            &&& options.len() == 0 ==> json::member(call.payload, "shipping_options"@) is None
            &&& 0 <= i < options.len() && 0 <= j < options[i].prices@.len() ==> {
                &&& json::array_in(call.payload, "shipping_options"@) matches Some(ways)
                &&& ways.len() == options.len()
                &&& ways[i] matches JsonView::Object(way)
                &&& json::text_in(way, "id"@) == Some(options[i].id@)
                &&& json::text_in(way, "title"@) == Some(options[i].title@)
                &&& json::array_in(way, "prices"@) matches Some(prices)
                &&& prices.len() == options[i].prices@.len()
                &&& says_price(prices[j], options[i].prices@[j])
            }
        }),
{
    lemma_payment_keys();
    let ways = list::collect(options, shipping_options())->Ok_0;
    list::lemma_collect_ok(options, shipping_options());
    let payload = json::no_fields().insert("shipping_query_id"@, JsonView::Text(request_id)).insert(
        "ok"@,
        JsonView::Bool(refusal is None),
    ).insert(
        "shipping_options"@,
        if ways.len() == 0 {
            JsonView::Null
        } else {
            JsonView::Array(ways)
        },
    ).insert("error_message"@, json::optional_text_view(refusal));
    request::lemma_call_member("answerShippingQuery"@, payload, "shipping_query_id"@);
    request::lemma_call_member("answerShippingQuery"@, payload, "ok"@);
    request::lemma_call_member("answerShippingQuery"@, payload, "shipping_options"@);
    request::lemma_call_member("answerShippingQuery"@, payload, "error_message"@);
    if 0 <= i < options.len() && 0 <= j < options[i].prices@.len() {
        assert(shipping_options()(i, options[i]) == Ok::<JsonView, ErrorView>(ways[i]));
        json::lemma_stripped_item(ways, i);
        let way = ways[i]->Object_0;
        json::lemma_stripped_member(way, "id"@);
        json::lemma_stripped_member(way, "title"@);
        json::lemma_stripped_member(way, "prices"@);
        lemma_prices_said(options[i].prices@, j);
    }
}

/// A checkout is approved with yes and refused with no and the reason.
pub proof fn law_checkouts_are_approved_or_refused(
    request_id: Seq<char>,
    approved: bool,
    refusal: Option<String>,
)
    ensures
        checkout_answer_outcome(request_id, approved, refusal) is Ok <==> (approved
            <==> refusal is None),
        checkout_answer_outcome(request_id, approved, refusal) matches Ok(call) ==> call.method
            == "answerPreCheckoutQuery"@ && json::text_in(call.payload, "pre_checkout_query_id"@)
            == Some(request_id) && json::bool_in(call.payload, "ok"@) == Some(approved)
            && json::text_in(call.payload, "error_message"@) == json::optional_chars(refusal),
{
    lemma_payment_keys();
    let payload = json::no_fields().insert(
        "pre_checkout_query_id"@,
        JsonView::Text(request_id),
    ).insert("ok"@, JsonView::Bool(approved)).insert(
        "error_message"@,
        json::optional_text_view(refusal),
    );
    request::lemma_call_member("answerPreCheckoutQuery"@, payload, "pre_checkout_query_id"@);
    request::lemma_call_member("answerPreCheckoutQuery"@, payload, "ok"@);
    request::lemma_call_member("answerPreCheckoutQuery"@, payload, "error_message"@);
}

/// Stars are given back to the one who paid, for the charge that was paid; no
/// other payment is.
pub proof fn law_refunds_go_to_the_payer(
    charge_id: Seq<char>,
    total: Money,
    payer: Option<Seq<char>>,
)
    ensures
        refund_outcome(charge_id, total, payer) is Ok <==> total.currency@ == "XTR"@ && (
        payer matches Some(user) && text::i64_value(user) is Some),
        refund_outcome(charge_id, total, payer) matches Ok(call) ==> call.method
            == "refundStarPayment"@ && json::i64_in(call.payload, "user_id"@) == text::i64_value(
            payer->0,
        ) && json::text_in(call.payload, "telegram_payment_charge_id"@) == Some(charge_id),
{
    lemma_payment_keys();
    if refund_outcome(charge_id, total, payer) is Ok {
        let payload = json::no_fields().insert(
            "user_id"@,
            JsonView::Integer(text::i64_value(payer->0)->0 as int),
        ).insert("telegram_payment_charge_id"@, JsonView::Text(charge_id));
        request::lemma_call_member("refundStarPayment"@, payload, "user_id"@);
        request::lemma_call_member("refundStarPayment"@, payload, "telegram_payment_charge_id"@);
    }
}

} // verus!
