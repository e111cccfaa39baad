//! The static product pages and the invoices, filled in from HTML
//! templates by replacing their `[placeholder]`s.

use vstd::prelude::*;
use crate::media::{original_name, original_image_url};
use crate::numeric::{decimal_int, format_i32, is_digit, lemma_decimal_int_symbols};
use crate::text::{concat, join, join_with, replace_all, replaced, string_from, text_eq, texts};

verus! {

/// The lower-case form of a text (`str::to_lowercase`). It depends on the
/// text alone.
pub uninterp spec fn lowercase_text(s: Seq<char>) -> Seq<char>;

/// `str::to_lowercase`. The result is named by `lowercase_text`; nothing
/// more is claimed of it.
#[verifier::external_body]
pub(crate) fn to_lowercase(s: &str) -> (r: String)
    ensures
        r@ == lowercase_text(s@),
{
    s.to_lowercase()
}

/// The template with each key replaced by its value, in order.
pub open spec fn filled(template: Seq<char>, pairs: Seq<(Seq<char>, Seq<char>)>) -> Seq<char>
    decreases pairs.len(),
{
    if pairs.len() == 0 {
        template
    } else {
        replaced(filled(template, pairs.drop_last()), pairs.last().0, pairs.last().1)
    }
}

/// The pairs of keys and values as texts.
pub open spec fn key_values(keys: Seq<&str>, values: Seq<String>) -> Seq<(Seq<char>, Seq<char>)> {
    Seq::new(keys.len(), |i: int| (keys[i]@, values[i]@))
}

/// Replaces each key of the template by its value, in order.
pub fn fill_template(template: &str, keys: &Vec<&str>, values: &Vec<String>) -> (r: String)
    requires
        keys.len() == values.len(),
        forall|i: int| 0 <= i < keys.len() ==> keys@[i]@.len() > 0,
    ensures
        r@ == filled(template@, key_values(keys@, values@)),
{
    let mut r = string_from(template);
    let mut i: usize = 0;
    while i < keys.len()
        invariant
            keys.len() == values.len(),
            forall|j: int| 0 <= j < keys.len() ==> keys@[j]@.len() > 0,
            i <= keys.len(),
            r@ == filled(template@, key_values(keys@, values@).subrange(0, i as int)),
        decreases keys.len() - i,
    {
        let ghost kv = key_values(keys@, values@);
        assert(kv.subrange(0, i + 1).drop_last() =~= kv.subrange(0, i as int));
        r = replace_all(r.as_str(), keys[i], values[i].as_str());
        i = i + 1;
    }
    assert(key_values(keys@, values@).subrange(0, keys.len() as int) =~= key_values(
        keys@,
        values@,
    ));
    r
}

// ---------------------------------------------------------------------------
// Product pages
// ---------------------------------------------------------------------------

/// The name of a product's page: its name with spaces made dashes, in
/// lower case, then `-` and its id.
pub open spec fn product_slug(name: Seq<char>, product_id: int) -> Seq<char> {
    lowercase_text(replaced(name, " "@, "-"@)) + "-"@ + decimal_int(product_id)
}

/// The name of a product's page.
pub fn product_unique_id(product_name: &str, product_id: i32) -> (r: String)
    ensures
        r@ == product_slug(product_name@, product_id as int),
{
    proof {
        reveal_strlit(" ");
    }
    let dashed = replace_all(product_name, " ", "-");
    let mut r = to_lowercase(dashed.as_str());
    r.append("-");
    let id = format_i32(product_id);
    r.append(id.as_str());
    r
}

/// Whether a product is sold before it is in stock, as shown: `Yes` or `No`.
pub fn preorder_label(is_preorder: bool) -> (r: String)
    ensures
        r@ == if is_preorder {
            "Yes"@
        } else {
            "No"@
        },
{
    if is_preorder {
        string_from("Yes")
    } else {
        string_from("No")
    }
}

/// The image shown when a page is shared: the first image, if any.
pub fn post_image(images: &Vec<String>) -> (r: String)
    ensures
        r@ == if images@.len() > 0 {
            images@[0]@
        } else {
            ""@
        },
{
    if images.len() > 0 {
        string_from(images[0].as_str())
    } else {
        string_from("")
    }
}

/// The label laid over the images of a product that is out of stock.
pub open spec fn stock_tag(stock_quantity: int) -> Seq<char> {
    if stock_quantity <= 0 {
        "<div class='out-of-stock-label'>Out of Stock</div>"@
    } else {
        ""@
    }
}

/// The label laid over the images of a product, empty when it is in stock.
pub fn out_of_stock_tag(stock_quantity: i32) -> (r: String)
    ensures
        r@ == stock_tag(stock_quantity as int),
{
    if stock_quantity <= 0 {
        string_from("<div class='out-of-stock-label'>Out of Stock</div>")
    } else {
        string_from("")
    }
}

/// The card of one image: shown as background, opening the full-size copy
/// when clicked, with the stock label over it.
pub open spec fn image_card(image: Seq<char>, tag: Seq<char>) -> Seq<char> {
    "<div class='image-container' style='background-image: url(.."@ + image
        + ")' onclick='setTimeout(() => location.href=\".."@ + "/images/"@ + original_name(image)
        + "\", 300)'>"@ + tag + "</div>"@
}

/// The cards of all images, in order.
pub open spec fn image_cards_of(images: Seq<Seq<char>>, tag: Seq<char>) -> Seq<char>
    decreases images.len(),
{
    if images.len() == 0 {
        seq![]
    } else {
        image_cards_of(images.drop_last(), tag) + image_card(images.last(), tag)
    }
}

/// The cards of the images of a product.
pub fn image_cards(images: &Vec<String>, tag: &str) -> (r: String)
    ensures
        r@ == image_cards_of(texts(images@), tag@),
{
    let mut r = String::new();
    let mut i: usize = 0;
    while i < images.len()
        invariant
            i <= images.len(),
            r@ == image_cards_of(texts(images@.subrange(0, i as int)), tag@),
        decreases images.len() - i,
    {
        let ghost pre = texts(images@.subrange(0, i as int));
        let ghost nxt = texts(images@.subrange(0, i + 1));
        assert(nxt.drop_last() =~= pre);
        assert(nxt.last() == images@[i as int]@);
        let original = original_image_url(images[i].as_str());
        r.append("<div class='image-container' style='background-image: url(..");
        r.append(images[i].as_str());
        r.append(")' onclick='setTimeout(() => location.href=\"..");
        r.append(original.as_str());
        r.append("\", 300)'>");
        r.append(tag);
        r.append("</div>");
        assert(r@ =~= image_cards_of(nxt, tag@));
        i = i + 1;
    }
    assert(images@.subrange(0, images.len() as int) =~= images@);
    r
}

/// What a product page shows.
pub struct ProductPage {
    pub unique_id: String,
    pub product_name: String,
    pub description: String,
    pub post_image: String,
    pub product_images: Vec<String>,
    pub stock_quantity: i32,
    pub color: String,
    pub strap_material: String,
    pub strap_color: String,
    pub case_material: String,
    pub case_diameter: String,
    pub case_depth: String,
    pub case_width: String,
    pub dial_glass_type: String,
    pub dial_color: String,
    pub condition: String,
    pub movement_country: String,
    pub movement_type: String,
    pub movement_caliber: String,
    pub water_resistance: String,
    pub warranty_period: String,
    pub warranty_type: String,
    pub other_accessories_type: String,
    pub gender: String,
    pub is_preorder: String,
    pub discounted_price: String,
    pub symbol: String,
    pub price: String,
}

/// The placeholders of a product page and what fills them, in the order
/// they are filled (before the image cards and the struck-out price).
pub open spec fn product_fields(p: ProductPage) -> Seq<(Seq<char>, Seq<char>)> {
    seq![
        ("[unique_id]"@, p.unique_id@),
        ("[product_name]"@, p.product_name@),
        ("[description]"@, p.description@),
        ("[post_image]"@, p.post_image@),
        ("[stock_quantity]"@, decimal_int(p.stock_quantity as int)),
        ("[color]"@, p.color@),
        ("[strap_material]"@, p.strap_material@),
        ("[strap_color]"@, p.strap_color@),
        ("[case_material]"@, p.case_material@),
        ("[case_diameter]"@, p.case_diameter@),
        ("[case_depth]"@, p.case_depth@),
        ("[case_width]"@, p.case_width@),
        ("[dial_glass_type]"@, p.dial_glass_type@),
        ("[dial_color]"@, p.dial_color@),
        ("[condition]"@, p.condition@),
        ("[movement_country]"@, p.movement_country@),
        ("[movement_type]"@, p.movement_type@),
        ("[movement_caliber]"@, p.movement_caliber@),
        ("[water_resistance]"@, p.water_resistance@),
        ("[warranty_period]"@, p.warranty_period@),
        ("[warranty_type]"@, p.warranty_type@),
        ("[other_accessories_type]"@, p.other_accessories_type@),
        ("[gender]"@, p.gender@),
        ("[is_preorder]"@, p.is_preorder@),
        ("[discounted_price]"@, p.discounted_price@),
        ("[symbol]"@, p.symbol@),
    ]
}

/// The struck-out original price, shown when the price shown differs from
/// it.
pub open spec fn struck_price(p: ProductPage) -> Seq<char> {
    if p.price@ != p.discounted_price@ {
        "<span style='text-decoration: line-through; margin-right: 0.2rem'>"@ + p.price@
            + "</span>"@
    } else {
        ""@
    }
}

/// The page of a product, from the page template.
pub open spec fn product_page(template: Seq<char>, p: ProductPage) -> Seq<char> {
    replaced(
        replaced(
            filled(template, product_fields(p)),
            "[image_cards]"@,
            image_cards_of(texts(p.product_images@), stock_tag(p.stock_quantity as int)),
        ),
        "[original_price]"@,
        struck_price(p),
    )
}

/// Fills the page template for a product.
pub fn render_product_page(template: &str, p: &ProductPage) -> (r: String)
    ensures
        r@ == product_page(template@, *p),
{
    proof {
        reveal_strlit("[unique_id]");
        reveal_strlit("[product_name]");
        reveal_strlit("[description]");
        reveal_strlit("[post_image]");
        reveal_strlit("[stock_quantity]");
        reveal_strlit("[color]");
        reveal_strlit("[strap_material]");
        reveal_strlit("[strap_color]");
        reveal_strlit("[case_material]");
        reveal_strlit("[case_diameter]");
        reveal_strlit("[case_depth]");
        reveal_strlit("[case_width]");
        reveal_strlit("[dial_glass_type]");
        reveal_strlit("[dial_color]");
        reveal_strlit("[condition]");
        reveal_strlit("[movement_country]");
        reveal_strlit("[movement_type]");
        reveal_strlit("[movement_caliber]");
        reveal_strlit("[water_resistance]");
        reveal_strlit("[warranty_period]");
        reveal_strlit("[warranty_type]");
        reveal_strlit("[other_accessories_type]");
        reveal_strlit("[gender]");
        reveal_strlit("[is_preorder]");
        reveal_strlit("[discounted_price]");
        reveal_strlit("[symbol]");
        reveal_strlit("[image_cards]");
        reveal_strlit("[original_price]");
    }
    let keys: Vec<&str> = vec![
        "[unique_id]",
        "[product_name]",
        "[description]",
        "[post_image]",
        "[stock_quantity]",
        "[color]",
        "[strap_material]",
        "[strap_color]",
        "[case_material]",
        "[case_diameter]",
        "[case_depth]",
        "[case_width]",
        "[dial_glass_type]",
        "[dial_color]",
        "[condition]",
        "[movement_country]",
        "[movement_type]",
        "[movement_caliber]",
        "[water_resistance]",
        "[warranty_period]",
        "[warranty_type]",
        "[other_accessories_type]",
        "[gender]",
        "[is_preorder]",
        "[discounted_price]",
        "[symbol]",
    ];
    let values: Vec<String> = vec![
        string_from(p.unique_id.as_str()),
        string_from(p.product_name.as_str()),
        string_from(p.description.as_str()),
        string_from(p.post_image.as_str()),
        format_i32(p.stock_quantity),
        string_from(p.color.as_str()),
        string_from(p.strap_material.as_str()),
        string_from(p.strap_color.as_str()),
        string_from(p.case_material.as_str()),
        string_from(p.case_diameter.as_str()),
        string_from(p.case_depth.as_str()),
        string_from(p.case_width.as_str()),
        string_from(p.dial_glass_type.as_str()),
        string_from(p.dial_color.as_str()),
        string_from(p.condition.as_str()),
        string_from(p.movement_country.as_str()),
        string_from(p.movement_type.as_str()),
        string_from(p.movement_caliber.as_str()),
        string_from(p.water_resistance.as_str()),
        string_from(p.warranty_period.as_str()),
        string_from(p.warranty_type.as_str()),
        string_from(p.other_accessories_type.as_str()),
        string_from(p.gender.as_str()),
        string_from(p.is_preorder.as_str()),
        string_from(p.discounted_price.as_str()),
        string_from(p.symbol.as_str()),
    ];
    assert(key_values(keys@, values@) =~= product_fields(*p));
    let html = fill_template(template, &keys, &values);
    let tag = out_of_stock_tag(p.stock_quantity);
    let cards = image_cards(&p.product_images, tag.as_str());
    let html = replace_all(html.as_str(), "[image_cards]", cards.as_str());
    let struck = if !text_eq(p.price.as_str(), p.discounted_price.as_str()) {
        let mut s = string_from("<span style='text-decoration: line-through; margin-right: 0.2rem'>");
        s.append(p.price.as_str());
        s.append("</span>");
        s
    } else {
        string_from("")
    };
    replace_all(html.as_str(), "[original_price]", struck.as_str())
}

/// Where the page of a product is written.
pub fn product_page_path(unique_id: &str) -> (r: String)
    ensures
        r@ == "./products/"@ + unique_id@ + ".html"@,
{
    let mut r = concat("./products/", unique_id);
    r.append(".html");
    r
}

// ---------------------------------------------------------------------------
// Invoices
// ---------------------------------------------------------------------------

/// The heading data of an invoice.
pub struct InvoiceHeader {
    pub customer_name: String,
    pub customer_phone: String,
    pub home_address: String,
    pub street_address: String,
    pub ward: String,
    pub township: String,
    pub city: String,
    pub state: String,
    pub country: String,
    pub shop_name: String,
    pub seller_phone: String,
    pub shop_address: String,
    pub order_date: String,
    pub order_id: String,
    pub invoice_id: String,
    pub payment_type: String,
    pub note: String,
}

/// One line of an invoice.
pub struct InvoiceLine {
    pub brand_name: String,
    pub model: String,
    pub quantity: i32,
    pub symbol: String,
    pub price: String,
    pub total: String,
}

/// The customer's address on an invoice: house, street, ward, township,
/// city, state and country, separated by `, `.
pub open spec fn customer_address(h: InvoiceHeader) -> Seq<char> {
    join_with(
        seq![
            h.home_address@,
            h.street_address@,
            h.ward@,
            h.township@,
            h.city@,
            h.state@,
            h.country@,
        ],
        ", "@,
    )
}

/// The placeholders of the invoice heading and what fills them.
pub open spec fn invoice_fields(h: InvoiceHeader) -> Seq<(Seq<char>, Seq<char>)> {
    seq![
        ("[customer_name]"@, h.customer_name@),
        ("[customer_phone]"@, h.customer_phone@),
        ("[customer_address]"@, customer_address(h)),
        ("[shop_name]"@, h.shop_name@),
        ("[seller_phone]"@, h.seller_phone@),
        ("[seller_address]"@, h.shop_address@),
        ("[order_date]"@, h.order_date@),
        ("[order_id]"@, h.order_id@),
        ("[invoice_id]"@, h.invoice_id@),
        ("[payment_type]"@, h.payment_type@),
        ("[note]"@, h.note@),
    ]
}

/// The markup of one invoice line, preceded by a space.
pub open spec fn invoice_line(l: InvoiceLine) -> Seq<char> {
    " <div class=\"flex row\"><div style=\"text-align: left\">"@ + l.brand_name@ + " "@ + l.model@
        + "</div><div>"@ + decimal_int(l.quantity as int) + "</div><div>"@ + l.symbol@ + " "@
        + l.price@ + "</div><div>"@ + l.symbol@ + " "@ + l.total@ + "</div></div>"@
}

/// The markup of all invoice lines, in order.
pub open spec fn invoice_lines(lines: Seq<InvoiceLine>) -> Seq<char>
    decreases lines.len(),
{
    if lines.len() == 0 {
        seq![]
    } else {
        invoice_lines(lines.drop_last()) + invoice_line(lines.last())
    }
}

/// The invoice, from the invoice template.
pub open spec fn invoice_page(
    template: Seq<char>,
    h: InvoiceHeader,
    lines: Seq<InvoiceLine>,
    sub_total: Seq<char>,
) -> Seq<char> {
    replaced(
        replaced(filled(template, invoice_fields(h)), "[order_items]"@, invoice_lines(lines)),
        "[sub_total]"@,
        sub_total,
    )
}

fn invoice_address(h: &InvoiceHeader) -> (r: String)
    ensures
        r@ == customer_address(*h),
{
    let parts: Vec<String> = vec![
        string_from(h.home_address.as_str()),
        string_from(h.street_address.as_str()),
        string_from(h.ward.as_str()),
        string_from(h.township.as_str()),
        string_from(h.city.as_str()),
        string_from(h.state.as_str()),
        string_from(h.country.as_str()),
    ];
    assert(texts(parts@) =~= seq![
        h.home_address@,
        h.street_address@,
        h.ward@,
        h.township@,
        h.city@,
        h.state@,
        h.country@,
    ]);
    join(&parts, ", ")
}

fn invoice_lines_markup(lines: &Vec<InvoiceLine>) -> (r: String)
    ensures
        r@ == invoice_lines(lines@),
{
    let mut r = String::new();
    let mut i: usize = 0;
    while i < lines.len()
        invariant
            i <= lines.len(),
            r@ == invoice_lines(lines@.subrange(0, i as int)),
        decreases lines.len() - i,
    {
        let ghost nxt = lines@.subrange(0, i + 1);
        assert(nxt.drop_last() =~= lines@.subrange(0, i as int));
        let l = &lines[i];
        let q = format_i32(l.quantity);
        r.append(" <div class=\"flex row\"><div style=\"text-align: left\">");
        r.append(l.brand_name.as_str());
        r.append(" ");
        r.append(l.model.as_str());
        r.append("</div><div>");
        r.append(q.as_str());
        r.append("</div><div>");
        r.append(l.symbol.as_str());
        r.append(" ");
        r.append(l.price.as_str());
        r.append("</div><div>");
        r.append(l.symbol.as_str());
        r.append(" ");
        r.append(l.total.as_str());
        r.append("</div></div>");
        assert(r@ =~= invoice_lines(nxt));
        i = i + 1;
    }
    assert(lines@.subrange(0, lines.len() as int) =~= lines@);
    r
}

/// Fills the invoice template for an order.
pub fn render_invoice(
    template: &str,
    h: &InvoiceHeader,
    lines: &Vec<InvoiceLine>,
    sub_total: &str,
) -> (r: String)
    ensures
        r@ == invoice_page(template@, *h, lines@, sub_total@),
{
    proof {
        reveal_strlit("[customer_name]");
        reveal_strlit("[customer_phone]");
        reveal_strlit("[customer_address]");
        reveal_strlit("[shop_name]");
        reveal_strlit("[seller_phone]");
        reveal_strlit("[seller_address]");
        reveal_strlit("[order_date]");
        reveal_strlit("[order_id]");
        reveal_strlit("[invoice_id]");
        reveal_strlit("[payment_type]");
        reveal_strlit("[note]");
        reveal_strlit("[order_items]");
        reveal_strlit("[sub_total]");
    }
    let keys: Vec<&str> = vec![
        "[customer_name]",
        "[customer_phone]",
        "[customer_address]",
        "[shop_name]",
        "[seller_phone]",
        "[seller_address]",
        "[order_date]",
        "[order_id]",
        "[invoice_id]",
        "[payment_type]",
        "[note]",
    ];
    let values: Vec<String> = vec![
        string_from(h.customer_name.as_str()),
        string_from(h.customer_phone.as_str()),
        invoice_address(h),
        string_from(h.shop_name.as_str()),
        string_from(h.seller_phone.as_str()),
        string_from(h.shop_address.as_str()),
        string_from(h.order_date.as_str()),
        string_from(h.order_id.as_str()),
        string_from(h.invoice_id.as_str()),
        string_from(h.payment_type.as_str()),
        string_from(h.note.as_str()),
    ];
    assert(key_values(keys@, values@) =~= invoice_fields(*h));
    let page = fill_template(template, &keys, &values);
    let items = invoice_lines_markup(lines);
    let page = replace_all(page.as_str(), "[order_items]", items.as_str());
    replace_all(page.as_str(), "[sub_total]", sub_total)
}

/// The address of the PDF made of an invoice: what the PDF service answered
/// when it answered with code `200` (empty where it gave none), nothing
/// otherwise.
pub fn invoice_url_of(code: i32, data: Option<String>) -> (r: Option<String>)
    ensures
        code != 200 ==> r is None,
        code == 200 ==> (r matches Some(u) && u@ == (match data {
            Some(d) => d@,
            None => ""@,
        })),
{
    if code != 200 {
        None
    } else {
        match data {
            Some(d) => Some(d),
            None => Some(string_from("")),
        }
    }
}

// ---------------------------------------------------------------------------
// What a filled template shows
// ---------------------------------------------------------------------------

/// The text holds no `[`, so no placeholder can occur in it.
pub open spec fn plain_text(s: Seq<char>) -> bool {
    forall|i: int| 0 <= i < s.len() ==> s[i] != '['
}

/// A placeholder: `[` first, `]` last, and neither bracket in between.
pub open spec fn is_placeholder(k: Seq<char>) -> bool {
    &&& k.len() >= 2
    &&& k[0] == '['
    &&& k[k.len() - 1] == ']'
    &&& forall|i: int| 1 <= i < k.len() - 1 ==> k[i] != '[' && k[i] != ']'
}

/// Replacing a placeholder in a text that holds no `[` changes nothing.
proof fn lemma_replaced_plain(s: Seq<char>, p: Seq<char>, t: Seq<char>)
    requires
        plain_text(s),
        p.len() > 0,
        p[0] == '[',
    ensures
        replaced(s, p, t) == s,
    decreases s.len(),
{
    if s.len() >= p.len() {
        assert(s.subrange(0, p.len() as int)[0] == s[0]);
        assert(s.subrange(0, p.len() as int) != p);
        lemma_replaced_plain(s.drop_first(), p, t);
        assert(seq![s[0]] + s.drop_first() =~= s);
    }
}

/// Texts without `[` joined together hold none either.
proof fn lemma_plain_concat(a: Seq<char>, b: Seq<char>)
    requires
        plain_text(a),
        plain_text(b),
    ensures
        plain_text(a + b),
{
    assert forall|i: int| 0 <= i < (a + b).len() implies (a + b)[i] != '[' by {
        if i < a.len() {
            assert((a + b)[i] == a[i]);
        } else {
            assert((a + b)[i] == b[i - a.len()]);
        }
    }
}

/// Replacing a placeholder in a text that starts with a part holding no `[`
/// keeps that part in front.
proof fn lemma_replaced_after_plain(a: Seq<char>, b: Seq<char>, p: Seq<char>, t: Seq<char>)
    requires
        plain_text(a),
        p.len() > 0,
        p[0] == '[',
    ensures
        replaced(a + b, p, t) == a + replaced(b, p, t),
    decreases a.len(),
{
    let s = a + b;
    if a.len() == 0 {
        assert(s =~= b);
        assert(a + replaced(b, p, t) =~= replaced(b, p, t));
    } else {
        let rest = a.drop_first();
        assert(plain_text(rest)) by {
            assert forall|i: int| 0 <= i < rest.len() implies rest[i] != '[' by {
                assert(rest[i] == a[i + 1]);
            }
        }
        assert(s.drop_first() =~= rest + b);
        lemma_replaced_after_plain(rest, b, p, t);
        if s.len() < p.len() {
            assert(replaced(b, p, t) == b);
        } else {
            assert(s.subrange(0, p.len() as int)[0] == a[0]);
            assert(s.subrange(0, p.len() as int) != p);
            assert(seq![a[0]] + (rest + replaced(b, p, t)) =~= a + replaced(b, p, t));
        }
    }
}

/// A placeholder followed by a text without `[`: replacing that very
/// placeholder puts the replacement in its place, replacing another one
/// changes nothing.
proof fn lemma_replaced_key_before_plain(k: Seq<char>, c: Seq<char>, p: Seq<char>, t: Seq<char>)
    requires
        is_placeholder(k),
        is_placeholder(p),
        plain_text(c),
    ensures
        replaced(k + c, p, t) == (if k == p {
            t + c
        } else {
            k + c
        }),
{
    let s = k + c;
    if k == p {
        assert(s.subrange(0, p.len() as int) =~= p);
        assert(s.subrange(p.len() as int, s.len() as int) =~= c);
        lemma_replaced_plain(c, p, t);
    } else {
        let rest = k.drop_first();
        assert(plain_text(rest + c)) by {
            assert forall|i: int| 0 <= i < (rest + c).len() implies (rest + c)[i] != '[' by {
                if i < rest.len() {
                    assert((rest + c)[i] == k[i + 1]);
                } else {
                    assert((rest + c)[i] == c[i - rest.len()]);
                }
            }
        }
        lemma_replaced_plain(rest + c, p, t);
        assert(s.drop_first() =~= rest + c);
        if s.len() >= p.len() {
            if s.subrange(0, p.len() as int) == p {
                if p.len() <= k.len() {
                    assert(s.subrange(0, p.len() as int)[p.len() - 1] == k[p.len() - 1]);
                    if p.len() < k.len() {
                        assert(k[p.len() - 1] != ']');
                    } else {
                        assert(s.subrange(0, p.len() as int) =~= k);
                    }
                } else {
                    assert(s.subrange(0, p.len() as int)[k.len() - 1] == k[k.len() - 1]);
                    assert(p[k.len() - 1] != ']');
                }
            }
            assert(s.subrange(0, p.len() as int) != p);
        }
        assert(seq![k[0]] + (rest + c) =~= s);
    }
}

/// A text whose only placeholder is one that none of the keys equals comes
/// through filling as it was.
proof fn lemma_filled_untouched(
    a: Seq<char>,
    k: Seq<char>,
    c: Seq<char>,
    pairs: Seq<(Seq<char>, Seq<char>)>,
)
    requires
        plain_text(a),
        plain_text(c),
        is_placeholder(k),
        forall|j: int| 0 <= j < pairs.len() ==> is_placeholder(#[trigger] pairs[j].0) && pairs[j].0 != k,
    ensures
        filled(a + k + c, pairs) == a + k + c,
    decreases pairs.len(),
{
    if pairs.len() > 0 {
        let pre = pairs.drop_last();
        assert forall|j: int| 0 <= j < pre.len() implies is_placeholder(#[trigger] pre[j].0) && pre[j].0 != k by {
            assert(pre[j] == pairs[j]);
        }
        lemma_filled_untouched(a, k, c, pre);
        let last = pairs.last();
        assert(is_placeholder(pairs[pairs.len() - 1].0));
        assert(a + k + c =~= a + (k + c));
        lemma_replaced_after_plain(a, k + c, last.0, last.1);
        lemma_replaced_key_before_plain(k, c, last.0, last.1);
    }
}

/// A text whose only placeholder is the key at position `idx` gets that
/// key's value in its place, when all keys are placeholders, none before it
/// is the same key, and the value holds no `[`.
proof fn lemma_filled_key(
    pairs: Seq<(Seq<char>, Seq<char>)>,
    idx: int,
    a: Seq<char>,
    c: Seq<char>,
)
    requires
        0 <= idx < pairs.len(),
        forall|j: int| 0 <= j < pairs.len() ==> is_placeholder(#[trigger] pairs[j].0),
        forall|j: int| 0 <= j < idx ==> #[trigger] pairs[j].0 != pairs[idx].0,
        plain_text(pairs[idx].1),
        plain_text(a),
        plain_text(c),
    ensures
        filled(a + pairs[idx].0 + c, pairs) == a + pairs[idx].1 + c,
    decreases pairs.len(),
{
    let pre = pairs.drop_last();
    let k = pairs[idx].0;
    let v = pairs[idx].1;
    let last = pairs.last();
    assert(is_placeholder(pairs[pairs.len() - 1].0));
    if idx < pairs.len() - 1 {
        assert forall|j: int| 0 <= j < pre.len() implies is_placeholder(#[trigger] pre[j].0) by {
            assert(pre[j] == pairs[j]);
        }
        assert forall|j: int| 0 <= j < idx implies #[trigger] pre[j].0 != pre[idx].0 by {
            assert(pre[j] == pairs[j]);
        }
        assert(pre[idx] == pairs[idx]);
        lemma_filled_key(pre, idx, a, c);
        lemma_plain_concat(a, v);
        lemma_plain_concat(a + v, c);
        lemma_replaced_plain(a + v + c, last.0, last.1);
    } else {
        assert forall|j: int| 0 <= j < pre.len() implies is_placeholder(#[trigger] pre[j].0) && pre[j].0 != k by {
            assert(pre[j] == pairs[j]);
        }
        lemma_filled_untouched(a, k, c, pre);
        assert(a + k + c =~= a + (k + c));
        lemma_replaced_after_plain(a, k + c, k, v);
        lemma_replaced_key_before_plain(k, c, k, v);
        assert(a + (v + c) =~= a + v + c);
    }
}

proof fn lemma_product_fields_entries(p: ProductPage)
    ensures
        product_fields(p).len() == 26,
        product_fields(p)[0] == ("[unique_id]"@, p.unique_id@),
        product_fields(p)[1] == ("[product_name]"@, p.product_name@),
        product_fields(p)[2] == ("[description]"@, p.description@),
        product_fields(p)[3] == ("[post_image]"@, p.post_image@),
        product_fields(p)[4] == ("[stock_quantity]"@, decimal_int(p.stock_quantity as int)),
        product_fields(p)[5] == ("[color]"@, p.color@),
        product_fields(p)[6] == ("[strap_material]"@, p.strap_material@),
        product_fields(p)[7] == ("[strap_color]"@, p.strap_color@),
        product_fields(p)[8] == ("[case_material]"@, p.case_material@),
        product_fields(p)[9] == ("[case_diameter]"@, p.case_diameter@),
        product_fields(p)[10] == ("[case_depth]"@, p.case_depth@),
        product_fields(p)[11] == ("[case_width]"@, p.case_width@),
        product_fields(p)[12] == ("[dial_glass_type]"@, p.dial_glass_type@),
        product_fields(p)[13] == ("[dial_color]"@, p.dial_color@),
        product_fields(p)[14] == ("[condition]"@, p.condition@),
        product_fields(p)[15] == ("[movement_country]"@, p.movement_country@),
        product_fields(p)[16] == ("[movement_type]"@, p.movement_type@),
        product_fields(p)[17] == ("[movement_caliber]"@, p.movement_caliber@),
        product_fields(p)[18] == ("[water_resistance]"@, p.water_resistance@),
        product_fields(p)[19] == ("[warranty_period]"@, p.warranty_period@),
        product_fields(p)[20] == ("[warranty_type]"@, p.warranty_type@),
        product_fields(p)[21] == ("[other_accessories_type]"@, p.other_accessories_type@),
        product_fields(p)[22] == ("[gender]"@, p.gender@),
        product_fields(p)[23] == ("[is_preorder]"@, p.is_preorder@),
        product_fields(p)[24] == ("[discounted_price]"@, p.discounted_price@),
        product_fields(p)[25] == ("[symbol]"@, p.symbol@),
{
}

proof fn lemma_product_fields_keys(p: ProductPage)
    ensures
        forall|j: int| 0 <= j < 26 ==> is_placeholder(#[trigger] product_fields(p)[j].0),
        forall|i: int, j: int| 0 <= i < j < 26 ==> #[trigger] product_fields(p)[i].0 != #[trigger] product_fields(p)[j].0,
{
    reveal_strlit("[unique_id]");
    reveal_strlit("[product_name]");
    reveal_strlit("[description]");
    reveal_strlit("[post_image]");
    reveal_strlit("[stock_quantity]");
    reveal_strlit("[color]");
    reveal_strlit("[strap_material]");
    reveal_strlit("[strap_color]");
    reveal_strlit("[case_material]");
    reveal_strlit("[case_diameter]");
    reveal_strlit("[case_depth]");
    reveal_strlit("[case_width]");
    reveal_strlit("[dial_glass_type]");
    reveal_strlit("[dial_color]");
    reveal_strlit("[condition]");
    reveal_strlit("[movement_country]");
    reveal_strlit("[movement_type]");
    reveal_strlit("[movement_caliber]");
    reveal_strlit("[water_resistance]");
    reveal_strlit("[warranty_period]");
    reveal_strlit("[warranty_type]");
    reveal_strlit("[other_accessories_type]");
    reveal_strlit("[gender]");
    reveal_strlit("[is_preorder]");
    reveal_strlit("[discounted_price]");
    reveal_strlit("[symbol]");
    lemma_product_fields_entries(p);
    assert(is_placeholder("[unique_id]"@));
    assert(is_placeholder("[product_name]"@));
    assert(is_placeholder("[description]"@));
    assert(is_placeholder("[post_image]"@));
    assert(is_placeholder("[stock_quantity]"@));
    assert(is_placeholder("[color]"@));
    assert(is_placeholder("[strap_material]"@));
    assert(is_placeholder("[strap_color]"@));
    assert(is_placeholder("[case_material]"@));
    assert(is_placeholder("[case_diameter]"@));
    assert(is_placeholder("[case_depth]"@));
    assert(is_placeholder("[case_width]"@));
    assert(is_placeholder("[dial_glass_type]"@));
    assert(is_placeholder("[dial_color]"@));
    assert(is_placeholder("[condition]"@));
    assert(is_placeholder("[movement_country]"@));
    assert(is_placeholder("[movement_type]"@));
    assert(is_placeholder("[movement_caliber]"@));
    assert(is_placeholder("[water_resistance]"@));
    assert(is_placeholder("[warranty_period]"@));
    assert(is_placeholder("[warranty_type]"@));
    assert(is_placeholder("[other_accessories_type]"@));
    assert(is_placeholder("[gender]"@));
    assert(is_placeholder("[is_preorder]"@));
    assert(is_placeholder("[discounted_price]"@));
    assert(is_placeholder("[symbol]"@));
    assert("[unique_id]"@.len() != "[product_name]"@.len());
    assert("[unique_id]"@ != "[product_name]"@);
    assert("[unique_id]"@.len() != "[description]"@.len());
    assert("[unique_id]"@ != "[description]"@);
    assert("[unique_id]"@.len() != "[post_image]"@.len());
    assert("[unique_id]"@ != "[post_image]"@);
    assert("[unique_id]"@.len() != "[stock_quantity]"@.len());
    assert("[unique_id]"@ != "[stock_quantity]"@);
    assert("[unique_id]"@.len() != "[color]"@.len());
    assert("[unique_id]"@ != "[color]"@);
    assert("[unique_id]"@.len() != "[strap_material]"@.len());
    assert("[unique_id]"@ != "[strap_material]"@);
    assert("[unique_id]"@.len() != "[strap_color]"@.len());
    assert("[unique_id]"@ != "[strap_color]"@);
    assert("[unique_id]"@.len() != "[case_material]"@.len());
    assert("[unique_id]"@ != "[case_material]"@);
    assert("[unique_id]"@.len() != "[case_diameter]"@.len());
    assert("[unique_id]"@ != "[case_diameter]"@);
    assert("[unique_id]"@.len() != "[case_depth]"@.len());
    assert("[unique_id]"@ != "[case_depth]"@);
    assert("[unique_id]"@.len() != "[case_width]"@.len());
    assert("[unique_id]"@ != "[case_width]"@);
    assert("[unique_id]"@.len() != "[dial_glass_type]"@.len());
    assert("[unique_id]"@ != "[dial_glass_type]"@);
    assert("[unique_id]"@.len() != "[dial_color]"@.len());
    assert("[unique_id]"@ != "[dial_color]"@);
    assert("[unique_id]"@[1] != "[condition]"@[1]);
    assert("[unique_id]"@ != "[condition]"@);
    assert("[unique_id]"@.len() != "[movement_country]"@.len());
    assert("[unique_id]"@ != "[movement_country]"@);
    assert("[unique_id]"@.len() != "[movement_type]"@.len());
    assert("[unique_id]"@ != "[movement_type]"@);
    assert("[unique_id]"@.len() != "[movement_caliber]"@.len());
    assert("[unique_id]"@ != "[movement_caliber]"@);
    assert("[unique_id]"@.len() != "[water_resistance]"@.len());
    assert("[unique_id]"@ != "[water_resistance]"@);
    assert("[unique_id]"@.len() != "[warranty_period]"@.len());
    assert("[unique_id]"@ != "[warranty_period]"@);
    assert("[unique_id]"@.len() != "[warranty_type]"@.len());
    assert("[unique_id]"@ != "[warranty_type]"@);
    assert("[unique_id]"@.len() != "[other_accessories_type]"@.len());
    assert("[unique_id]"@ != "[other_accessories_type]"@);
    assert("[unique_id]"@.len() != "[gender]"@.len());
    assert("[unique_id]"@ != "[gender]"@);
    assert("[unique_id]"@.len() != "[is_preorder]"@.len());
    assert("[unique_id]"@ != "[is_preorder]"@);
    assert("[unique_id]"@.len() != "[discounted_price]"@.len());
    assert("[unique_id]"@ != "[discounted_price]"@);
    assert("[unique_id]"@.len() != "[symbol]"@.len());
    assert("[unique_id]"@ != "[symbol]"@);
    assert("[product_name]"@.len() != "[description]"@.len());
    assert("[product_name]"@ != "[description]"@);
    assert("[product_name]"@.len() != "[post_image]"@.len());
    assert("[product_name]"@ != "[post_image]"@);
    assert("[product_name]"@.len() != "[stock_quantity]"@.len());
    assert("[product_name]"@ != "[stock_quantity]"@);
    assert("[product_name]"@.len() != "[color]"@.len());
    assert("[product_name]"@ != "[color]"@);
    assert("[product_name]"@.len() != "[strap_material]"@.len());
    assert("[product_name]"@ != "[strap_material]"@);
    assert("[product_name]"@.len() != "[strap_color]"@.len());
    assert("[product_name]"@ != "[strap_color]"@);
    assert("[product_name]"@.len() != "[case_material]"@.len());
    assert("[product_name]"@ != "[case_material]"@);
    assert("[product_name]"@.len() != "[case_diameter]"@.len());
    assert("[product_name]"@ != "[case_diameter]"@);
    assert("[product_name]"@.len() != "[case_depth]"@.len());
    assert("[product_name]"@ != "[case_depth]"@);
    assert("[product_name]"@.len() != "[case_width]"@.len());
    assert("[product_name]"@ != "[case_width]"@);
    assert("[product_name]"@.len() != "[dial_glass_type]"@.len());
    assert("[product_name]"@ != "[dial_glass_type]"@);
    assert("[product_name]"@.len() != "[dial_color]"@.len());
    assert("[product_name]"@ != "[dial_color]"@);
    assert("[product_name]"@.len() != "[condition]"@.len());
    assert("[product_name]"@ != "[condition]"@);
    assert("[product_name]"@.len() != "[movement_country]"@.len());
    assert("[product_name]"@ != "[movement_country]"@);
    assert("[product_name]"@.len() != "[movement_type]"@.len());
    assert("[product_name]"@ != "[movement_type]"@);
    assert("[product_name]"@.len() != "[movement_caliber]"@.len());
    assert("[product_name]"@ != "[movement_caliber]"@);
    assert("[product_name]"@.len() != "[water_resistance]"@.len());
    assert("[product_name]"@ != "[water_resistance]"@);
    assert("[product_name]"@.len() != "[warranty_period]"@.len());
    assert("[product_name]"@ != "[warranty_period]"@);
    assert("[product_name]"@.len() != "[warranty_type]"@.len());
    assert("[product_name]"@ != "[warranty_type]"@);
    assert("[product_name]"@.len() != "[other_accessories_type]"@.len());
    assert("[product_name]"@ != "[other_accessories_type]"@);
    assert("[product_name]"@.len() != "[gender]"@.len());
    assert("[product_name]"@ != "[gender]"@);
    assert("[product_name]"@.len() != "[is_preorder]"@.len());
    assert("[product_name]"@ != "[is_preorder]"@);
    assert("[product_name]"@.len() != "[discounted_price]"@.len());
    assert("[product_name]"@ != "[discounted_price]"@);
    assert("[product_name]"@.len() != "[symbol]"@.len());
    assert("[product_name]"@ != "[symbol]"@);
    assert("[description]"@.len() != "[post_image]"@.len());
    assert("[description]"@ != "[post_image]"@);
    assert("[description]"@.len() != "[stock_quantity]"@.len());
    assert("[description]"@ != "[stock_quantity]"@);
    assert("[description]"@.len() != "[color]"@.len());
    assert("[description]"@ != "[color]"@);
    assert("[description]"@.len() != "[strap_material]"@.len());
    assert("[description]"@ != "[strap_material]"@);
    assert("[description]"@[1] != "[strap_color]"@[1]);
    assert("[description]"@ != "[strap_color]"@);
    assert("[description]"@.len() != "[case_material]"@.len());
    assert("[description]"@ != "[case_material]"@);
    assert("[description]"@.len() != "[case_diameter]"@.len());
    assert("[description]"@ != "[case_diameter]"@);
    assert("[description]"@.len() != "[case_depth]"@.len());
    assert("[description]"@ != "[case_depth]"@);
    assert("[description]"@.len() != "[case_width]"@.len());
    assert("[description]"@ != "[case_width]"@);
    assert("[description]"@.len() != "[dial_glass_type]"@.len());
    assert("[description]"@ != "[dial_glass_type]"@);
    assert("[description]"@.len() != "[dial_color]"@.len());
    assert("[description]"@ != "[dial_color]"@);
    assert("[description]"@.len() != "[condition]"@.len());
    assert("[description]"@ != "[condition]"@);
    assert("[description]"@.len() != "[movement_country]"@.len());
    assert("[description]"@ != "[movement_country]"@);
    assert("[description]"@.len() != "[movement_type]"@.len());
    assert("[description]"@ != "[movement_type]"@);
    assert("[description]"@.len() != "[movement_caliber]"@.len());
    assert("[description]"@ != "[movement_caliber]"@);
    assert("[description]"@.len() != "[water_resistance]"@.len());
    assert("[description]"@ != "[water_resistance]"@);
    assert("[description]"@.len() != "[warranty_period]"@.len());
    assert("[description]"@ != "[warranty_period]"@);
    assert("[description]"@.len() != "[warranty_type]"@.len());
    assert("[description]"@ != "[warranty_type]"@);
    assert("[description]"@.len() != "[other_accessories_type]"@.len());
    assert("[description]"@ != "[other_accessories_type]"@);
    assert("[description]"@.len() != "[gender]"@.len());
    assert("[description]"@ != "[gender]"@);
    assert("[description]"@[1] != "[is_preorder]"@[1]);
    assert("[description]"@ != "[is_preorder]"@);
    assert("[description]"@.len() != "[discounted_price]"@.len());
    assert("[description]"@ != "[discounted_price]"@);
    assert("[description]"@.len() != "[symbol]"@.len());
    assert("[description]"@ != "[symbol]"@);
    assert("[post_image]"@.len() != "[stock_quantity]"@.len());
    assert("[post_image]"@ != "[stock_quantity]"@);
    assert("[post_image]"@.len() != "[color]"@.len());
    assert("[post_image]"@ != "[color]"@);
    assert("[post_image]"@.len() != "[strap_material]"@.len());
    assert("[post_image]"@ != "[strap_material]"@);
    assert("[post_image]"@.len() != "[strap_color]"@.len());
    assert("[post_image]"@ != "[strap_color]"@);
    assert("[post_image]"@.len() != "[case_material]"@.len());
    assert("[post_image]"@ != "[case_material]"@);
    assert("[post_image]"@.len() != "[case_diameter]"@.len());
    assert("[post_image]"@ != "[case_diameter]"@);
    assert("[post_image]"@[1] != "[case_depth]"@[1]);
    assert("[post_image]"@ != "[case_depth]"@);
    assert("[post_image]"@[1] != "[case_width]"@[1]);
    assert("[post_image]"@ != "[case_width]"@);
    assert("[post_image]"@.len() != "[dial_glass_type]"@.len());
    assert("[post_image]"@ != "[dial_glass_type]"@);
    assert("[post_image]"@[1] != "[dial_color]"@[1]);
    assert("[post_image]"@ != "[dial_color]"@);
    assert("[post_image]"@.len() != "[condition]"@.len());
    assert("[post_image]"@ != "[condition]"@);
    assert("[post_image]"@.len() != "[movement_country]"@.len());
    assert("[post_image]"@ != "[movement_country]"@);
    assert("[post_image]"@.len() != "[movement_type]"@.len());
    assert("[post_image]"@ != "[movement_type]"@);
    assert("[post_image]"@.len() != "[movement_caliber]"@.len());
    assert("[post_image]"@ != "[movement_caliber]"@);
    assert("[post_image]"@.len() != "[water_resistance]"@.len());
    assert("[post_image]"@ != "[water_resistance]"@);
    assert("[post_image]"@.len() != "[warranty_period]"@.len());
    assert("[post_image]"@ != "[warranty_period]"@);
    assert("[post_image]"@.len() != "[warranty_type]"@.len());
    assert("[post_image]"@ != "[warranty_type]"@);
    assert("[post_image]"@.len() != "[other_accessories_type]"@.len());
    assert("[post_image]"@ != "[other_accessories_type]"@);
    assert("[post_image]"@.len() != "[gender]"@.len());
    assert("[post_image]"@ != "[gender]"@);
    assert("[post_image]"@.len() != "[is_preorder]"@.len());
    assert("[post_image]"@ != "[is_preorder]"@);
    assert("[post_image]"@.len() != "[discounted_price]"@.len());
    assert("[post_image]"@ != "[discounted_price]"@);
    assert("[post_image]"@.len() != "[symbol]"@.len());
    assert("[post_image]"@ != "[symbol]"@);
    assert("[stock_quantity]"@.len() != "[color]"@.len());
    assert("[stock_quantity]"@ != "[color]"@);
    assert("[stock_quantity]"@[3] != "[strap_material]"@[3]);
    assert("[stock_quantity]"@ != "[strap_material]"@);
    assert("[stock_quantity]"@.len() != "[strap_color]"@.len());
    assert("[stock_quantity]"@ != "[strap_color]"@);
    assert("[stock_quantity]"@.len() != "[case_material]"@.len());
    assert("[stock_quantity]"@ != "[case_material]"@);
    assert("[stock_quantity]"@.len() != "[case_diameter]"@.len());
    assert("[stock_quantity]"@ != "[case_diameter]"@);
    assert("[stock_quantity]"@.len() != "[case_depth]"@.len());
    assert("[stock_quantity]"@ != "[case_depth]"@);
    assert("[stock_quantity]"@.len() != "[case_width]"@.len());
    assert("[stock_quantity]"@ != "[case_width]"@);
    assert("[stock_quantity]"@.len() != "[dial_glass_type]"@.len());
    assert("[stock_quantity]"@ != "[dial_glass_type]"@);
    assert("[stock_quantity]"@.len() != "[dial_color]"@.len());
    assert("[stock_quantity]"@ != "[dial_color]"@);
    assert("[stock_quantity]"@.len() != "[condition]"@.len());
    assert("[stock_quantity]"@ != "[condition]"@);
    assert("[stock_quantity]"@.len() != "[movement_country]"@.len());
    assert("[stock_quantity]"@ != "[movement_country]"@);
    assert("[stock_quantity]"@.len() != "[movement_type]"@.len());
    assert("[stock_quantity]"@ != "[movement_type]"@);
    assert("[stock_quantity]"@.len() != "[movement_caliber]"@.len());
    assert("[stock_quantity]"@ != "[movement_caliber]"@);
    assert("[stock_quantity]"@.len() != "[water_resistance]"@.len());
    assert("[stock_quantity]"@ != "[water_resistance]"@);
    assert("[stock_quantity]"@.len() != "[warranty_period]"@.len());
    assert("[stock_quantity]"@ != "[warranty_period]"@);
    assert("[stock_quantity]"@.len() != "[warranty_type]"@.len());
    assert("[stock_quantity]"@ != "[warranty_type]"@);
    assert("[stock_quantity]"@.len() != "[other_accessories_type]"@.len());
    assert("[stock_quantity]"@ != "[other_accessories_type]"@);
    assert("[stock_quantity]"@.len() != "[gender]"@.len());
    assert("[stock_quantity]"@ != "[gender]"@);
    assert("[stock_quantity]"@.len() != "[is_preorder]"@.len());
    assert("[stock_quantity]"@ != "[is_preorder]"@);
    assert("[stock_quantity]"@.len() != "[discounted_price]"@.len());
    assert("[stock_quantity]"@ != "[discounted_price]"@);
    assert("[stock_quantity]"@.len() != "[symbol]"@.len());
    assert("[stock_quantity]"@ != "[symbol]"@);
    assert("[color]"@.len() != "[strap_material]"@.len());
    assert("[color]"@ != "[strap_material]"@);
    assert("[color]"@.len() != "[strap_color]"@.len());
    assert("[color]"@ != "[strap_color]"@);
    assert("[color]"@.len() != "[case_material]"@.len());
    assert("[color]"@ != "[case_material]"@);
    assert("[color]"@.len() != "[case_diameter]"@.len());
    assert("[color]"@ != "[case_diameter]"@);
    assert("[color]"@.len() != "[case_depth]"@.len());
    assert("[color]"@ != "[case_depth]"@);
    assert("[color]"@.len() != "[case_width]"@.len());
    assert("[color]"@ != "[case_width]"@);
    assert("[color]"@.len() != "[dial_glass_type]"@.len());
    assert("[color]"@ != "[dial_glass_type]"@);
    assert("[color]"@.len() != "[dial_color]"@.len());
    assert("[color]"@ != "[dial_color]"@);
    assert("[color]"@.len() != "[condition]"@.len());
    assert("[color]"@ != "[condition]"@);
    assert("[color]"@.len() != "[movement_country]"@.len());
    assert("[color]"@ != "[movement_country]"@);
    assert("[color]"@.len() != "[movement_type]"@.len());
    assert("[color]"@ != "[movement_type]"@);
    assert("[color]"@.len() != "[movement_caliber]"@.len());
    assert("[color]"@ != "[movement_caliber]"@);
    assert("[color]"@.len() != "[water_resistance]"@.len());
    assert("[color]"@ != "[water_resistance]"@);
    assert("[color]"@.len() != "[warranty_period]"@.len());
    assert("[color]"@ != "[warranty_period]"@);
    assert("[color]"@.len() != "[warranty_type]"@.len());
    assert("[color]"@ != "[warranty_type]"@);
    assert("[color]"@.len() != "[other_accessories_type]"@.len());
    assert("[color]"@ != "[other_accessories_type]"@);
    assert("[color]"@.len() != "[gender]"@.len());
    assert("[color]"@ != "[gender]"@);
    assert("[color]"@.len() != "[is_preorder]"@.len());
    assert("[color]"@ != "[is_preorder]"@);
    assert("[color]"@.len() != "[discounted_price]"@.len());
    assert("[color]"@ != "[discounted_price]"@);
    assert("[color]"@.len() != "[symbol]"@.len());
    assert("[color]"@ != "[symbol]"@);
    assert("[strap_material]"@.len() != "[strap_color]"@.len());
    assert("[strap_material]"@ != "[strap_color]"@);
    assert("[strap_material]"@.len() != "[case_material]"@.len());
    assert("[strap_material]"@ != "[case_material]"@);
    assert("[strap_material]"@.len() != "[case_diameter]"@.len());
    assert("[strap_material]"@ != "[case_diameter]"@);
    assert("[strap_material]"@.len() != "[case_depth]"@.len());
    assert("[strap_material]"@ != "[case_depth]"@);
    assert("[strap_material]"@.len() != "[case_width]"@.len());
    assert("[strap_material]"@ != "[case_width]"@);
    assert("[strap_material]"@.len() != "[dial_glass_type]"@.len());
    assert("[strap_material]"@ != "[dial_glass_type]"@);
    assert("[strap_material]"@.len() != "[dial_color]"@.len());
    assert("[strap_material]"@ != "[dial_color]"@);
    assert("[strap_material]"@.len() != "[condition]"@.len());
    assert("[strap_material]"@ != "[condition]"@);
    assert("[strap_material]"@.len() != "[movement_country]"@.len());
    assert("[strap_material]"@ != "[movement_country]"@);
    assert("[strap_material]"@.len() != "[movement_type]"@.len());
    assert("[strap_material]"@ != "[movement_type]"@);
    assert("[strap_material]"@.len() != "[movement_caliber]"@.len());
    assert("[strap_material]"@ != "[movement_caliber]"@);
    assert("[strap_material]"@.len() != "[water_resistance]"@.len());
    assert("[strap_material]"@ != "[water_resistance]"@);
    assert("[strap_material]"@.len() != "[warranty_period]"@.len());
    assert("[strap_material]"@ != "[warranty_period]"@);
    assert("[strap_material]"@.len() != "[warranty_type]"@.len());
    assert("[strap_material]"@ != "[warranty_type]"@);
    assert("[strap_material]"@.len() != "[other_accessories_type]"@.len());
    assert("[strap_material]"@ != "[other_accessories_type]"@);
    assert("[strap_material]"@.len() != "[gender]"@.len());
    assert("[strap_material]"@ != "[gender]"@);
    assert("[strap_material]"@.len() != "[is_preorder]"@.len());
    assert("[strap_material]"@ != "[is_preorder]"@);
    assert("[strap_material]"@.len() != "[discounted_price]"@.len());
    assert("[strap_material]"@ != "[discounted_price]"@);
    assert("[strap_material]"@.len() != "[symbol]"@.len());
    assert("[strap_material]"@ != "[symbol]"@);
    assert("[strap_color]"@.len() != "[case_material]"@.len());
    assert("[strap_color]"@ != "[case_material]"@);
    assert("[strap_color]"@.len() != "[case_diameter]"@.len());
    assert("[strap_color]"@ != "[case_diameter]"@);
    assert("[strap_color]"@.len() != "[case_depth]"@.len());
    assert("[strap_color]"@ != "[case_depth]"@);
    assert("[strap_color]"@.len() != "[case_width]"@.len());
    assert("[strap_color]"@ != "[case_width]"@);
    assert("[strap_color]"@.len() != "[dial_glass_type]"@.len());
    assert("[strap_color]"@ != "[dial_glass_type]"@);
    assert("[strap_color]"@.len() != "[dial_color]"@.len());
    assert("[strap_color]"@ != "[dial_color]"@);
    assert("[strap_color]"@.len() != "[condition]"@.len());
    assert("[strap_color]"@ != "[condition]"@);
    assert("[strap_color]"@.len() != "[movement_country]"@.len());
    assert("[strap_color]"@ != "[movement_country]"@);
    assert("[strap_color]"@.len() != "[movement_type]"@.len());
    assert("[strap_color]"@ != "[movement_type]"@);
    assert("[strap_color]"@.len() != "[movement_caliber]"@.len());
    assert("[strap_color]"@ != "[movement_caliber]"@);
    assert("[strap_color]"@.len() != "[water_resistance]"@.len());
    assert("[strap_color]"@ != "[water_resistance]"@);
    assert("[strap_color]"@.len() != "[warranty_period]"@.len());
    assert("[strap_color]"@ != "[warranty_period]"@);
    assert("[strap_color]"@.len() != "[warranty_type]"@.len());
    assert("[strap_color]"@ != "[warranty_type]"@);
    assert("[strap_color]"@.len() != "[other_accessories_type]"@.len());
    assert("[strap_color]"@ != "[other_accessories_type]"@);
    assert("[strap_color]"@.len() != "[gender]"@.len());
    assert("[strap_color]"@ != "[gender]"@);
    assert("[strap_color]"@[1] != "[is_preorder]"@[1]);
    assert("[strap_color]"@ != "[is_preorder]"@);
    assert("[strap_color]"@.len() != "[discounted_price]"@.len());
    assert("[strap_color]"@ != "[discounted_price]"@);
    assert("[strap_color]"@.len() != "[symbol]"@.len());
    assert("[strap_color]"@ != "[symbol]"@);
    assert("[case_material]"@[6] != "[case_diameter]"@[6]);
    assert("[case_material]"@ != "[case_diameter]"@);
    assert("[case_material]"@.len() != "[case_depth]"@.len());
    assert("[case_material]"@ != "[case_depth]"@);
    assert("[case_material]"@.len() != "[case_width]"@.len());
    assert("[case_material]"@ != "[case_width]"@);
    assert("[case_material]"@.len() != "[dial_glass_type]"@.len());
    assert("[case_material]"@ != "[dial_glass_type]"@);
    assert("[case_material]"@.len() != "[dial_color]"@.len());
    assert("[case_material]"@ != "[dial_color]"@);
    assert("[case_material]"@.len() != "[condition]"@.len());
    assert("[case_material]"@ != "[condition]"@);
    assert("[case_material]"@.len() != "[movement_country]"@.len());
    assert("[case_material]"@ != "[movement_country]"@);
    assert("[case_material]"@[1] != "[movement_type]"@[1]);
    assert("[case_material]"@ != "[movement_type]"@);
    assert("[case_material]"@.len() != "[movement_caliber]"@.len());
    assert("[case_material]"@ != "[movement_caliber]"@);
    assert("[case_material]"@.len() != "[water_resistance]"@.len());
    assert("[case_material]"@ != "[water_resistance]"@);
    assert("[case_material]"@.len() != "[warranty_period]"@.len());
    assert("[case_material]"@ != "[warranty_period]"@);
    assert("[case_material]"@[1] != "[warranty_type]"@[1]);
    assert("[case_material]"@ != "[warranty_type]"@);
    assert("[case_material]"@.len() != "[other_accessories_type]"@.len());
    assert("[case_material]"@ != "[other_accessories_type]"@);
    assert("[case_material]"@.len() != "[gender]"@.len());
    assert("[case_material]"@ != "[gender]"@);
    assert("[case_material]"@.len() != "[is_preorder]"@.len());
    assert("[case_material]"@ != "[is_preorder]"@);
    assert("[case_material]"@.len() != "[discounted_price]"@.len());
    assert("[case_material]"@ != "[discounted_price]"@);
    assert("[case_material]"@.len() != "[symbol]"@.len());
    assert("[case_material]"@ != "[symbol]"@);
    assert("[case_diameter]"@.len() != "[case_depth]"@.len());
    assert("[case_diameter]"@ != "[case_depth]"@);
    assert("[case_diameter]"@.len() != "[case_width]"@.len());
    assert("[case_diameter]"@ != "[case_width]"@);
    assert("[case_diameter]"@.len() != "[dial_glass_type]"@.len());
    assert("[case_diameter]"@ != "[dial_glass_type]"@);
    assert("[case_diameter]"@.len() != "[dial_color]"@.len());
    assert("[case_diameter]"@ != "[dial_color]"@);
    assert("[case_diameter]"@.len() != "[condition]"@.len());
    assert("[case_diameter]"@ != "[condition]"@);
    assert("[case_diameter]"@.len() != "[movement_country]"@.len());
    assert("[case_diameter]"@ != "[movement_country]"@);
    assert("[case_diameter]"@[1] != "[movement_type]"@[1]);
    assert("[case_diameter]"@ != "[movement_type]"@);
    assert("[case_diameter]"@.len() != "[movement_caliber]"@.len());
    assert("[case_diameter]"@ != "[movement_caliber]"@);
    assert("[case_diameter]"@.len() != "[water_resistance]"@.len());
    assert("[case_diameter]"@ != "[water_resistance]"@);
    assert("[case_diameter]"@.len() != "[warranty_period]"@.len());
    assert("[case_diameter]"@ != "[warranty_period]"@);
    assert("[case_diameter]"@[1] != "[warranty_type]"@[1]);
    assert("[case_diameter]"@ != "[warranty_type]"@);
    assert("[case_diameter]"@.len() != "[other_accessories_type]"@.len());
    assert("[case_diameter]"@ != "[other_accessories_type]"@);
    assert("[case_diameter]"@.len() != "[gender]"@.len());
    assert("[case_diameter]"@ != "[gender]"@);
    assert("[case_diameter]"@.len() != "[is_preorder]"@.len());
    assert("[case_diameter]"@ != "[is_preorder]"@);
    assert("[case_diameter]"@.len() != "[discounted_price]"@.len());
    assert("[case_diameter]"@ != "[discounted_price]"@);
    assert("[case_diameter]"@.len() != "[symbol]"@.len());
    assert("[case_diameter]"@ != "[symbol]"@);
    assert("[case_depth]"@[6] != "[case_width]"@[6]);
    assert("[case_depth]"@ != "[case_width]"@);
    assert("[case_depth]"@.len() != "[dial_glass_type]"@.len());
    assert("[case_depth]"@ != "[dial_glass_type]"@);
    assert("[case_depth]"@[1] != "[dial_color]"@[1]);
    assert("[case_depth]"@ != "[dial_color]"@);
    assert("[case_depth]"@.len() != "[condition]"@.len());
    assert("[case_depth]"@ != "[condition]"@);
    assert("[case_depth]"@.len() != "[movement_country]"@.len());
    assert("[case_depth]"@ != "[movement_country]"@);
    assert("[case_depth]"@.len() != "[movement_type]"@.len());
    assert("[case_depth]"@ != "[movement_type]"@);
    assert("[case_depth]"@.len() != "[movement_caliber]"@.len());
    assert("[case_depth]"@ != "[movement_caliber]"@);
    assert("[case_depth]"@.len() != "[water_resistance]"@.len());
    assert("[case_depth]"@ != "[water_resistance]"@);
    assert("[case_depth]"@.len() != "[warranty_period]"@.len());
    assert("[case_depth]"@ != "[warranty_period]"@);
    assert("[case_depth]"@.len() != "[warranty_type]"@.len());
    assert("[case_depth]"@ != "[warranty_type]"@);
    assert("[case_depth]"@.len() != "[other_accessories_type]"@.len());
    assert("[case_depth]"@ != "[other_accessories_type]"@);
    assert("[case_depth]"@.len() != "[gender]"@.len());
    assert("[case_depth]"@ != "[gender]"@);
    assert("[case_depth]"@.len() != "[is_preorder]"@.len());
    assert("[case_depth]"@ != "[is_preorder]"@);
    assert("[case_depth]"@.len() != "[discounted_price]"@.len());
    assert("[case_depth]"@ != "[discounted_price]"@);
    assert("[case_depth]"@.len() != "[symbol]"@.len());
    assert("[case_depth]"@ != "[symbol]"@);
    assert("[case_width]"@.len() != "[dial_glass_type]"@.len());
    assert("[case_width]"@ != "[dial_glass_type]"@);
    assert("[case_width]"@[1] != "[dial_color]"@[1]);
    assert("[case_width]"@ != "[dial_color]"@);
    assert("[case_width]"@.len() != "[condition]"@.len());
    assert("[case_width]"@ != "[condition]"@);
    assert("[case_width]"@.len() != "[movement_country]"@.len());
    assert("[case_width]"@ != "[movement_country]"@);
    assert("[case_width]"@.len() != "[movement_type]"@.len());
    assert("[case_width]"@ != "[movement_type]"@);
    assert("[case_width]"@.len() != "[movement_caliber]"@.len());
    assert("[case_width]"@ != "[movement_caliber]"@);
    assert("[case_width]"@.len() != "[water_resistance]"@.len());
    assert("[case_width]"@ != "[water_resistance]"@);
    assert("[case_width]"@.len() != "[warranty_period]"@.len());
    assert("[case_width]"@ != "[warranty_period]"@);
    assert("[case_width]"@.len() != "[warranty_type]"@.len());
    assert("[case_width]"@ != "[warranty_type]"@);
    assert("[case_width]"@.len() != "[other_accessories_type]"@.len());
    assert("[case_width]"@ != "[other_accessories_type]"@);
    assert("[case_width]"@.len() != "[gender]"@.len());
    assert("[case_width]"@ != "[gender]"@);
    assert("[case_width]"@.len() != "[is_preorder]"@.len());
    assert("[case_width]"@ != "[is_preorder]"@);
    assert("[case_width]"@.len() != "[discounted_price]"@.len());
    assert("[case_width]"@ != "[discounted_price]"@);
    assert("[case_width]"@.len() != "[symbol]"@.len());
    assert("[case_width]"@ != "[symbol]"@);
    assert("[dial_glass_type]"@.len() != "[dial_color]"@.len());
    assert("[dial_glass_type]"@ != "[dial_color]"@);
    assert("[dial_glass_type]"@.len() != "[condition]"@.len());
    assert("[dial_glass_type]"@ != "[condition]"@);
    assert("[dial_glass_type]"@.len() != "[movement_country]"@.len());
    assert("[dial_glass_type]"@ != "[movement_country]"@);
    assert("[dial_glass_type]"@.len() != "[movement_type]"@.len());
    assert("[dial_glass_type]"@ != "[movement_type]"@);
    assert("[dial_glass_type]"@.len() != "[movement_caliber]"@.len());
    assert("[dial_glass_type]"@ != "[movement_caliber]"@);
    assert("[dial_glass_type]"@.len() != "[water_resistance]"@.len());
    assert("[dial_glass_type]"@ != "[water_resistance]"@);
    assert("[dial_glass_type]"@[1] != "[warranty_period]"@[1]);
    assert("[dial_glass_type]"@ != "[warranty_period]"@);
    assert("[dial_glass_type]"@.len() != "[warranty_type]"@.len());
    assert("[dial_glass_type]"@ != "[warranty_type]"@);
    assert("[dial_glass_type]"@.len() != "[other_accessories_type]"@.len());
    assert("[dial_glass_type]"@ != "[other_accessories_type]"@);
    assert("[dial_glass_type]"@.len() != "[gender]"@.len());
    assert("[dial_glass_type]"@ != "[gender]"@);
    assert("[dial_glass_type]"@.len() != "[is_preorder]"@.len());
    assert("[dial_glass_type]"@ != "[is_preorder]"@);
    assert("[dial_glass_type]"@.len() != "[discounted_price]"@.len());
    assert("[dial_glass_type]"@ != "[discounted_price]"@);
    assert("[dial_glass_type]"@.len() != "[symbol]"@.len());
    assert("[dial_glass_type]"@ != "[symbol]"@);
    assert("[dial_color]"@.len() != "[condition]"@.len());
    assert("[dial_color]"@ != "[condition]"@);
    assert("[dial_color]"@.len() != "[movement_country]"@.len());
    assert("[dial_color]"@ != "[movement_country]"@);
    assert("[dial_color]"@.len() != "[movement_type]"@.len());
    assert("[dial_color]"@ != "[movement_type]"@);
    assert("[dial_color]"@.len() != "[movement_caliber]"@.len());
    assert("[dial_color]"@ != "[movement_caliber]"@);
    assert("[dial_color]"@.len() != "[water_resistance]"@.len());
    assert("[dial_color]"@ != "[water_resistance]"@);
    assert("[dial_color]"@.len() != "[warranty_period]"@.len());
    assert("[dial_color]"@ != "[warranty_period]"@);
    assert("[dial_color]"@.len() != "[warranty_type]"@.len());
    assert("[dial_color]"@ != "[warranty_type]"@);
    assert("[dial_color]"@.len() != "[other_accessories_type]"@.len());
    assert("[dial_color]"@ != "[other_accessories_type]"@);
    assert("[dial_color]"@.len() != "[gender]"@.len());
    assert("[dial_color]"@ != "[gender]"@);
    assert("[dial_color]"@.len() != "[is_preorder]"@.len());
    assert("[dial_color]"@ != "[is_preorder]"@);
    assert("[dial_color]"@.len() != "[discounted_price]"@.len());
    assert("[dial_color]"@ != "[discounted_price]"@);
    assert("[dial_color]"@.len() != "[symbol]"@.len());
    assert("[dial_color]"@ != "[symbol]"@);
    assert("[condition]"@.len() != "[movement_country]"@.len());
    assert("[condition]"@ != "[movement_country]"@);
    assert("[condition]"@.len() != "[movement_type]"@.len());
    assert("[condition]"@ != "[movement_type]"@);
    assert("[condition]"@.len() != "[movement_caliber]"@.len());
    assert("[condition]"@ != "[movement_caliber]"@);
    assert("[condition]"@.len() != "[water_resistance]"@.len());
    assert("[condition]"@ != "[water_resistance]"@);
    assert("[condition]"@.len() != "[warranty_period]"@.len());
    assert("[condition]"@ != "[warranty_period]"@);
    assert("[condition]"@.len() != "[warranty_type]"@.len());
    assert("[condition]"@ != "[warranty_type]"@);
    assert("[condition]"@.len() != "[other_accessories_type]"@.len());
    assert("[condition]"@ != "[other_accessories_type]"@);
    assert("[condition]"@.len() != "[gender]"@.len());
    assert("[condition]"@ != "[gender]"@);
    assert("[condition]"@.len() != "[is_preorder]"@.len());
    assert("[condition]"@ != "[is_preorder]"@);
    assert("[condition]"@.len() != "[discounted_price]"@.len());
    assert("[condition]"@ != "[discounted_price]"@);
    assert("[condition]"@.len() != "[symbol]"@.len());
    assert("[condition]"@ != "[symbol]"@);
    assert("[movement_country]"@.len() != "[movement_type]"@.len());
    assert("[movement_country]"@ != "[movement_type]"@);
    assert("[movement_country]"@[11] != "[movement_caliber]"@[11]);
    assert("[movement_country]"@ != "[movement_caliber]"@);
    assert("[movement_country]"@[1] != "[water_resistance]"@[1]);
    assert("[movement_country]"@ != "[water_resistance]"@);
    assert("[movement_country]"@.len() != "[warranty_period]"@.len());
    assert("[movement_country]"@ != "[warranty_period]"@);
    assert("[movement_country]"@.len() != "[warranty_type]"@.len());
    assert("[movement_country]"@ != "[warranty_type]"@);
    assert("[movement_country]"@.len() != "[other_accessories_type]"@.len());
    assert("[movement_country]"@ != "[other_accessories_type]"@);
    assert("[movement_country]"@.len() != "[gender]"@.len());
    assert("[movement_country]"@ != "[gender]"@);
    assert("[movement_country]"@.len() != "[is_preorder]"@.len());
    assert("[movement_country]"@ != "[is_preorder]"@);
    assert("[movement_country]"@[1] != "[discounted_price]"@[1]);
    assert("[movement_country]"@ != "[discounted_price]"@);
    assert("[movement_country]"@.len() != "[symbol]"@.len());
    assert("[movement_country]"@ != "[symbol]"@);
    assert("[movement_type]"@.len() != "[movement_caliber]"@.len());
    assert("[movement_type]"@ != "[movement_caliber]"@);
    assert("[movement_type]"@.len() != "[water_resistance]"@.len());
    assert("[movement_type]"@ != "[water_resistance]"@);
    assert("[movement_type]"@.len() != "[warranty_period]"@.len());
    assert("[movement_type]"@ != "[warranty_period]"@);
    assert("[movement_type]"@[1] != "[warranty_type]"@[1]);
    assert("[movement_type]"@ != "[warranty_type]"@);
    assert("[movement_type]"@.len() != "[other_accessories_type]"@.len());
    assert("[movement_type]"@ != "[other_accessories_type]"@);
    assert("[movement_type]"@.len() != "[gender]"@.len());
    assert("[movement_type]"@ != "[gender]"@);
    assert("[movement_type]"@.len() != "[is_preorder]"@.len());
    assert("[movement_type]"@ != "[is_preorder]"@);
    assert("[movement_type]"@.len() != "[discounted_price]"@.len());
    assert("[movement_type]"@ != "[discounted_price]"@);
    assert("[movement_type]"@.len() != "[symbol]"@.len());
    assert("[movement_type]"@ != "[symbol]"@);
    assert("[movement_caliber]"@[1] != "[water_resistance]"@[1]);
    assert("[movement_caliber]"@ != "[water_resistance]"@);
    assert("[movement_caliber]"@.len() != "[warranty_period]"@.len());
    assert("[movement_caliber]"@ != "[warranty_period]"@);
    assert("[movement_caliber]"@.len() != "[warranty_type]"@.len());
    assert("[movement_caliber]"@ != "[warranty_type]"@);
    assert("[movement_caliber]"@.len() != "[other_accessories_type]"@.len());
    assert("[movement_caliber]"@ != "[other_accessories_type]"@);
    assert("[movement_caliber]"@.len() != "[gender]"@.len());
    assert("[movement_caliber]"@ != "[gender]"@);
    assert("[movement_caliber]"@.len() != "[is_preorder]"@.len());
    assert("[movement_caliber]"@ != "[is_preorder]"@);
    assert("[movement_caliber]"@[1] != "[discounted_price]"@[1]);
    assert("[movement_caliber]"@ != "[discounted_price]"@);
    assert("[movement_caliber]"@.len() != "[symbol]"@.len());
    assert("[movement_caliber]"@ != "[symbol]"@);
    assert("[water_resistance]"@.len() != "[warranty_period]"@.len());
    assert("[water_resistance]"@ != "[warranty_period]"@);
    assert("[water_resistance]"@.len() != "[warranty_type]"@.len());
    assert("[water_resistance]"@ != "[warranty_type]"@);
    assert("[water_resistance]"@.len() != "[other_accessories_type]"@.len());
    assert("[water_resistance]"@ != "[other_accessories_type]"@);
    assert("[water_resistance]"@.len() != "[gender]"@.len());
    assert("[water_resistance]"@ != "[gender]"@);
    assert("[water_resistance]"@.len() != "[is_preorder]"@.len());
    assert("[water_resistance]"@ != "[is_preorder]"@);
    assert("[water_resistance]"@[1] != "[discounted_price]"@[1]);
    assert("[water_resistance]"@ != "[discounted_price]"@);
    assert("[water_resistance]"@.len() != "[symbol]"@.len());
    assert("[water_resistance]"@ != "[symbol]"@);
    assert("[warranty_period]"@.len() != "[warranty_type]"@.len());
    assert("[warranty_period]"@ != "[warranty_type]"@);
    assert("[warranty_period]"@.len() != "[other_accessories_type]"@.len());
    assert("[warranty_period]"@ != "[other_accessories_type]"@);
    assert("[warranty_period]"@.len() != "[gender]"@.len());
    assert("[warranty_period]"@ != "[gender]"@);
    assert("[warranty_period]"@.len() != "[is_preorder]"@.len());
    assert("[warranty_period]"@ != "[is_preorder]"@);
    assert("[warranty_period]"@.len() != "[discounted_price]"@.len());
    assert("[warranty_period]"@ != "[discounted_price]"@);
    assert("[warranty_period]"@.len() != "[symbol]"@.len());
    assert("[warranty_period]"@ != "[symbol]"@);
    assert("[warranty_type]"@.len() != "[other_accessories_type]"@.len());
    assert("[warranty_type]"@ != "[other_accessories_type]"@);
    assert("[warranty_type]"@.len() != "[gender]"@.len());
    assert("[warranty_type]"@ != "[gender]"@);
    assert("[warranty_type]"@.len() != "[is_preorder]"@.len());
    assert("[warranty_type]"@ != "[is_preorder]"@);
    assert("[warranty_type]"@.len() != "[discounted_price]"@.len());
    assert("[warranty_type]"@ != "[discounted_price]"@);
    assert("[warranty_type]"@.len() != "[symbol]"@.len());
    assert("[warranty_type]"@ != "[symbol]"@);
    assert("[other_accessories_type]"@.len() != "[gender]"@.len());
    assert("[other_accessories_type]"@ != "[gender]"@);
    assert("[other_accessories_type]"@.len() != "[is_preorder]"@.len());
    assert("[other_accessories_type]"@ != "[is_preorder]"@);
    assert("[other_accessories_type]"@.len() != "[discounted_price]"@.len());
    assert("[other_accessories_type]"@ != "[discounted_price]"@);
    assert("[other_accessories_type]"@.len() != "[symbol]"@.len());
    assert("[other_accessories_type]"@ != "[symbol]"@);
    assert("[gender]"@.len() != "[is_preorder]"@.len());
    assert("[gender]"@ != "[is_preorder]"@);
    assert("[gender]"@.len() != "[discounted_price]"@.len());
    assert("[gender]"@ != "[discounted_price]"@);
    assert("[gender]"@[1] != "[symbol]"@[1]);
    assert("[gender]"@ != "[symbol]"@);
    assert("[is_preorder]"@.len() != "[discounted_price]"@.len());
    assert("[is_preorder]"@ != "[discounted_price]"@);
    assert("[is_preorder]"@.len() != "[symbol]"@.len());
    assert("[is_preorder]"@ != "[symbol]"@);
    assert("[discounted_price]"@.len() != "[symbol]"@.len());
    assert("[discounted_price]"@ != "[symbol]"@);
    assert forall|j: int| 0 <= j < 26 implies is_placeholder(#[trigger] product_fields(p)[j].0) by {
        if j == 0 {} else if j == 1 {} else if j == 2 {} else if j == 3 {} else if j == 4 {} else if j == 5 {} else if j == 6 {} else if j == 7 {} else if j == 8 {} else if j == 9 {} else if j == 10 {} else if j == 11 {} else if j == 12 {} else if j == 13 {} else if j == 14 {} else if j == 15 {} else if j == 16 {} else if j == 17 {} else if j == 18 {} else if j == 19 {} else if j == 20 {} else if j == 21 {} else if j == 22 {} else if j == 23 {} else if j == 24 {} else if j == 25 {}
    }
    assert forall|i: int, j: int| 0 <= i < j < 26 implies #[trigger] product_fields(p)[i].0 != #[trigger] product_fields(p)[j].0 by {
        if i == 0 { if j == 1 {} else if j == 2 {} else if j == 3 {} else if j == 4 {} else if j == 5 {} else if j == 6 {} else if j == 7 {} else if j == 8 {} else if j == 9 {} else if j == 10 {} else if j == 11 {} else if j == 12 {} else if j == 13 {} else if j == 14 {} else if j == 15 {} else if j == 16 {} else if j == 17 {} else if j == 18 {} else if j == 19 {} else if j == 20 {} else if j == 21 {} else if j == 22 {} else if j == 23 {} else if j == 24 {} else if j == 25 {} } else if i == 1 { if j == 2 {} else if j == 3 {} else if j == 4 {} else if j == 5 {} else if j == 6 {} else if j == 7 {} else if j == 8 {} else if j == 9 {} else if j == 10 {} else if j == 11 {} else if j == 12 {} else if j == 13 {} else if j == 14 {} else if j == 15 {} else if j == 16 {} else if j == 17 {} else if j == 18 {} else if j == 19 {} else if j == 20 {} else if j == 21 {} else if j == 22 {} else if j == 23 {} else if j == 24 {} else if j == 25 {} } else if i == 2 { if j == 3 {} else if j == 4 {} else if j == 5 {} else if j == 6 {} else if j == 7 {} else if j == 8 {} else if j == 9 {} else if j == 10 {} else if j == 11 {} else if j == 12 {} else if j == 13 {} else if j == 14 {} else if j == 15 {} else if j == 16 {} else if j == 17 {} else if j == 18 {} else if j == 19 {} else if j == 20 {} else if j == 21 {} else if j == 22 {} else if j == 23 {} else if j == 24 {} else if j == 25 {} } else if i == 3 { if j == 4 {} else if j == 5 {} else if j == 6 {} else if j == 7 {} else if j == 8 {} else if j == 9 {} else if j == 10 {} else if j == 11 {} else if j == 12 {} else if j == 13 {} else if j == 14 {} else if j == 15 {} else if j == 16 {} else if j == 17 {} else if j == 18 {} else if j == 19 {} else if j == 20 {} else if j == 21 {} else if j == 22 {} else if j == 23 {} else if j == 24 {} else if j == 25 {} } else if i == 4 { if j == 5 {} else if j == 6 {} else if j == 7 {} else if j == 8 {} else if j == 9 {} else if j == 10 {} else if j == 11 {} else if j == 12 {} else if j == 13 {} else if j == 14 {} else if j == 15 {} else if j == 16 {} else if j == 17 {} else if j == 18 {} else if j == 19 {} else if j == 20 {} else if j == 21 {} else if j == 22 {} else if j == 23 {} else if j == 24 {} else if j == 25 {} } else if i == 5 { if j == 6 {} else if j == 7 {} else if j == 8 {} else if j == 9 {} else if j == 10 {} else if j == 11 {} else if j == 12 {} else if j == 13 {} else if j == 14 {} else if j == 15 {} else if j == 16 {} else if j == 17 {} else if j == 18 {} else if j == 19 {} else if j == 20 {} else if j == 21 {} else if j == 22 {} else if j == 23 {} else if j == 24 {} else if j == 25 {} } else if i == 6 { if j == 7 {} else if j == 8 {} else if j == 9 {} else if j == 10 {} else if j == 11 {} else if j == 12 {} else if j == 13 {} else if j == 14 {} else if j == 15 {} else if j == 16 {} else if j == 17 {} else if j == 18 {} else if j == 19 {} else if j == 20 {} else if j == 21 {} else if j == 22 {} else if j == 23 {} else if j == 24 {} else if j == 25 {} } else if i == 7 { if j == 8 {} else if j == 9 {} else if j == 10 {} else if j == 11 {} else if j == 12 {} else if j == 13 {} else if j == 14 {} else if j == 15 {} else if j == 16 {} else if j == 17 {} else if j == 18 {} else if j == 19 {} else if j == 20 {} else if j == 21 {} else if j == 22 {} else if j == 23 {} else if j == 24 {} else if j == 25 {} } else if i == 8 { if j == 9 {} else if j == 10 {} else if j == 11 {} else if j == 12 {} else if j == 13 {} else if j == 14 {} else if j == 15 {} else if j == 16 {} else if j == 17 {} else if j == 18 {} else if j == 19 {} else if j == 20 {} else if j == 21 {} else if j == 22 {} else if j == 23 {} else if j == 24 {} else if j == 25 {} } else if i == 9 { if j == 10 {} else if j == 11 {} else if j == 12 {} else if j == 13 {} else if j == 14 {} else if j == 15 {} else if j == 16 {} else if j == 17 {} else if j == 18 {} else if j == 19 {} else if j == 20 {} else if j == 21 {} else if j == 22 {} else if j == 23 {} else if j == 24 {} else if j == 25 {} } else if i == 10 { if j == 11 {} else if j == 12 {} else if j == 13 {} else if j == 14 {} else if j == 15 {} else if j == 16 {} else if j == 17 {} else if j == 18 {} else if j == 19 {} else if j == 20 {} else if j == 21 {} else if j == 22 {} else if j == 23 {} else if j == 24 {} else if j == 25 {} } else if i == 11 { if j == 12 {} else if j == 13 {} else if j == 14 {} else if j == 15 {} else if j == 16 {} else if j == 17 {} else if j == 18 {} else if j == 19 {} else if j == 20 {} else if j == 21 {} else if j == 22 {} else if j == 23 {} else if j == 24 {} else if j == 25 {} } else if i == 12 { if j == 13 {} else if j == 14 {} else if j == 15 {} else if j == 16 {} else if j == 17 {} else if j == 18 {} else if j == 19 {} else if j == 20 {} else if j == 21 {} else if j == 22 {} else if j == 23 {} else if j == 24 {} else if j == 25 {} } else if i == 13 { if j == 14 {} else if j == 15 {} else if j == 16 {} else if j == 17 {} else if j == 18 {} else if j == 19 {} else if j == 20 {} else if j == 21 {} else if j == 22 {} else if j == 23 {} else if j == 24 {} else if j == 25 {} } else if i == 14 { if j == 15 {} else if j == 16 {} else if j == 17 {} else if j == 18 {} else if j == 19 {} else if j == 20 {} else if j == 21 {} else if j == 22 {} else if j == 23 {} else if j == 24 {} else if j == 25 {} } else if i == 15 { if j == 16 {} else if j == 17 {} else if j == 18 {} else if j == 19 {} else if j == 20 {} else if j == 21 {} else if j == 22 {} else if j == 23 {} else if j == 24 {} else if j == 25 {} } else if i == 16 { if j == 17 {} else if j == 18 {} else if j == 19 {} else if j == 20 {} else if j == 21 {} else if j == 22 {} else if j == 23 {} else if j == 24 {} else if j == 25 {} } else if i == 17 { if j == 18 {} else if j == 19 {} else if j == 20 {} else if j == 21 {} else if j == 22 {} else if j == 23 {} else if j == 24 {} else if j == 25 {} } else if i == 18 { if j == 19 {} else if j == 20 {} else if j == 21 {} else if j == 22 {} else if j == 23 {} else if j == 24 {} else if j == 25 {} } else if i == 19 { if j == 20 {} else if j == 21 {} else if j == 22 {} else if j == 23 {} else if j == 24 {} else if j == 25 {} } else if i == 20 { if j == 21 {} else if j == 22 {} else if j == 23 {} else if j == 24 {} else if j == 25 {} } else if i == 21 { if j == 22 {} else if j == 23 {} else if j == 24 {} else if j == 25 {} } else if i == 22 { if j == 23 {} else if j == 24 {} else if j == 25 {} } else if i == 23 { if j == 24 {} else if j == 25 {} } else if i == 24 { if j == 25 {} }
    }
}

proof fn lemma_invoice_fields_entries(h: InvoiceHeader)
    ensures
        invoice_fields(h).len() == 11,
        invoice_fields(h)[0] == ("[customer_name]"@, h.customer_name@),
        invoice_fields(h)[1] == ("[customer_phone]"@, h.customer_phone@),
        invoice_fields(h)[2] == ("[customer_address]"@, customer_address(h)),
        invoice_fields(h)[3] == ("[shop_name]"@, h.shop_name@),
        invoice_fields(h)[4] == ("[seller_phone]"@, h.seller_phone@),
        invoice_fields(h)[5] == ("[seller_address]"@, h.shop_address@),
        invoice_fields(h)[6] == ("[order_date]"@, h.order_date@),
        invoice_fields(h)[7] == ("[order_id]"@, h.order_id@),
        invoice_fields(h)[8] == ("[invoice_id]"@, h.invoice_id@),
        invoice_fields(h)[9] == ("[payment_type]"@, h.payment_type@),
        invoice_fields(h)[10] == ("[note]"@, h.note@),
{
}

proof fn lemma_invoice_fields_keys(h: InvoiceHeader)
    ensures
        forall|j: int| 0 <= j < 11 ==> is_placeholder(#[trigger] invoice_fields(h)[j].0),
        forall|i: int, j: int| 0 <= i < j < 11 ==> #[trigger] invoice_fields(h)[i].0 != #[trigger] invoice_fields(h)[j].0,
{
    reveal_strlit("[customer_name]");
    reveal_strlit("[customer_phone]");
    reveal_strlit("[customer_address]");
    reveal_strlit("[shop_name]");
    reveal_strlit("[seller_phone]");
    reveal_strlit("[seller_address]");
    reveal_strlit("[order_date]");
    reveal_strlit("[order_id]");
    reveal_strlit("[invoice_id]");
    reveal_strlit("[payment_type]");
    reveal_strlit("[note]");
    lemma_invoice_fields_entries(h);
    assert(is_placeholder("[customer_name]"@));
    assert(is_placeholder("[customer_phone]"@));
    assert(is_placeholder("[customer_address]"@));
    assert(is_placeholder("[shop_name]"@));
    assert(is_placeholder("[seller_phone]"@));
    assert(is_placeholder("[seller_address]"@));
    assert(is_placeholder("[order_date]"@));
    assert(is_placeholder("[order_id]"@));
    assert(is_placeholder("[invoice_id]"@));
    assert(is_placeholder("[payment_type]"@));
    assert(is_placeholder("[note]"@));
    assert("[customer_name]"@.len() != "[customer_phone]"@.len());
    assert("[customer_name]"@ != "[customer_phone]"@);
    assert("[customer_name]"@.len() != "[customer_address]"@.len());
    assert("[customer_name]"@ != "[customer_address]"@);
    assert("[customer_name]"@.len() != "[shop_name]"@.len());
    assert("[customer_name]"@ != "[shop_name]"@);
    assert("[customer_name]"@.len() != "[seller_phone]"@.len());
    assert("[customer_name]"@ != "[seller_phone]"@);
    assert("[customer_name]"@.len() != "[seller_address]"@.len());
    assert("[customer_name]"@ != "[seller_address]"@);
    assert("[customer_name]"@.len() != "[order_date]"@.len());
    assert("[customer_name]"@ != "[order_date]"@);
    assert("[customer_name]"@.len() != "[order_id]"@.len());
    assert("[customer_name]"@ != "[order_id]"@);
    assert("[customer_name]"@.len() != "[invoice_id]"@.len());
    assert("[customer_name]"@ != "[invoice_id]"@);
    assert("[customer_name]"@.len() != "[payment_type]"@.len());
    assert("[customer_name]"@ != "[payment_type]"@);
    assert("[customer_name]"@.len() != "[note]"@.len());
    assert("[customer_name]"@ != "[note]"@);
    assert("[customer_phone]"@.len() != "[customer_address]"@.len());
    assert("[customer_phone]"@ != "[customer_address]"@);
    assert("[customer_phone]"@.len() != "[shop_name]"@.len());
    assert("[customer_phone]"@ != "[shop_name]"@);
    assert("[customer_phone]"@.len() != "[seller_phone]"@.len());
    assert("[customer_phone]"@ != "[seller_phone]"@);
    assert("[customer_phone]"@[1] != "[seller_address]"@[1]);
    assert("[customer_phone]"@ != "[seller_address]"@);
    assert("[customer_phone]"@.len() != "[order_date]"@.len());
    assert("[customer_phone]"@ != "[order_date]"@);
    assert("[customer_phone]"@.len() != "[order_id]"@.len());
    assert("[customer_phone]"@ != "[order_id]"@);
    assert("[customer_phone]"@.len() != "[invoice_id]"@.len());
    assert("[customer_phone]"@ != "[invoice_id]"@);
    assert("[customer_phone]"@.len() != "[payment_type]"@.len());
    assert("[customer_phone]"@ != "[payment_type]"@);
    assert("[customer_phone]"@.len() != "[note]"@.len());
    assert("[customer_phone]"@ != "[note]"@);
    assert("[customer_address]"@.len() != "[shop_name]"@.len());
    assert("[customer_address]"@ != "[shop_name]"@);
    assert("[customer_address]"@.len() != "[seller_phone]"@.len());
    assert("[customer_address]"@ != "[seller_phone]"@);
    assert("[customer_address]"@.len() != "[seller_address]"@.len());
    assert("[customer_address]"@ != "[seller_address]"@);
    assert("[customer_address]"@.len() != "[order_date]"@.len());
    assert("[customer_address]"@ != "[order_date]"@);
    assert("[customer_address]"@.len() != "[order_id]"@.len());
    assert("[customer_address]"@ != "[order_id]"@);
    assert("[customer_address]"@.len() != "[invoice_id]"@.len());
    assert("[customer_address]"@ != "[invoice_id]"@);
    assert("[customer_address]"@.len() != "[payment_type]"@.len());
    assert("[customer_address]"@ != "[payment_type]"@);
    assert("[customer_address]"@.len() != "[note]"@.len());
    assert("[customer_address]"@ != "[note]"@);
    assert("[shop_name]"@.len() != "[seller_phone]"@.len());
    assert("[shop_name]"@ != "[seller_phone]"@);
    assert("[shop_name]"@.len() != "[seller_address]"@.len());
    assert("[shop_name]"@ != "[seller_address]"@);
    assert("[shop_name]"@.len() != "[order_date]"@.len());
    assert("[shop_name]"@ != "[order_date]"@);
    assert("[shop_name]"@.len() != "[order_id]"@.len());
    assert("[shop_name]"@ != "[order_id]"@);
    assert("[shop_name]"@.len() != "[invoice_id]"@.len());
    assert("[shop_name]"@ != "[invoice_id]"@);
    assert("[shop_name]"@.len() != "[payment_type]"@.len());
    assert("[shop_name]"@ != "[payment_type]"@);
    assert("[shop_name]"@.len() != "[note]"@.len());
    assert("[shop_name]"@ != "[note]"@);
    assert("[seller_phone]"@.len() != "[seller_address]"@.len());
    assert("[seller_phone]"@ != "[seller_address]"@);
    assert("[seller_phone]"@.len() != "[order_date]"@.len());
    assert("[seller_phone]"@ != "[order_date]"@);
    assert("[seller_phone]"@.len() != "[order_id]"@.len());
    assert("[seller_phone]"@ != "[order_id]"@);
    assert("[seller_phone]"@.len() != "[invoice_id]"@.len());
    assert("[seller_phone]"@ != "[invoice_id]"@);
    assert("[seller_phone]"@[1] != "[payment_type]"@[1]);
    assert("[seller_phone]"@ != "[payment_type]"@);
    assert("[seller_phone]"@.len() != "[note]"@.len());
    assert("[seller_phone]"@ != "[note]"@);
    assert("[seller_address]"@.len() != "[order_date]"@.len());
    assert("[seller_address]"@ != "[order_date]"@);
    assert("[seller_address]"@.len() != "[order_id]"@.len());
    assert("[seller_address]"@ != "[order_id]"@);
    assert("[seller_address]"@.len() != "[invoice_id]"@.len());
    assert("[seller_address]"@ != "[invoice_id]"@);
    assert("[seller_address]"@.len() != "[payment_type]"@.len());
    assert("[seller_address]"@ != "[payment_type]"@);
    assert("[seller_address]"@.len() != "[note]"@.len());
    assert("[seller_address]"@ != "[note]"@);
    assert("[order_date]"@.len() != "[order_id]"@.len());
    assert("[order_date]"@ != "[order_id]"@);
    assert("[order_date]"@[1] != "[invoice_id]"@[1]);
    assert("[order_date]"@ != "[invoice_id]"@);
    assert("[order_date]"@.len() != "[payment_type]"@.len());
    assert("[order_date]"@ != "[payment_type]"@);
    assert("[order_date]"@.len() != "[note]"@.len());
    assert("[order_date]"@ != "[note]"@);
    assert("[order_id]"@.len() != "[invoice_id]"@.len());
    assert("[order_id]"@ != "[invoice_id]"@);
    assert("[order_id]"@.len() != "[payment_type]"@.len());
    assert("[order_id]"@ != "[payment_type]"@);
    assert("[order_id]"@.len() != "[note]"@.len());
    assert("[order_id]"@ != "[note]"@);
    assert("[invoice_id]"@.len() != "[payment_type]"@.len());
    assert("[invoice_id]"@ != "[payment_type]"@);
    assert("[invoice_id]"@.len() != "[note]"@.len());
    assert("[invoice_id]"@ != "[note]"@);
    assert("[payment_type]"@.len() != "[note]"@.len());
    assert("[payment_type]"@ != "[note]"@);
    assert forall|j: int| 0 <= j < 11 implies is_placeholder(#[trigger] invoice_fields(h)[j].0) by {
        if j == 0 {} else if j == 1 {} else if j == 2 {} else if j == 3 {} else if j == 4 {} else if j == 5 {} else if j == 6 {} else if j == 7 {} else if j == 8 {} else if j == 9 {} else if j == 10 {}
    }
    assert forall|i: int, j: int| 0 <= i < j < 11 implies #[trigger] invoice_fields(h)[i].0 != #[trigger] invoice_fields(h)[j].0 by {
        if i == 0 { if j == 1 {} else if j == 2 {} else if j == 3 {} else if j == 4 {} else if j == 5 {} else if j == 6 {} else if j == 7 {} else if j == 8 {} else if j == 9 {} else if j == 10 {} } else if i == 1 { if j == 2 {} else if j == 3 {} else if j == 4 {} else if j == 5 {} else if j == 6 {} else if j == 7 {} else if j == 8 {} else if j == 9 {} else if j == 10 {} } else if i == 2 { if j == 3 {} else if j == 4 {} else if j == 5 {} else if j == 6 {} else if j == 7 {} else if j == 8 {} else if j == 9 {} else if j == 10 {} } else if i == 3 { if j == 4 {} else if j == 5 {} else if j == 6 {} else if j == 7 {} else if j == 8 {} else if j == 9 {} else if j == 10 {} } else if i == 4 { if j == 5 {} else if j == 6 {} else if j == 7 {} else if j == 8 {} else if j == 9 {} else if j == 10 {} } else if i == 5 { if j == 6 {} else if j == 7 {} else if j == 8 {} else if j == 9 {} else if j == 10 {} } else if i == 6 { if j == 7 {} else if j == 8 {} else if j == 9 {} else if j == 10 {} } else if i == 7 { if j == 8 {} else if j == 9 {} else if j == 10 {} } else if i == 8 { if j == 9 {} else if j == 10 {} } else if i == 9 { if j == 10 {} }
    }
}

/// The decimal text of an integer holds no `[`.
proof fn lemma_decimal_int_plain(n: int)
    ensures
        plain_text(decimal_int(n)),
{
    lemma_decimal_int_symbols(n);
    assert forall|i: int| 0 <= i < decimal_int(n).len() implies decimal_int(n)[i] != '[' by {
        assert(decimal_int(n)[i] == '-' || is_digit(decimal_int(n)[i]));
    }
}

/// Texts without `[` joined by a separator without `[` hold none.
proof fn lemma_join_plain(parts: Seq<Seq<char>>, sep: Seq<char>)
    requires
        forall|i: int| 0 <= i < parts.len() ==> plain_text(#[trigger] parts[i]),
        plain_text(sep),
    ensures
        plain_text(join_with(parts, sep)),
    decreases parts.len(),
{
    if parts.len() == 1 {
        assert(plain_text(parts[0]));
    } else if parts.len() > 1 {
        let pre = parts.drop_last();
        assert forall|i: int| 0 <= i < pre.len() implies plain_text(#[trigger] pre[i]) by {
            assert(pre[i] == parts[i]);
        }
        lemma_join_plain(pre, sep);
        assert(plain_text(parts[parts.len() - 1]));
        lemma_plain_concat(join_with(pre, sep), sep);
        lemma_plain_concat(join_with(pre, sep) + sep, parts.last());
    }
}

/// A product page template whose only placeholder is the field at `idx`
/// becomes the template with that field's value in its place.
proof fn lemma_product_page_key(p: ProductPage, idx: int, before: Seq<char>, after: Seq<char>)
    requires
        0 <= idx < 26,
        plain_text(product_fields(p)[idx].1),
        plain_text(before),
        plain_text(after),
    ensures
        product_page(before + product_fields(p)[idx].0 + after, p) == before + product_fields(
            p,
        )[idx].1 + after,
{
    lemma_product_fields_entries(p);
    lemma_product_fields_keys(p);
    lemma_filled_key(product_fields(p), idx, before, after);
    let shown = before + product_fields(p)[idx].1 + after;
    lemma_plain_concat(before, product_fields(p)[idx].1);
    lemma_plain_concat(before + product_fields(p)[idx].1, after);
    reveal_strlit("[image_cards]");
    reveal_strlit("[original_price]");
    lemma_replaced_plain(
        shown,
        "[image_cards]"@,
        image_cards_of(texts(p.product_images@), stock_tag(p.stock_quantity as int)),
    );
    lemma_replaced_plain(shown, "[original_price]"@, struck_price(p));
}

/// An invoice template whose only placeholder is the heading field at `idx`
/// becomes the template with that field's value in its place.
proof fn lemma_invoice_page_key(
    h: InvoiceHeader,
    lines: Seq<InvoiceLine>,
    sub_total: Seq<char>,
    idx: int,
    before: Seq<char>,
    after: Seq<char>,
)
    requires
        0 <= idx < 11,
        plain_text(invoice_fields(h)[idx].1),
        plain_text(before),
        plain_text(after),
    ensures
        invoice_page(before + invoice_fields(h)[idx].0 + after, h, lines, sub_total) == before
            + invoice_fields(h)[idx].1 + after,
{
    lemma_invoice_fields_entries(h);
    lemma_invoice_fields_keys(h);
    lemma_filled_key(invoice_fields(h), idx, before, after);
    let shown = before + invoice_fields(h)[idx].1 + after;
    lemma_plain_concat(before, invoice_fields(h)[idx].1);
    lemma_plain_concat(before + invoice_fields(h)[idx].1, after);
    reveal_strlit("[order_items]");
    reveal_strlit("[sub_total]");
    lemma_replaced_plain(shown, "[order_items]"@, invoice_lines(lines));
    lemma_replaced_plain(shown, "[sub_total]"@, sub_total);
}

/// Each placeholder of the product page is filled with the product's own
/// field of that name: in a page template whose only placeholder is
/// `[<field>]`, the placeholder is replaced by that field of the product (the
/// stock as decimal text) and the text around it stays as it was. Texts hold
/// no `[` here (the template around the placeholder and the field's value),
/// so that no filled-in value is itself read as a placeholder by a later
/// replacement.
pub proof fn law_product_page_fills_each_field(p: ProductPage, before: Seq<char>, after: Seq<char>)
    requires
        plain_text(before),
        plain_text(after),
    ensures
        plain_text(p.unique_id@) ==> product_page(before + "[unique_id]"@ + after, p) == before + p.unique_id@ + after,
        plain_text(p.product_name@) ==> product_page(before + "[product_name]"@ + after, p) == before + p.product_name@ + after,
        plain_text(p.description@) ==> product_page(before + "[description]"@ + after, p) == before + p.description@ + after,
        plain_text(p.post_image@) ==> product_page(before + "[post_image]"@ + after, p) == before + p.post_image@ + after,
        product_page(before + "[stock_quantity]"@ + after, p) == before + decimal_int(p.stock_quantity as int) + after,
        plain_text(p.color@) ==> product_page(before + "[color]"@ + after, p) == before + p.color@ + after,
        plain_text(p.strap_material@) ==> product_page(before + "[strap_material]"@ + after, p) == before + p.strap_material@ + after,
        plain_text(p.strap_color@) ==> product_page(before + "[strap_color]"@ + after, p) == before + p.strap_color@ + after,
        plain_text(p.case_material@) ==> product_page(before + "[case_material]"@ + after, p) == before + p.case_material@ + after,
        plain_text(p.case_diameter@) ==> product_page(before + "[case_diameter]"@ + after, p) == before + p.case_diameter@ + after,
        plain_text(p.case_depth@) ==> product_page(before + "[case_depth]"@ + after, p) == before + p.case_depth@ + after,
        plain_text(p.case_width@) ==> product_page(before + "[case_width]"@ + after, p) == before + p.case_width@ + after,
        plain_text(p.dial_glass_type@) ==> product_page(before + "[dial_glass_type]"@ + after, p) == before + p.dial_glass_type@ + after,
        plain_text(p.dial_color@) ==> product_page(before + "[dial_color]"@ + after, p) == before + p.dial_color@ + after,
        plain_text(p.condition@) ==> product_page(before + "[condition]"@ + after, p) == before + p.condition@ + after,
        plain_text(p.movement_country@) ==> product_page(before + "[movement_country]"@ + after, p) == before + p.movement_country@ + after,
        plain_text(p.movement_type@) ==> product_page(before + "[movement_type]"@ + after, p) == before + p.movement_type@ + after,
        plain_text(p.movement_caliber@) ==> product_page(before + "[movement_caliber]"@ + after, p) == before + p.movement_caliber@ + after,
        plain_text(p.water_resistance@) ==> product_page(before + "[water_resistance]"@ + after, p) == before + p.water_resistance@ + after,
        plain_text(p.warranty_period@) ==> product_page(before + "[warranty_period]"@ + after, p) == before + p.warranty_period@ + after,
        plain_text(p.warranty_type@) ==> product_page(before + "[warranty_type]"@ + after, p) == before + p.warranty_type@ + after,
        plain_text(p.other_accessories_type@) ==> product_page(before + "[other_accessories_type]"@ + after, p) == before + p.other_accessories_type@ + after,
        plain_text(p.gender@) ==> product_page(before + "[gender]"@ + after, p) == before + p.gender@ + after,
        plain_text(p.is_preorder@) ==> product_page(before + "[is_preorder]"@ + after, p) == before + p.is_preorder@ + after,
        plain_text(p.discounted_price@) ==> product_page(before + "[discounted_price]"@ + after, p) == before + p.discounted_price@ + after,
        plain_text(p.symbol@) ==> product_page(before + "[symbol]"@ + after, p) == before + p.symbol@ + after,
{
    lemma_product_fields_entries(p);
    lemma_decimal_int_plain(p.stock_quantity as int);
    if plain_text(p.unique_id@) {
        lemma_product_page_key(p, 0, before, after);
    }
    if plain_text(p.product_name@) {
        lemma_product_page_key(p, 1, before, after);
    }
    if plain_text(p.description@) {
        lemma_product_page_key(p, 2, before, after);
    }
    if plain_text(p.post_image@) {
        lemma_product_page_key(p, 3, before, after);
    }
    lemma_product_page_key(p, 4, before, after);
    if plain_text(p.color@) {
        lemma_product_page_key(p, 5, before, after);
    }
    if plain_text(p.strap_material@) {
        lemma_product_page_key(p, 6, before, after);
    }
    if plain_text(p.strap_color@) {
        lemma_product_page_key(p, 7, before, after);
    }
    if plain_text(p.case_material@) {
        lemma_product_page_key(p, 8, before, after);
    }
    if plain_text(p.case_diameter@) {
        lemma_product_page_key(p, 9, before, after);
    }
    if plain_text(p.case_depth@) {
        lemma_product_page_key(p, 10, before, after);
    }
    if plain_text(p.case_width@) {
        lemma_product_page_key(p, 11, before, after);
    }
    if plain_text(p.dial_glass_type@) {
        lemma_product_page_key(p, 12, before, after);
    }
    if plain_text(p.dial_color@) {
        lemma_product_page_key(p, 13, before, after);
    }
    if plain_text(p.condition@) {
        lemma_product_page_key(p, 14, before, after);
    }
    if plain_text(p.movement_country@) {
        lemma_product_page_key(p, 15, before, after);
    }
    if plain_text(p.movement_type@) {
        lemma_product_page_key(p, 16, before, after);
    }
    if plain_text(p.movement_caliber@) {
        lemma_product_page_key(p, 17, before, after);
    }
    if plain_text(p.water_resistance@) {
        lemma_product_page_key(p, 18, before, after);
    }
    if plain_text(p.warranty_period@) {
        lemma_product_page_key(p, 19, before, after);
    }
    if plain_text(p.warranty_type@) {
        lemma_product_page_key(p, 20, before, after);
    }
    if plain_text(p.other_accessories_type@) {
        lemma_product_page_key(p, 21, before, after);
    }
    if plain_text(p.gender@) {
        lemma_product_page_key(p, 22, before, after);
    }
    if plain_text(p.is_preorder@) {
        lemma_product_page_key(p, 23, before, after);
    }
    if plain_text(p.discounted_price@) {
        lemma_product_page_key(p, 24, before, after);
    }
    if plain_text(p.symbol@) {
        lemma_product_page_key(p, 25, before, after);
    }
}

/// Each placeholder of the invoice heading is filled with the order's own
/// datum of that name: in an invoice template whose only placeholder is
/// `[<field>]`, the placeholder is replaced by the customer's name, the
/// customer's phone, the customer's address (house, street, ward, township,
/// city, state and country joined by `, `), the shop's name, the seller's
/// phone, the shop's address, the order date, the order id, the invoice id,
/// the payment type or the note, whatever the lines and the total, and the
/// text around it stays as it was. Texts hold no `[` here (the template
/// around the placeholder and the value that fills it).
pub proof fn law_invoice_fills_each_field(
    h: InvoiceHeader,
    lines: Seq<InvoiceLine>,
    sub_total: Seq<char>,
    before: Seq<char>,
    after: Seq<char>,
)
    requires
        plain_text(before),
        plain_text(after),
    ensures
        plain_text(h.customer_name@) ==> invoice_page(before + "[customer_name]"@ + after, h, lines, sub_total) == before + h.customer_name@ + after,
        plain_text(h.customer_phone@) ==> invoice_page(before + "[customer_phone]"@ + after, h, lines, sub_total) == before + h.customer_phone@ + after,
        plain_text(h.home_address@) && plain_text(h.street_address@) && plain_text(h.ward@) && plain_text(h.township@) && plain_text(h.city@) && plain_text(h.state@) && plain_text(h.country@) ==> invoice_page(before + "[customer_address]"@ + after, h, lines, sub_total) == before + join_with(seq![h.home_address@, h.street_address@, h.ward@, h.township@, h.city@, h.state@, h.country@], ", "@) + after,
        plain_text(h.shop_name@) ==> invoice_page(before + "[shop_name]"@ + after, h, lines, sub_total) == before + h.shop_name@ + after,
        plain_text(h.seller_phone@) ==> invoice_page(before + "[seller_phone]"@ + after, h, lines, sub_total) == before + h.seller_phone@ + after,
        plain_text(h.shop_address@) ==> invoice_page(before + "[seller_address]"@ + after, h, lines, sub_total) == before + h.shop_address@ + after,
        plain_text(h.order_date@) ==> invoice_page(before + "[order_date]"@ + after, h, lines, sub_total) == before + h.order_date@ + after,
        plain_text(h.order_id@) ==> invoice_page(before + "[order_id]"@ + after, h, lines, sub_total) == before + h.order_id@ + after,
        plain_text(h.invoice_id@) ==> invoice_page(before + "[invoice_id]"@ + after, h, lines, sub_total) == before + h.invoice_id@ + after,
        plain_text(h.payment_type@) ==> invoice_page(before + "[payment_type]"@ + after, h, lines, sub_total) == before + h.payment_type@ + after,
        plain_text(h.note@) ==> invoice_page(before + "[note]"@ + after, h, lines, sub_total) == before + h.note@ + after,
{
    lemma_invoice_fields_entries(h);
    if plain_text(h.customer_name@) {
        lemma_invoice_page_key(h, lines, sub_total, 0, before, after);
    }
    if plain_text(h.customer_phone@) {
        lemma_invoice_page_key(h, lines, sub_total, 1, before, after);
    }
    if plain_text(h.home_address@) && plain_text(h.street_address@) && plain_text(h.ward@) && plain_text(h.township@) && plain_text(h.city@) && plain_text(h.state@) && plain_text(h.country@) {
        let parts = seq![h.home_address@, h.street_address@, h.ward@, h.township@, h.city@, h.state@, h.country@];
        assert forall|i: int| 0 <= i < parts.len() implies plain_text(#[trigger] parts[i]) by {
            if i == 0 {} else if i == 1 {} else if i == 2 {} else if i == 3 {} else if i == 4 {} else if i == 5 {} else if i == 6 {}
        }
        reveal_strlit(", ");
        lemma_join_plain(parts, ", "@);
        lemma_invoice_page_key(h, lines, sub_total, 2, before, after);
    }
    if plain_text(h.shop_name@) {
        lemma_invoice_page_key(h, lines, sub_total, 3, before, after);
    }
    if plain_text(h.seller_phone@) {
        lemma_invoice_page_key(h, lines, sub_total, 4, before, after);
    }
    if plain_text(h.shop_address@) {
        lemma_invoice_page_key(h, lines, sub_total, 5, before, after);
    }
    if plain_text(h.order_date@) {
        lemma_invoice_page_key(h, lines, sub_total, 6, before, after);
    }
    if plain_text(h.order_id@) {
        lemma_invoice_page_key(h, lines, sub_total, 7, before, after);
    }
    if plain_text(h.invoice_id@) {
        lemma_invoice_page_key(h, lines, sub_total, 8, before, after);
    }
    if plain_text(h.payment_type@) {
        lemma_invoice_page_key(h, lines, sub_total, 9, before, after);
    }
    if plain_text(h.note@) {
        lemma_invoice_page_key(h, lines, sub_total, 10, before, after);
    }
}

/// No field of the product page is `[image_cards]`.
proof fn lemma_product_fields_not_image_cards(p: ProductPage)
    ensures
        forall|j: int| 0 <= j < 26 ==> #[trigger] product_fields(p)[j].0 != "[image_cards]"@,
{
    lemma_product_fields_entries(p);
    reveal_strlit("[image_cards]");
    reveal_strlit("[unique_id]");
    reveal_strlit("[product_name]");
    reveal_strlit("[description]");
    reveal_strlit("[post_image]");
    reveal_strlit("[stock_quantity]");
    reveal_strlit("[color]");
    reveal_strlit("[strap_material]");
    reveal_strlit("[strap_color]");
    reveal_strlit("[case_material]");
    reveal_strlit("[case_diameter]");
    reveal_strlit("[case_depth]");
    reveal_strlit("[case_width]");
    reveal_strlit("[dial_glass_type]");
    reveal_strlit("[dial_color]");
    reveal_strlit("[condition]");
    reveal_strlit("[movement_country]");
    reveal_strlit("[movement_type]");
    reveal_strlit("[movement_caliber]");
    reveal_strlit("[water_resistance]");
    reveal_strlit("[warranty_period]");
    reveal_strlit("[warranty_type]");
    reveal_strlit("[other_accessories_type]");
    reveal_strlit("[gender]");
    reveal_strlit("[is_preorder]");
    reveal_strlit("[discounted_price]");
    reveal_strlit("[symbol]");
    assert("[image_cards]"@.len() != "[unique_id]"@.len());
    assert("[image_cards]"@.len() != "[product_name]"@.len());
    assert("[image_cards]"@[1] != "[description]"@[1]);
    assert("[image_cards]"@.len() != "[post_image]"@.len());
    assert("[image_cards]"@.len() != "[stock_quantity]"@.len());
    assert("[image_cards]"@.len() != "[color]"@.len());
    assert("[image_cards]"@.len() != "[strap_material]"@.len());
    assert("[image_cards]"@[1] != "[strap_color]"@[1]);
    assert("[image_cards]"@.len() != "[case_material]"@.len());
    assert("[image_cards]"@.len() != "[case_diameter]"@.len());
    assert("[image_cards]"@.len() != "[case_depth]"@.len());
    assert("[image_cards]"@.len() != "[case_width]"@.len());
    assert("[image_cards]"@.len() != "[dial_glass_type]"@.len());
    assert("[image_cards]"@.len() != "[dial_color]"@.len());
    assert("[image_cards]"@.len() != "[condition]"@.len());
    assert("[image_cards]"@.len() != "[movement_country]"@.len());
    assert("[image_cards]"@.len() != "[movement_type]"@.len());
    assert("[image_cards]"@.len() != "[movement_caliber]"@.len());
    assert("[image_cards]"@.len() != "[water_resistance]"@.len());
    assert("[image_cards]"@.len() != "[warranty_period]"@.len());
    assert("[image_cards]"@.len() != "[warranty_type]"@.len());
    assert("[image_cards]"@.len() != "[other_accessories_type]"@.len());
    assert("[image_cards]"@.len() != "[gender]"@.len());
    assert("[image_cards]"@[2] != "[is_preorder]"@[2]);
    assert("[image_cards]"@.len() != "[discounted_price]"@.len());
    assert("[image_cards]"@.len() != "[symbol]"@.len());
    assert forall|j: int| 0 <= j < 26 implies #[trigger] product_fields(p)[j].0 != "[image_cards]"@ by {
        if j == 0 {} else if j == 1 {} else if j == 2 {} else if j == 3 {} else if j == 4 {} else if j == 5 {} else if j == 6 {} else if j == 7 {} else if j == 8 {} else if j == 9 {} else if j == 10 {} else if j == 11 {} else if j == 12 {} else if j == 13 {} else if j == 14 {} else if j == 15 {} else if j == 16 {} else if j == 17 {} else if j == 18 {} else if j == 19 {} else if j == 20 {} else if j == 21 {} else if j == 22 {} else if j == 23 {} else if j == 24 {} else if j == 25 {}
    }
}

/// No field of the product page is `[original_price]`.
proof fn lemma_product_fields_not_original_price(p: ProductPage)
    ensures
        forall|j: int| 0 <= j < 26 ==> #[trigger] product_fields(p)[j].0 != "[original_price]"@,
{
    lemma_product_fields_entries(p);
    reveal_strlit("[original_price]");
    reveal_strlit("[unique_id]");
    reveal_strlit("[product_name]");
    reveal_strlit("[description]");
    reveal_strlit("[post_image]");
    reveal_strlit("[stock_quantity]");
    reveal_strlit("[color]");
    reveal_strlit("[strap_material]");
    reveal_strlit("[strap_color]");
    reveal_strlit("[case_material]");
    reveal_strlit("[case_diameter]");
    reveal_strlit("[case_depth]");
    reveal_strlit("[case_width]");
    reveal_strlit("[dial_glass_type]");
    reveal_strlit("[dial_color]");
    reveal_strlit("[condition]");
    reveal_strlit("[movement_country]");
    reveal_strlit("[movement_type]");
    reveal_strlit("[movement_caliber]");
    reveal_strlit("[water_resistance]");
    reveal_strlit("[warranty_period]");
    reveal_strlit("[warranty_type]");
    reveal_strlit("[other_accessories_type]");
    reveal_strlit("[gender]");
    reveal_strlit("[is_preorder]");
    reveal_strlit("[discounted_price]");
    reveal_strlit("[symbol]");
    assert("[original_price]"@.len() != "[unique_id]"@.len());
    assert("[original_price]"@.len() != "[product_name]"@.len());
    assert("[original_price]"@.len() != "[description]"@.len());
    assert("[original_price]"@.len() != "[post_image]"@.len());
    assert("[original_price]"@[1] != "[stock_quantity]"@[1]);
    assert("[original_price]"@.len() != "[color]"@.len());
    assert("[original_price]"@[1] != "[strap_material]"@[1]);
    assert("[original_price]"@.len() != "[strap_color]"@.len());
    assert("[original_price]"@.len() != "[case_material]"@.len());
    assert("[original_price]"@.len() != "[case_diameter]"@.len());
    assert("[original_price]"@.len() != "[case_depth]"@.len());
    assert("[original_price]"@.len() != "[case_width]"@.len());
    assert("[original_price]"@.len() != "[dial_glass_type]"@.len());
    assert("[original_price]"@.len() != "[dial_color]"@.len());
    assert("[original_price]"@.len() != "[condition]"@.len());
    assert("[original_price]"@.len() != "[movement_country]"@.len());
    assert("[original_price]"@.len() != "[movement_type]"@.len());
    assert("[original_price]"@.len() != "[movement_caliber]"@.len());
    assert("[original_price]"@.len() != "[water_resistance]"@.len());
    assert("[original_price]"@.len() != "[warranty_period]"@.len());
    assert("[original_price]"@.len() != "[warranty_type]"@.len());
    assert("[original_price]"@.len() != "[other_accessories_type]"@.len());
    assert("[original_price]"@.len() != "[gender]"@.len());
    assert("[original_price]"@.len() != "[is_preorder]"@.len());
    assert("[original_price]"@.len() != "[discounted_price]"@.len());
    assert("[original_price]"@.len() != "[symbol]"@.len());
    assert forall|j: int| 0 <= j < 26 implies #[trigger] product_fields(p)[j].0 != "[original_price]"@ by {
        if j == 0 {} else if j == 1 {} else if j == 2 {} else if j == 3 {} else if j == 4 {} else if j == 5 {} else if j == 6 {} else if j == 7 {} else if j == 8 {} else if j == 9 {} else if j == 10 {} else if j == 11 {} else if j == 12 {} else if j == 13 {} else if j == 14 {} else if j == 15 {} else if j == 16 {} else if j == 17 {} else if j == 18 {} else if j == 19 {} else if j == 20 {} else if j == 21 {} else if j == 22 {} else if j == 23 {} else if j == 24 {} else if j == 25 {}
    }
}

/// No field of the invoice heading is `[order_items]`.
proof fn lemma_invoice_fields_not_order_items(h: InvoiceHeader)
    ensures
        forall|j: int| 0 <= j < 11 ==> #[trigger] invoice_fields(h)[j].0 != "[order_items]"@,
{
    lemma_invoice_fields_entries(h);
    reveal_strlit("[order_items]");
    reveal_strlit("[customer_name]");
    reveal_strlit("[customer_phone]");
    reveal_strlit("[customer_address]");
    reveal_strlit("[shop_name]");
    reveal_strlit("[seller_phone]");
    reveal_strlit("[seller_address]");
    reveal_strlit("[order_date]");
    reveal_strlit("[order_id]");
    reveal_strlit("[invoice_id]");
    reveal_strlit("[payment_type]");
    reveal_strlit("[note]");
    assert("[order_items]"@.len() != "[customer_name]"@.len());
    assert("[order_items]"@.len() != "[customer_phone]"@.len());
    assert("[order_items]"@.len() != "[customer_address]"@.len());
    assert("[order_items]"@.len() != "[shop_name]"@.len());
    assert("[order_items]"@.len() != "[seller_phone]"@.len());
    assert("[order_items]"@.len() != "[seller_address]"@.len());
    assert("[order_items]"@.len() != "[order_date]"@.len());
    assert("[order_items]"@.len() != "[order_id]"@.len());
    assert("[order_items]"@.len() != "[invoice_id]"@.len());
    assert("[order_items]"@.len() != "[payment_type]"@.len());
    assert("[order_items]"@.len() != "[note]"@.len());
    assert forall|j: int| 0 <= j < 11 implies #[trigger] invoice_fields(h)[j].0 != "[order_items]"@ by {
        if j == 0 {} else if j == 1 {} else if j == 2 {} else if j == 3 {} else if j == 4 {} else if j == 5 {} else if j == 6 {} else if j == 7 {} else if j == 8 {} else if j == 9 {} else if j == 10 {}
    }
}

/// No field of the invoice heading is `[sub_total]`.
proof fn lemma_invoice_fields_not_sub_total(h: InvoiceHeader)
    ensures
        forall|j: int| 0 <= j < 11 ==> #[trigger] invoice_fields(h)[j].0 != "[sub_total]"@,
{
    lemma_invoice_fields_entries(h);
    reveal_strlit("[sub_total]");
    reveal_strlit("[customer_name]");
    reveal_strlit("[customer_phone]");
    reveal_strlit("[customer_address]");
    reveal_strlit("[shop_name]");
    reveal_strlit("[seller_phone]");
    reveal_strlit("[seller_address]");
    reveal_strlit("[order_date]");
    reveal_strlit("[order_id]");
    reveal_strlit("[invoice_id]");
    reveal_strlit("[payment_type]");
    reveal_strlit("[note]");
    assert("[sub_total]"@.len() != "[customer_name]"@.len());
    assert("[sub_total]"@.len() != "[customer_phone]"@.len());
    assert("[sub_total]"@.len() != "[customer_address]"@.len());
    assert("[sub_total]"@[2] != "[shop_name]"@[2]);
    assert("[sub_total]"@.len() != "[seller_phone]"@.len());
    assert("[sub_total]"@.len() != "[seller_address]"@.len());
    assert("[sub_total]"@.len() != "[order_date]"@.len());
    assert("[sub_total]"@.len() != "[order_id]"@.len());
    assert("[sub_total]"@.len() != "[invoice_id]"@.len());
    assert("[sub_total]"@.len() != "[payment_type]"@.len());
    assert("[sub_total]"@.len() != "[note]"@.len());
    assert forall|j: int| 0 <= j < 11 implies #[trigger] invoice_fields(h)[j].0 != "[sub_total]"@ by {
        if j == 0 {} else if j == 1 {} else if j == 2 {} else if j == 3 {} else if j == 4 {} else if j == 5 {} else if j == 6 {} else if j == 7 {} else if j == 8 {} else if j == 9 {} else if j == 10 {}
    }
}

/// Replacing a placeholder in a text whose only placeholder is `k`: the
/// replacement takes the place of `k` when it is the one replaced, and the
/// text is unchanged otherwise.
proof fn lemma_replaced_sole_key(a: Seq<char>, k: Seq<char>, c: Seq<char>, p: Seq<char>, t: Seq<char>)
    requires
        plain_text(a),
        plain_text(c),
        is_placeholder(k),
        is_placeholder(p),
    ensures
        replaced(a + k + c, p, t) == (if k == p {
            a + t + c
        } else {
            a + k + c
        }),
{
    assert(a + k + c =~= a + (k + c));
    lemma_replaced_after_plain(a, k + c, p, t);
    lemma_replaced_key_before_plain(k, c, p, t);
    assert(a + (t + c) =~= a + t + c);
}

/// The struck-out price and the image cards of the product page: in a page
/// template whose only placeholder is `[original_price]`, the placeholder is
/// replaced by the price struck out (`<span style='text-decoration:
/// line-through; margin-right: 0.2rem'>`, the price, `</span>`) when the
/// price shown differs from it, and by nothing when they agree; in one whose
/// only placeholder is `[image_cards]`, by the cards of the product's images
/// (when they hold no `[`). The text around the placeholder, which holds no
/// `[`, stays as it was.
pub proof fn law_product_page_price_and_images(p: ProductPage, before: Seq<char>, after: Seq<char>)
    requires
        plain_text(before),
        plain_text(after),
    ensures
        product_page(before + "[original_price]"@ + after, p) == before + (if p.price@
            != p.discounted_price@ {
            "<span style='text-decoration: line-through; margin-right: 0.2rem'>"@ + p.price@
                + "</span>"@
        } else {
            ""@
        }) + after,
        plain_text(image_cards_of(texts(p.product_images@), stock_tag(p.stock_quantity as int)))
            ==> product_page(before + "[image_cards]"@ + after, p) == before + image_cards_of(
            texts(p.product_images@),
            stock_tag(p.stock_quantity as int),
        ) + after,
{
    lemma_product_fields_entries(p);
    lemma_product_fields_keys(p);
    lemma_product_fields_not_image_cards(p);
    lemma_product_fields_not_original_price(p);
    reveal_strlit("[image_cards]");
    reveal_strlit("[original_price]");
    let ic = "[image_cards]"@;
    let op = "[original_price]"@;
    assert(is_placeholder(ic));
    assert(is_placeholder(op));
    assert(ic.len() != op.len());
    let cards = image_cards_of(texts(p.product_images@), stock_tag(p.stock_quantity as int));
    lemma_filled_untouched(before, op, after, product_fields(p));
    lemma_replaced_sole_key(before, op, after, ic, cards);
    lemma_replaced_sole_key(before, op, after, op, struck_price(p));
    lemma_filled_untouched(before, ic, after, product_fields(p));
    lemma_replaced_sole_key(before, ic, after, ic, cards);
    if plain_text(cards) {
        lemma_plain_concat(before, cards);
        lemma_plain_concat(before + cards, after);
        lemma_replaced_plain(before + cards + after, op, struck_price(p));
    }
}

/// The lines and the total of an invoice: in an invoice template whose only
/// placeholder is `[sub_total]`, the placeholder is replaced by the total; in
/// one whose only placeholder is `[order_items]`, by the markup of the lines,
/// in order (when it holds no `[`), whatever the heading. The text around
/// the placeholder, which holds no `[`, stays as it was.
pub proof fn law_invoice_fills_lines_and_total(
    h: InvoiceHeader,
    lines: Seq<InvoiceLine>,
    sub_total: Seq<char>,
    before: Seq<char>,
    after: Seq<char>,
)
    requires
        plain_text(before),
        plain_text(after),
    ensures
        invoice_page(before + "[sub_total]"@ + after, h, lines, sub_total) == before + sub_total
            + after,
        plain_text(invoice_lines(lines)) ==> invoice_page(
            before + "[order_items]"@ + after,
            h,
            lines,
            sub_total,
        ) == before + invoice_lines(lines) + after,
{
    lemma_invoice_fields_entries(h);
    lemma_invoice_fields_keys(h);
    lemma_invoice_fields_not_order_items(h);
    lemma_invoice_fields_not_sub_total(h);
    reveal_strlit("[order_items]");
    reveal_strlit("[sub_total]");
    let oi = "[order_items]"@;
    let st = "[sub_total]"@;
    assert(is_placeholder(oi));
    assert(is_placeholder(st));
    assert(oi.len() != st.len());
    let shown = invoice_lines(lines);
    lemma_filled_untouched(before, st, after, invoice_fields(h));
    lemma_replaced_sole_key(before, st, after, oi, shown);
    lemma_replaced_sole_key(before, st, after, st, sub_total);
    lemma_filled_untouched(before, oi, after, invoice_fields(h));
    lemma_replaced_sole_key(before, oi, after, oi, shown);
    if plain_text(shown) {
        lemma_plain_concat(before, shown);
        lemma_plain_concat(before + shown, after);
        lemma_replaced_plain(before + shown + after, st, sub_total);
    }
}

} // verus!
