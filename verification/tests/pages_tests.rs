use watch_market::pages::{
    fill_template, image_cards, out_of_stock_tag, post_image, preorder_label, product_page_path,
    product_unique_id, invoice_url_of, render_invoice, render_product_page, InvoiceHeader, InvoiceLine,
    ProductPage,
};

fn page(stock: i32, price: &str, discounted: &str) -> ProductPage {
    let s = |x: &str| x.to_string();
    ProductPage {
        unique_id: s("seiko-5-12"),
        product_name: s("Seiko 5"),
        description: s("Automatic"),
        post_image: s("/images/a.png"),
        product_images: vec![s("/images/a.png")],
        stock_quantity: stock,
        color: s("Black"),
        strap_material: s("Steel"),
        strap_color: s("Silver"),
        case_material: s("Steel"),
        case_diameter: s("40"),
        case_depth: s("12"),
        case_width: s("40"),
        dial_glass_type: s("Hardlex"),
        dial_color: s("Blue"),
        condition: s("New"),
        movement_country: s("Japan"),
        movement_type: s("Automatic"),
        movement_caliber: s("4R36"),
        water_resistance: s("100m"),
        warranty_period: s("1 year"),
        warranty_type: s("Shop"),
        other_accessories_type: s("Box"),
        gender: s("Men"),
        is_preorder: s("No"),
        discounted_price: s(discounted),
        symbol: s("$"),
        price: s(price),
    }
}

#[test]
fn page_names_are_dashed_lower_case_with_the_id() {
    assert_eq!(product_unique_id("Seiko Presage Cocktail", 12), "seiko-presage-cocktail-12");
    assert_eq!(product_unique_id("ÄRA Watch", 3), "ära-watch-3");
    assert_eq!(product_page_path("seiko-5-12"), "./products/seiko-5-12.html");
}

#[test]
fn small_page_parts() {
    assert_eq!(preorder_label(true), "Yes");
    assert_eq!(preorder_label(false), "No");
    assert_eq!(post_image(&vec!["/images/a.png".to_string(), "/images/b.png".to_string()]), "/images/a.png");
    assert_eq!(post_image(&Vec::new()), "");
    assert_eq!(out_of_stock_tag(0), "<div class='out-of-stock-label'>Out of Stock</div>");
    assert_eq!(out_of_stock_tag(-2), "<div class='out-of-stock-label'>Out of Stock</div>");
    assert_eq!(out_of_stock_tag(1), "");
}

#[test]
fn image_cards_open_the_original() {
    let cards = image_cards(&vec!["/images/a.png".to_string()], "T");
    assert_eq!(
        cards,
        "<div class='image-container' style='background-image: url(../images/a.png)' onclick='setTimeout(() => location.href=\"../images/a_original.png\", 300)'>T</div>"
    );
    assert_eq!(image_cards(&Vec::new(), "T"), "");
}

#[test]
fn templates_are_filled_in_order() {
    let keys = vec!["[a]", "[b]"];
    let values = vec!["[b]".to_string(), "x".to_string()];
    assert_eq!(fill_template("[a] [b]", &keys, &values), "x x");
}

#[test]
fn product_page_fields() {
    let html = render_product_page(
        "<h1>[product_name]</h1><p>[stock_quantity]</p><s>[original_price]</s><b>[symbol] [discounted_price]</b>[image_cards]",
        &page(0, "100", "80"),
    );
    assert_eq!(
        html,
        "<h1>Seiko 5</h1><p>0</p><s><span style='text-decoration: line-through; margin-right: 0.2rem'>100</span></s><b>$ 80</b><div class='image-container' style='background-image: url(../images/a.png)' onclick='setTimeout(() => location.href=\"../images/a_original.png\", 300)'><div class='out-of-stock-label'>Out of Stock</div></div>"
    );
}

#[test]
fn product_page_without_discount_strikes_nothing() {
    let html = render_product_page("[original_price][price]|[gender]", &page(3, "100", "100"));
    assert_eq!(html, "[price]|Men");
}

#[test]
fn invoice_is_filled() {
    let s = |x: &str| x.to_string();
    let h = InvoiceHeader {
        customer_name: s("Ann"),
        customer_phone: s("0911"),
        home_address: s("No. 5"),
        street_address: s("Main St"),
        ward: s("Ward 3"),
        township: s("Bahan"),
        city: s("Yangon"),
        state: s("Yangon"),
        country: s("Myanmar"),
        shop_name: s("Watch House"),
        seller_phone: s("0922"),
        shop_address: s("Bogyoke Market"),
        order_date: s("2024-05-01"),
        order_id: s("15"),
        invoice_id: s("777000015"),
        payment_type: s("Cash on Delivery"),
        note: s(""),
    };
    let lines = vec![InvoiceLine {
        brand_name: s("Seiko"),
        model: s("SRPD"),
        quantity: 2,
        symbol: s("$"),
        price: s("100"),
        total: s("200"),
    }];
    let html = render_invoice(
        "[customer_name]|[customer_address]|[invoice_id]|[order_items]|[sub_total]|[note]",
        &h,
        &lines,
        "200",
    );
    assert_eq!(
        html,
        "Ann|No. 5, Main St, Ward 3, Bahan, Yangon, Yangon, Myanmar|777000015| <div class=\"flex row\"><div style=\"text-align: left\">Seiko SRPD</div><div>2</div><div>$ 100</div><div>$ 200</div></div>|200|"
    );
}

#[test]
fn invoice_address_from_the_pdf_service() {
    assert_eq!(invoice_url_of(200, Some("/invoices/1.pdf".to_string())), Some("/invoices/1.pdf".to_string()));
    assert_eq!(invoice_url_of(200, None), Some(String::new()));
    assert_eq!(invoice_url_of(500, Some("x".to_string())), None);
}
