use paddle_rust_sdk::enums::TaxCategory;
use paddle_rust_sdk::ids::CustomerID;

#[test]
fn tax_category_strings() {
    assert_eq!(TaxCategory::DigitalGoods.as_ref(), "digital-goods");
    assert_eq!(TaxCategory::Saas.as_ref(), "saas");
    assert_eq!(TaxCategory::WebsiteHosting.as_ref(), "website-hosting");
}

#[test]
fn id_as_str() {
    let id = CustomerID("ctm_01".to_string());
    assert_eq!(id.as_ref(), "ctm_01");
}
