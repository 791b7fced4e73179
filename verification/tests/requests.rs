use merchandise_catalog::catalog_store::{
    CreateAttributeBody, CreateCategoryAttributeBody, CreateCategoryBody, CreatePriceListBody,
    CreateSkuBody, CreateSpuBody, UpdateSkuBody,
};
use merchandise_catalog::contract::ServiceErrorKind;
use merchandise_catalog::domain::{
    AttributeRole, FulfillmentType, InventoryTrackingMode, ProductStatus, ProductType,
};
use merchandise_catalog::requests::{
    create_attribute_request, create_category_attribute_request, create_category_request,
    create_price_list_request, create_product_request, create_sku_request, update_sku_request,
};

fn category_body(sort_order: Option<&str>) -> CreateCategoryBody {
    CreateCategoryBody {
        category_no: "CAT-1".to_owned(),
        parent_id: None,
        name: "Apparel".to_owned(),
        sort_order: sort_order.map(str::to_owned),
    }
}

#[test]
fn a_category_request_needs_an_organization_and_an_int64_sort_order() {
    let command = create_category_request("100001", Some("0"), category_body(None)).unwrap();
    assert_eq!(command.tenant_id, "100001");
    assert_eq!(command.organization_id, "0");
    assert_eq!(command.sort_order, 0);
    let sorted = create_category_request("100001", Some("0"), category_body(Some("12"))).unwrap();
    assert_eq!(sorted.sort_order, 12);

    let anonymous = create_category_request("100001", None, category_body(None)).unwrap_err();
    assert_eq!(anonymous.message, "organization_id is required");
    let fractional = create_category_request("100001", Some("0"), category_body(Some("1.5")))
        .unwrap_err();
    assert_eq!(fractional.message, "sortOrder must be a decimal int64 string, got `1.5`");
    let blank = create_category_request(" ", Some("0"), category_body(None)).unwrap_err();
    assert_eq!(blank.message, "tenant_id is required");
}

#[test]
fn an_attribute_request_without_values_declares_none() {
    let body = CreateAttributeBody {
        attribute_no: "attr-duration".to_owned(),
        name: "Duration".to_owned(),
        values: None,
    };
    let command = create_attribute_request("1", Some("0"), body).unwrap();
    assert!(command.values.is_empty());
    let blank_value = CreateAttributeBody {
        attribute_no: "attr-duration".to_owned(),
        name: "Duration".to_owned(),
        values: Some(vec!["30 days".to_owned(), " ".to_owned()]),
    };
    assert_eq!(
        create_attribute_request("1", Some("0"), blank_value).unwrap_err().message,
        "values[] is required"
    );
}

#[test]
fn a_price_list_request_names_its_first_blank_field() {
    let body = CreatePriceListBody {
        price_list_no: "PL-1".to_owned(),
        currency_code: " ".to_owned(),
        market_code: None,
    };
    assert_eq!(
        create_price_list_request("1", Some("0"), body).unwrap_err().message,
        "currency_code is required"
    );
}

fn binding_body(role: Option<&str>) -> CreateCategoryAttributeBody {
    CreateCategoryAttributeBody {
        category_id: "20".to_owned(),
        attribute_id: "30".to_owned(),
        role: role.map(str::to_owned),
        required: Some(true),
        searchable: None,
        filterable: None,
        comparable: None,
        source_category_id: None,
        sort_order: None,
    }
}

#[test]
fn an_unclassified_binding_is_a_parameter() {
    let command = create_category_attribute_request("1", Some("0"), binding_body(None)).unwrap();
    assert_eq!(command.role, AttributeRole::Parameter);
    assert!(command.required);
    assert!(!command.searchable);
    let sales = create_category_attribute_request("1", Some("0"), binding_body(Some("sales"))).unwrap();
    assert_eq!(sales.role, AttributeRole::Sales);
    let unknown = create_category_attribute_request("1", Some("0"), binding_body(Some("axis")))
        .unwrap_err();
    assert_eq!(
        unknown.message,
        "attribute_role `axis` is not one of the permitted values: key, sales, parameter"
    );
}

#[test]
fn a_product_request_parses_its_product_type() {
    let body = CreateSpuBody {
        spu_no: "spu-1".to_owned(),
        title: "Pro membership".to_owned(),
        subtitle: None,
        description: None,
        product_type: "membership".to_owned(),
        category_id: "200001".to_owned(),
    };
    let command = create_product_request("1", Some("0"), body).unwrap();
    assert_eq!(command.product_type, ProductType::Membership);
    let unknown = CreateSpuBody {
        spu_no: "spu-1".to_owned(),
        title: "Pro membership".to_owned(),
        subtitle: None,
        description: None,
        product_type: "bundle".to_owned(),
        category_id: "200001".to_owned(),
    };
    assert_eq!(
        create_product_request("1", Some("0"), unknown).unwrap_err().message,
        "product_type `bundle` is not one of the permitted values: physical, digital, membership, points, service"
    );
}

fn sku_body() -> CreateSkuBody {
    CreateSkuBody {
        spu_id: "3001".to_owned(),
        sku_no: "SKU-1".to_owned(),
        name: "Tee".to_owned(),
        title: "Tee, red".to_owned(),
        price_amount: " 69.90 ".to_owned(),
        original_price_amount: Some("129.00".to_owned()),
        currency_code: "CNY".to_owned(),
        fulfillment_type: "physical".to_owned(),
        inventory_tracking: "quantity".to_owned(),
    }
}

#[test]
fn a_sku_request_parses_its_amounts_and_vocabularies() {
    let command = create_sku_request("100001", Some("0"), sku_body()).unwrap();
    assert_eq!(command.tenant_id, "100001");
    assert_eq!(command.organization_id, "0");
    assert_eq!(command.spu_id, "3001");
    assert_eq!(command.price_amount.as_str(), "69.90");
    assert_eq!(command.original_price_amount.as_ref().map(|m| m.as_str()), Some("129.00"));
    assert_eq!(command.fulfillment_type, FulfillmentType::PhysicalShipment);
    assert_eq!(command.inventory_tracking, InventoryTrackingMode::Counted);

    let anonymous = create_sku_request("100001", None, sku_body()).unwrap_err();
    assert_eq!(anonymous.message, "organization_id is required");

    let mut negative = sku_body();
    negative.price_amount = "-1".to_owned();
    let error = create_sku_request("100001", Some("0"), negative).unwrap_err();
    assert_eq!(error.kind, ServiceErrorKind::Validation);
    assert_eq!(error.message, "amount must be an unsigned decimal string");

    let mut untyped = sku_body();
    untyped.fulfillment_type = "drone".to_owned();
    let error = create_sku_request("100001", Some("0"), untyped).unwrap_err();
    assert!(error.message.starts_with("fulfillment_type"));
    assert!(error.message.contains("drone"));

    let mut blank = sku_body();
    blank.sku_no = " ".to_owned();
    let error = create_sku_request("100001", Some("0"), blank).unwrap_err();
    assert_eq!(error.message, "sku_no is required");
}

fn update_body() -> UpdateSkuBody {
    UpdateSkuBody {
        name: None,
        title: Some("Tee, blue".to_owned()),
        sale_price_minor: Some("6990".to_owned()),
        list_price_minor: Some(" 12900 ".to_owned()),
        currency_code: None,
        fulfillment_type: None,
        inventory_tracking: Some("none".to_owned()),
        status: Some("active".to_owned()),
        attribute_value_ids: Some(vec!["11".to_owned()]),
    }
}

#[test]
fn a_sku_update_request_carries_the_version_and_never_metadata() {
    let command = update_sku_request("100001", 4, "5001", update_body()).unwrap();
    assert_eq!(command.tenant_id, "100001");
    assert_eq!(command.expected_version, 4);
    assert_eq!(command.sku_id, "5001");
    assert_eq!(command.name, None);
    assert_eq!(command.title.as_deref(), Some("Tee, blue"));
    assert_eq!(command.sale_price_minor, Some(6990));
    assert_eq!(command.list_price_minor, Some(Some(12900)));
    assert_eq!(command.fulfillment_type, None);
    assert_eq!(command.inventory_tracking, Some(InventoryTrackingMode::Untracked));
    assert_eq!(command.status, Some(ProductStatus::Active));
    assert_eq!(command.attribute_value_ids, Some(vec!["11".to_owned()]));
    assert_eq!(command.metadata, None);

    let mut unpriced = update_body();
    unpriced.sale_price_minor = None;
    unpriced.list_price_minor = None;
    let kept = update_sku_request("100001", 4, "5001", unpriced).unwrap();
    assert_eq!(kept.sale_price_minor, None);
    assert_eq!(kept.list_price_minor, None);
}

#[test]
fn a_sku_update_request_is_refused_field_by_field() {
    let mut sale = update_body();
    sale.sale_price_minor = Some("12.5".to_owned());
    sale.list_price_minor = Some("x".to_owned());
    let error = update_sku_request("100001", 4, "5001", sale).unwrap_err();
    assert_eq!(error.kind, ServiceErrorKind::Validation);
    assert_eq!(error.message, "salePriceMinor must be a decimal int64 string, got `12.5`");

    let mut list = update_body();
    list.list_price_minor = Some("x".to_owned());
    let error = update_sku_request("100001", 4, "5001", list).unwrap_err();
    assert_eq!(error.message, "listPriceMinor must be a decimal int64 string, got `x`");

    let mut status = update_body();
    status.status = Some("gone".to_owned());
    let error = update_sku_request("100001", 4, "5001", status).unwrap_err();
    assert!(error.message.starts_with("status"));
    assert!(error.message.contains("gone"));

    let error = update_sku_request("100001", 4, " ", update_body()).unwrap_err();
    assert_eq!(error.message, "sku_id is required");
}
