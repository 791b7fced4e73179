use merchandise_catalog::catalog_store::{map_sku, CatalogOffsetPage};
use merchandise_catalog::envelope::{offset_page_info, single_page_info};
use merchandise_catalog::host::{assembly_route_count, default_seed_locale, default_seed_profile};
use merchandise_catalog::ports::{self, SkuRecord};
use merchandise_catalog::router::{catalog_routes, parse_int64, HttpMethod};
use merchandise_catalog::service::catalog_service_contract;

#[test]
fn an_unpaginated_list_is_one_full_page() {
    let info = single_page_info(3);
    assert_eq!(info.page, Some(1));
    assert_eq!(info.page_size, Some(3));
    assert_eq!(info.total_items.as_deref(), Some("3"));
    assert_eq!(info.total_pages, Some(1));
    assert_eq!(info.has_more, Some(false));
}

#[test]
fn page_counts_round_up_and_oversized_numbers_are_omitted() {
    let last = offset_page_info(3, 20, 41);
    assert_eq!(last.total_pages, Some(3));
    assert_eq!(last.has_more, Some(false));
    let huge = offset_page_info(1, 1, 5_000_000_000);
    assert_eq!(huge.total_pages, None);
    assert_eq!(huge.total_items.as_deref(), Some("5000000000"));
    assert_eq!(huge.has_more, Some(true));
}

#[test]
fn pages_default_to_the_first_twenty_rows() {
    let page = ports::CatalogOffsetPage::new(vec![1, 2], None, None, 2);
    assert_eq!((page.page, page.page_size, page.total_items), (1, 20, 2));
    let chosen = CatalogOffsetPage::new(Vec::<u8>::new(), Some(3), Some(50), 120);
    assert_eq!((chosen.page, chosen.page_size, chosen.total_items), (3, 50, 120));
}

#[test]
fn a_sku_response_carries_its_record_fields() {
    let record = SkuRecord {
        id: 9,
        tenant_id: 1,
        organization_id: 0,
        spu_id: 8,
        sku_no: "sku-9".to_owned(),
        variant_signature: "tier=basic".to_owned(),
        name: Some("Nine".to_owned()),
        title: None,
        currency_code: "CNY".to_owned(),
        price_scale: 2,
        sale_price_minor: 6990,
        list_price_minor: Some(12900),
        fulfillment_type: "membership_activation".to_owned(),
        inventory_tracking: "none".to_owned(),
        status: "active".to_owned(),
        sales_status: "active".to_owned(),
        published_at: None,
        version: 4,
        created_at: "2024-01-01T00:00:00.000Z".to_owned(),
        updated_at: "2024-01-02T00:00:00.000Z".to_owned(),
        attribute_values: Vec::new(),
        metadata: "{}".to_owned(),
    };
    let response = map_sku(record);
    assert_eq!(response.id, 9);
    assert_eq!(response.spu_id, 8);
    assert_eq!(response.variant_signature, "tier=basic");
    assert_eq!(response.sale_price_minor, 6990);
    assert_eq!(response.list_price_minor, Some(12900));
    assert_eq!(response.price_scale, 2);
}

#[test]
fn every_route_operation_is_a_declared_capability_and_back() {
    let routes = catalog_routes();
    let contract = catalog_service_contract();
    let mut declared: Vec<&str> = contract
        .write_commands
        .iter()
        .chain(contract.read_queries.iter())
        .copied()
        .collect();
    let mut served: Vec<&str> = routes.iter().map(|route| route.operation).collect();
    declared.sort_unstable();
    served.sort_unstable();
    assert_eq!(declared, served);
    assert_eq!(routes.len(), 28);
    let publish = routes.iter().find(|route| route.operation == "products.publish").unwrap();
    assert_eq!(publish.method, HttpMethod::Post);
    assert_eq!(publish.path, "/backend/v3/api/catalog/products/{productId}/publish");
}

#[test]
fn int64_text_written_by_a_response_parses_back() {
    for value in [0i64, 7, -12, i64::MAX, i64::MIN] {
        assert_eq!(parse_int64("id", &value.to_string()), Ok(value));
    }
}

#[test]
fn the_host_defaults_are_fixed() {
    assert_eq!(default_seed_locale(), "zh-CN");
    assert_eq!(default_seed_profile(), "standard");
    assert_eq!(assembly_route_count(), 1);
}
