use merchandise_catalog::commands::{
    CreateAttributeCommand, CreateCategoryCommand, CreateProductSkuCommand, CreateProductSpuCommand,
};
use merchandise_catalog::contract::CommerceMoney;
use merchandise_catalog::domain::{
    FulfillmentType, InventoryTrackingMode, LifecycleStatus, ProductStatus, ProductType,
};
use merchandise_catalog::ports::{CatalogPortRequirement, CatalogRepositoryCommand};
use merchandise_catalog::queries::ProductSkuListQuery;
use merchandise_catalog::service::catalog_service_contract;

const TENANT_ID: &str = "100001";
const ORGANIZATION_ID: &str = "0";

#[test]
fn catalog_repository_contract_exposes_required_commands() {
    assert_eq!(
        CatalogPortRequirement::standard_commands(),
        vec![
            CatalogRepositoryCommand::CreateCategory,
            CatalogRepositoryCommand::UpdateCategory,
            CatalogRepositoryCommand::DeleteCategory,
            CatalogRepositoryCommand::CreateAttribute,
            CatalogRepositoryCommand::BindCategoryAttribute,
            CatalogRepositoryCommand::UpdateCategoryAttribute,
            CatalogRepositoryCommand::DeleteCategoryAttribute,
            CatalogRepositoryCommand::CreateSpu,
            CatalogRepositoryCommand::UpdateSpu,
            CatalogRepositoryCommand::DeleteSpu,
            CatalogRepositoryCommand::PublishSpu,
            CatalogRepositoryCommand::ArchiveSpu,
            CatalogRepositoryCommand::CreateSku,
            CatalogRepositoryCommand::UpdateSku,
            CatalogRepositoryCommand::DeleteSku,
            CatalogRepositoryCommand::CreatePriceList,
            CatalogRepositoryCommand::UpdatePriceList,
        ],
    );
}

#[test]
fn catalog_service_contract_exposes_domain_operations() {
    let contract = catalog_service_contract();

    assert_eq!(contract.domain, "catalog");
    assert_eq!(contract.service_name, "commerce.catalog");
    assert!(contract.validate().is_ok());
    for query in [
        "categories.management.list",
        "attributes.management.list",
        "priceLists.list",
        "categoryAttributes.list",
        "products.management.list",
        "products.management.retrieve",
        "skus.list",
    ] {
        assert!(
            contract.read_queries.contains(&query),
            "catalog contract must expose read query {query}",
        );
    }
    for command in [
        "categories.create",
        "categories.update",
        "categories.delete",
        "attributes.create",
        "categoryAttributes.create",
        "categoryAttributes.update",
        "categoryAttributes.delete",
        "priceLists.create",
        "priceLists.update",
        "products.create",
        "products.update",
        "products.delete",
        "products.publish",
        "products.archive",
        "skus.create",
        "skus.update",
        "skus.delete",
    ] {
        assert!(
            contract.write_commands.contains(&command),
            "catalog contract must expose write command {command}",
        );
    }
}

#[test]
fn product_spu_command_owns_the_product_type_vocabulary() {
    let command = CreateProductSpuCommand {
        tenant_id: TENANT_ID.to_owned(),
        organization_id: ORGANIZATION_ID.to_owned(),
        spu_no: "spu-membership-pro".to_owned(),
        title: "Pro membership".to_owned(),
        subtitle: Some("Yearly billing".to_owned()),
        description: None,
        product_type: ProductType::Membership,
        category_id: "200001".to_owned(),
    };
    assert!(command.validate().is_ok());

    assert_eq!(ProductType::Physical.as_storage_str(), "physical");
    assert_eq!(ProductType::Virtual.as_storage_str(), "digital");
    assert_eq!(ProductType::Membership.as_storage_str(), "membership");
    assert_eq!(ProductType::PointsRecharge.as_storage_str(), "points");
    assert_eq!(ProductType::Service.as_storage_str(), "service");
    assert_eq!(ProductStatus::Active.as_storage_str(), "active");

    let mut homeless = command.clone();
    homeless.category_id = "   ".to_owned();
    assert!(
        homeless.validate().is_err(),
        "a blank category_id must be rejected at the boundary, not at INSERT time"
    );

    let mut anonymous = command;
    anonymous.spu_no = String::new();
    assert!(anonymous.validate().is_err());
}

#[test]
fn product_sku_command_owns_the_fulfillment_and_inventory_vocabulary() {
    let command = CreateProductSkuCommand {
        tenant_id: TENANT_ID.to_owned(),
        organization_id: ORGANIZATION_ID.to_owned(),
        spu_id: "300001".to_owned(),
        sku_no: "sku-membership-month-pro".to_owned(),
        name: "Monthly Pro membership".to_owned(),
        title: "Monthly Pro membership".to_owned(),
        price_amount: CommerceMoney::new("69.90").unwrap(),
        original_price_amount: Some(CommerceMoney::new("129.00").unwrap()),
        currency_code: "CNY".to_owned(),
        fulfillment_type: FulfillmentType::MembershipActivation,
        inventory_tracking: InventoryTrackingMode::Untracked,
    };
    assert!(command.validate().is_ok());

    assert_eq!(FulfillmentType::PhysicalShipment.as_storage_str(), "physical");
    assert_eq!(FulfillmentType::VirtualDelivery.as_storage_str(), "digital");
    assert_eq!(
        FulfillmentType::MembershipActivation.as_storage_str(),
        "membership_activation"
    );
    assert_eq!(FulfillmentType::PointsCredit.as_storage_str(), "points_topup");
    assert_eq!(FulfillmentType::NoDelivery.as_storage_str(), "service");
    assert_eq!(InventoryTrackingMode::Counted.as_storage_str(), "quantity");
    assert_eq!(InventoryTrackingMode::Untracked.as_storage_str(), "none");

    let mut priceless = command;
    priceless.currency_code = String::new();
    assert!(priceless.validate().is_err());
}

#[test]
fn category_and_attribute_commands_own_their_write_vocabulary() {
    let category = CreateCategoryCommand {
        tenant_id: TENANT_ID.to_owned(),
        organization_id: ORGANIZATION_ID.to_owned(),
        category_no: "cat-membership".to_owned(),
        parent_id: None,
        name: "Membership".to_owned(),
        sort_order: 100,
    };
    assert!(category.validate().is_ok());

    let attribute = CreateAttributeCommand {
        tenant_id: TENANT_ID.to_owned(),
        organization_id: ORGANIZATION_ID.to_owned(),
        attribute_no: "attr-duration".to_owned(),
        name: "Duration".to_owned(),
        values: vec!["30 days".to_owned(), "365 days".to_owned()],
    };
    assert!(attribute.validate().is_ok());

    let mut open_ended = attribute.clone();
    open_ended.values = Vec::new();
    assert!(open_ended.validate().is_ok());

    let mut blank = attribute.clone();
    blank.values = vec!["   ".to_owned()];
    assert!(blank.validate().is_err());

    let mut over_long = attribute;
    over_long.values = vec!["x".repeat(201)];
    assert!(over_long.validate().is_err());

    assert_eq!(LifecycleStatus::Active.as_storage_str(), "active");
    assert_eq!(LifecycleStatus::Inactive.as_storage_str(), "inactive");
    assert!(LifecycleStatus::from_storage_str("status", "deleted").is_err());
}

#[test]
fn product_sku_page_size_is_bounded() {
    let error = ProductSkuListQuery::new(
        "tenant-1",
        None,
        Some("product-1"),
        None,
        Some("active"),
        Some(1),
        Some(201),
    )
    .unwrap_err();

    assert_eq!(error.message(), "page_size must be between 1 and 200");
}
