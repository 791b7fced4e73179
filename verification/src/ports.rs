//! The catalog repository port's vocabulary: the writes it must support, the read models it
//! answers with, and the outcome of a write guarded by a version precondition.
use vstd::prelude::*;

verus! {

/// The name under which the catalog repository port is required.
pub const CATALOG_REPOSITORY_PORT: &'static str = "catalog.repository";

/// The name under which the idempotency repository port is required.
pub const IDEMPOTENCY_REPOSITORY_PORT: &'static str = "idempotency.repository";

/// One write the catalog repository port is required to support.
#[derive(Clone, Copy, Debug, PartialEq, Eq, Structural)]
pub enum CatalogRepositoryCommand {
    CreateCategory,
    UpdateCategory,
    DeleteCategory,
    CreateAttribute,
    BindCategoryAttribute,
    UpdateCategoryAttribute,
    DeleteCategoryAttribute,
    CreateSpu,
    UpdateSpu,
    DeleteSpu,
    PublishSpu,
    ArchiveSpu,
    CreateSku,
    UpdateSku,
    DeleteSku,
    CreatePriceList,
    UpdatePriceList,
    CreateMedia,
    UpdateMedia,
    DeleteMedia,
}

/// The writes every catalog repository must support, in their published order: the category
/// tree, the attribute dictionary and its category bindings, the SPU lifecycle, the SKUs, and the
/// price lists.
pub open spec fn standard_command_list() -> Seq<CatalogRepositoryCommand> {
    seq![
        CatalogRepositoryCommand::CreateCategory,
        CatalogRepositoryCommand::UpdateCategory,
        CatalogRepositoryCommand::DeleteCategory,
        CatalogRepositoryCommand::CreateAttribute,
        CatalogRepositoryCommand::BindCategoryAttribute,
        CatalogRepositoryCommand::UpdateCategoryAttribute,
        CatalogRepositoryCommand::DeleteCategoryAttribute,
        CatalogRepositoryCommand::CreateSpu,
        CatalogRepositoryCommand::UpdateSpu,
        CatalogRepositoryCommand::DeleteSpu,
        CatalogRepositoryCommand::PublishSpu,
        CatalogRepositoryCommand::ArchiveSpu,
        CatalogRepositoryCommand::CreateSku,
        CatalogRepositoryCommand::UpdateSku,
        CatalogRepositoryCommand::DeleteSku,
        CatalogRepositoryCommand::CreatePriceList,
        CatalogRepositoryCommand::UpdatePriceList,
    ]
}

/// The completeness contract of the catalog repository port.
pub struct CatalogPortRequirement;

impl CatalogPortRequirement {
    /// Every write the catalog repository port is required to support; a host wiring only a
    /// subset cannot serve the published route set.
    pub fn standard_commands() -> (r: Vec<CatalogRepositoryCommand>)
        ensures
            r@ == standard_command_list(),
    {
        let r = vec![
            CatalogRepositoryCommand::CreateCategory,
            CatalogRepositoryCommand::UpdateCategory,
            CatalogRepositoryCommand::DeleteCategory,
            CatalogRepositoryCommand::CreateAttribute,
            CatalogRepositoryCommand::BindCategoryAttribute,
            CatalogRepositoryCommand::UpdateCategoryAttribute,
            CatalogRepositoryCommand::DeleteCategoryAttribute,
            CatalogRepositoryCommand::CreateSpu,
            CatalogRepositoryCommand::UpdateSpu,
            CatalogRepositoryCommand::DeleteSpu,
            CatalogRepositoryCommand::PublishSpu,
            CatalogRepositoryCommand::ArchiveSpu,
            CatalogRepositoryCommand::CreateSku,
            CatalogRepositoryCommand::UpdateSku,
            CatalogRepositoryCommand::DeleteSku,
            CatalogRepositoryCommand::CreatePriceList,
            CatalogRepositoryCommand::UpdatePriceList,
        ];
        assert(r@ =~= standard_command_list());
        r
    }
}

/// Read model of one category. `path` is self-inclusive (`/1000/` for a root, `/1000/1010/` for
/// its child) and `depth` counts the ancestors, so a root has depth 0.
#[derive(Clone, Debug)]
pub struct CategoryRecord {
    pub id: i64,
    pub tenant_id: i64,
    pub organization_id: i64,
    pub category_no: String,
    pub parent_id: Option<i64>,
    pub path: String,
    pub depth: i64,
    pub is_leaf: bool,
    pub name: String,
    pub sort_order: i64,
    pub status: String,
    /// The row's optimistic-concurrency version: the one to name in the next precondition.
    pub version: i64,
    pub created_at: String,
    pub updated_at: String,
}

/// Read model of one attribute of the dictionary.
#[derive(Clone, Debug)]
pub struct AttributeRecord {
    pub id: i64,
    pub tenant_id: i64,
    pub organization_id: i64,
    pub attribute_no: String,
    pub name: String,
    pub value_type: String,
    pub status: String,
    pub sort_order: i64,
    /// The row's optimistic-concurrency version.
    pub version: i64,
    pub created_at: String,
    pub updated_at: String,
}

/// Read model of one enumerated value of an attribute.
#[derive(Clone, Debug)]
pub struct AttributeValueRecord {
    pub id: i64,
    pub tenant_id: i64,
    pub attribute_id: i64,
    pub value_code: String,
    pub display_value: String,
    pub sort_order: i64,
    pub status: String,
}

/// Read model of one SPU. `sales_status` is derived from `status` on every write.
#[derive(Clone, Debug)]
pub struct SpuRecord {
    pub id: i64,
    pub tenant_id: i64,
    pub organization_id: i64,
    pub spu_no: String,
    pub category_id: i64,
    pub name: String,
    pub title: Option<String>,
    pub subtitle: Option<String>,
    pub description: Option<String>,
    pub product_type: String,
    pub status: String,
    pub sales_status: String,
    pub published_at: Option<String>,
    /// The row's optimistic-concurrency version.
    pub version: i64,
    pub created_at: String,
    pub updated_at: String,
}

/// Read model of one SKU axis: the attribute and the value the SKU carries on it, with the
/// business keys its variant signature is written in.
#[derive(Clone, Debug)]
pub struct SkuAxisRecord {
    pub attribute_id: i64,
    pub attribute_value_id: i64,
    pub attribute_no: String,
    pub value_code: String,
    pub display_value: String,
    pub sort_order: i64,
}

/// Read model of one SKU. Money is exact integer minor units plus the scale snapshotted at write
/// time; `metadata` is the capability-owned JSON document, carried verbatim as text.
#[derive(Clone, Debug)]
pub struct SkuRecord {
    pub id: i64,
    pub tenant_id: i64,
    pub organization_id: i64,
    pub spu_id: i64,
    pub sku_no: String,
    pub variant_signature: String,
    pub name: Option<String>,
    pub title: Option<String>,
    pub currency_code: String,
    pub price_scale: i64,
    pub sale_price_minor: i64,
    pub list_price_minor: Option<i64>,
    pub fulfillment_type: String,
    pub inventory_tracking: String,
    pub status: String,
    pub sales_status: String,
    pub published_at: Option<String>,
    /// The row's optimistic-concurrency version.
    pub version: i64,
    pub created_at: String,
    pub updated_at: String,
    pub attribute_values: Vec<SkuAxisRecord>,
    pub metadata: String,
}

/// Read model of one price list.
#[derive(Clone, Debug)]
pub struct PriceListRecord {
    pub id: i64,
    pub tenant_id: i64,
    pub organization_id: i64,
    pub price_list_no: String,
    pub name: String,
    pub currency_code: String,
    pub market_code: Option<String>,
    pub status: String,
    pub starts_at: Option<String>,
    pub ends_at: Option<String>,
    /// The row's optimistic-concurrency version.
    pub version: i64,
    pub created_at: String,
    pub updated_at: String,
}

/// Read model of one attribute bound into a category's template.
#[derive(Clone, Debug)]
pub struct CategoryAttributeRecord {
    pub id: i64,
    pub tenant_id: i64,
    pub organization_id: i64,
    pub category_id: i64,
    pub attribute_id: i64,
    pub attribute_role: String,
    pub source_category_id: Option<i64>,
    pub required: bool,
    pub searchable: bool,
    pub filterable: bool,
    pub comparable: bool,
    pub sort_order: i64,
    pub status: String,
    /// The row's optimistic-concurrency version.
    pub version: i64,
    pub created_at: String,
    pub updated_at: String,
}

/// Read model of one media attachment; `resource_snapshot` is the stored JSON document, as text.
#[derive(Clone, Debug)]
pub struct MediaRecord {
    pub id: i64,
    pub tenant_id: i64,
    pub organization_id: i64,
    pub owner_type: String,
    pub owner_id: i64,
    pub media_role: String,
    pub media_resource_id: i64,
    pub resource_snapshot: String,
    pub alt_text: Option<String>,
    pub sort_order: i64,
    pub status: String,
    /// The row's optimistic-concurrency version.
    pub version: i64,
    pub created_at: String,
    pub updated_at: String,
}

/// A live row that has moved past the version a guarded write named.
#[derive(Clone, Copy, Debug, PartialEq, Eq, Structural)]
pub struct StaleVersion {
    /// The version the request's precondition named.
    pub expected: i64,
    /// The version the row actually carries now.
    pub actual: i64,
}

/// The outcome of a write that carries a version precondition: applied, or refused because the
/// row moved on. A missing row is an error, not one of these.
#[derive(Clone, Debug, PartialEq, Eq)]
pub enum GuardedWrite<T> {
    /// The statement matched on the caller's version.
    Applied(T),
    /// The row is live but carries another version, so nothing was written.
    StaleVersion(StaleVersion),
}

/// One offset page of a catalog collection. `total_items` counts the whole filtered set, not
/// `items`.
#[derive(Debug)]
pub struct CatalogOffsetPage<T> {
    pub items: Vec<T>,
    pub page: i64,
    pub page_size: i64,
    pub total_items: i64,
}

/// The page number a list answers with: the requested one, else the first.
pub open spec fn effective_page(page: Option<i64>) -> i64 {
    match page {
        Some(p) => p,
        None => 1,
    }
}

/// The page size a list answers with: the requested one, else twenty.
pub open spec fn effective_page_size(page_size: Option<i64>) -> i64 {
    match page_size {
        Some(s) => s,
        None => 20,
    }
}

impl<T> CatalogOffsetPage<T> {
    /// Builds a page, filling in the port's pagination defaults (page 1, twenty rows).
    pub fn new(items: Vec<T>, page: Option<i64>, page_size: Option<i64>, total_items: i64) -> (r:
        Self)
        ensures
            r.items@ == items@,
            r.page == effective_page(page),
            r.page_size == effective_page_size(page_size),
            r.total_items == total_items,
    {
        let page = match page {
            Some(p) => p,
            None => 1,
        };
        let page_size = match page_size {
            Some(s) => s,
            None => 20,
        };
        CatalogOffsetPage { items, page, page_size, total_items }
    }
}

} // verus!
