//! The HTTP surface's plain data: query parameters, request bodies, response shapes, and the
//! mappers from the repository's read models to the responses. Serialization lives with the
//! transport; every field here is the value it carries.
use vstd::prelude::*;

use crate::ports::{
    AttributeRecord, CategoryAttributeRecord, CategoryRecord, PriceListRecord, SkuRecord, SpuRecord,
};

verus! {

/// One offset page of a catalog collection; `total_items` counts the whole filtered set.
#[derive(Debug)]
pub struct CatalogOffsetPage<T> {
    pub items: Vec<T>,
    pub page: i64,
    pub page_size: i64,
    pub total_items: i64,
}

impl<T> CatalogOffsetPage<T> {
    /// Builds a page, filling in the pagination defaults (page 1, twenty rows).
    pub fn new(items: Vec<T>, page: Option<i64>, page_size: Option<i64>, total_items: i64) -> (r:
        Self)
        ensures
            r.items@ == items@,
            r.page == crate::ports::effective_page(page),
            r.page_size == crate::ports::effective_page_size(page_size),
            r.total_items == total_items,
    {
        let page = match page {
            Some(p) => p,
            None => 1,
        };
        let page_size = match page_size {
            Some(s) => s,
            None => 20,
        };
        CatalogOffsetPage { items, page, page_size, total_items }
    }
}

/// Query parameters of the category collection. Organization scope comes from the
/// authenticated context, never from a parameter.
#[derive(Clone, Debug)]
pub struct CategoryQueryParams {
    pub parent_id: Option<String>,
    pub status: Option<String>,
    pub page: Option<i64>,
    pub page_size: Option<i64>,
}

/// Query parameters of the attribute dictionary collection.
#[derive(Clone, Debug)]
pub struct AttributeQueryParams {
    pub status: Option<String>,
    pub page: Option<i64>,
    pub page_size: Option<i64>,
}

/// Query parameters of the price-list collection.
#[derive(Clone, Debug)]
pub struct PriceListQueryParams {
    pub currency_code: Option<String>,
    pub market_code: Option<String>,
    pub status: Option<String>,
    pub page: Option<i64>,
    pub page_size: Option<i64>,
}

/// Query parameters of the category-attribute binding collection.
#[derive(Clone, Debug)]
pub struct CategoryAttributeQueryParams {
    pub category_id: Option<String>,
    pub attribute_id: Option<String>,
    pub status: Option<String>,
    pub page: Option<i64>,
    pub page_size: Option<i64>,
}

/// Query parameters of the product collection; `q` is free-text search over the product's
/// identifier and titles.
#[derive(Clone, Debug)]
pub struct ProductListQueryParams {
    pub q: Option<String>,
    pub category_id: Option<String>,
    pub product_type: Option<String>,
    pub status: Option<String>,
    pub sort: Option<String>,
    pub page: Option<i64>,
    pub page_size: Option<i64>,
}

/// Query parameters of the SKU collection; `product_id` selects the SKUs of one SPU.
#[derive(Clone, Debug)]
pub struct SkuListQueryParams {
    pub product_id: Option<String>,
    pub status: Option<String>,
    pub page: Option<i64>,
    pub page_size: Option<i64>,
}

/// Create-category body; `sort_order` is an int64 string.
#[derive(Clone, Debug)]
pub struct CreateCategoryBody {
    pub category_no: String,
    pub parent_id: Option<String>,
    pub name: String,
    pub sort_order: Option<String>,
}

/// Update-category body; omitted fields stay as they are.
#[derive(Clone, Debug)]
pub struct UpdateCategoryBody {
    pub parent_id: Option<String>,
    pub name: Option<String>,
    pub sort_order: Option<String>,
    pub status: Option<String>,
}

/// Create-attribute body.
#[derive(Clone, Debug)]
pub struct CreateAttributeBody {
    pub attribute_no: String,
    pub name: String,
    pub values: Option<Vec<String>>,
}

/// Create-price-list body.
#[derive(Clone, Debug)]
pub struct CreatePriceListBody {
    pub price_list_no: String,
    pub currency_code: String,
    pub market_code: Option<String>,
}

/// Update-price-list body.
#[derive(Clone, Debug)]
pub struct UpdatePriceListBody {
    pub status: Option<String>,
    pub starts_at: Option<String>,
    pub ends_at: Option<String>,
}

/// Create body of one category attribute binding; an omitted `role` is `parameter`, the
/// one role that never splits a SKU.
#[derive(Clone, Debug)]
pub struct CreateCategoryAttributeBody {
    pub category_id: String,
    pub attribute_id: String,
    pub role: Option<String>,
    pub required: Option<bool>,
    pub searchable: Option<bool>,
    pub filterable: Option<bool>,
    pub comparable: Option<bool>,
    pub source_category_id: Option<String>,
    pub sort_order: Option<String>,
}

/// Update body of one category attribute binding.
#[derive(Clone, Debug)]
pub struct UpdateCategoryAttributeBody {
    pub role: Option<String>,
    pub required: Option<bool>,
    pub searchable: Option<bool>,
    pub filterable: Option<bool>,
    pub comparable: Option<bool>,
    pub sort_order: Option<String>,
    pub status: Option<String>,
}

/// Create-SPU body; `category_id` is required.
#[derive(Clone, Debug)]
pub struct CreateSpuBody {
    pub spu_no: String,
    pub title: String,
    pub subtitle: Option<String>,
    pub description: Option<String>,
    pub product_type: String,
    pub category_id: String,
}

/// Update-SPU body.
#[derive(Clone, Debug)]
pub struct UpdateSpuBody {
    pub title: Option<String>,
    pub subtitle: Option<String>,
    pub description: Option<String>,
    pub category_id: Option<String>,
}

/// Create-SKU body; amounts are major-denomination decimals.
#[derive(Clone, Debug)]
pub struct CreateSkuBody {
    pub spu_id: String,
    pub sku_no: String,
    pub name: String,
    pub title: String,
    pub price_amount: String,
    pub original_price_amount: Option<String>,
    pub currency_code: String,
    pub fulfillment_type: String,
    pub inventory_tracking: String,
}

/// Update-SKU body; prices are minor units written as int64 strings, and the route carries no
/// metadata field.
#[derive(Clone, Debug)]
pub struct UpdateSkuBody {
    pub name: Option<String>,
    pub title: Option<String>,
    pub sale_price_minor: Option<String>,
    pub list_price_minor: Option<String>,
    pub currency_code: Option<String>,
    pub fulfillment_type: Option<String>,
    pub inventory_tracking: Option<String>,
    pub status: Option<String>,
    pub attribute_value_ids: Option<Vec<String>>,
}

/// Read model of one price-list entry: the price of one SKU in one price list, in minor units.
#[derive(Clone, Debug)]
pub struct PriceListItemRecord {
    pub id: i64,
    pub tenant_id: i64,
    pub price_list_id: i64,
    pub sku_id: i64,
    pub currency_code: String,
    pub price_scale: i64,
    pub price_minor: i64,
}

/// A category as the API answers it.
#[derive(Clone, Debug)]
pub struct CategoryResponse {
    pub id: i64,
    pub category_no: String,
    pub parent_id: Option<i64>,
    pub path: String,
    pub depth: i64,
    pub is_leaf: bool,
    pub name: String,
    pub sort_order: i64,
    pub status: String,
    pub created_at: String,
    pub updated_at: String,
}

/// An attribute as the API answers it.
#[derive(Clone, Debug)]
pub struct AttributeResponse {
    pub id: i64,
    pub attribute_no: String,
    pub name: String,
    pub value_type: String,
    pub status: String,
    pub sort_order: i64,
    pub created_at: String,
    pub updated_at: String,
}

/// A product (SPU) as the API answers it.
#[derive(Clone, Debug)]
pub struct SpuResponse {
    pub id: i64,
    pub spu_no: String,
    pub category_id: i64,
    pub name: String,
    pub title: Option<String>,
    pub subtitle: Option<String>,
    pub description: Option<String>,
    pub product_type: String,
    pub status: String,
    pub sales_status: String,
    pub published_at: Option<String>,
    pub created_at: String,
    pub updated_at: String,
}

/// A SKU as the API answers it: money as exact minor units plus the scale snapshotted on the row.
#[derive(Clone, Debug)]
pub struct SkuResponse {
    pub id: i64,
    pub spu_id: i64,
    pub sku_no: String,
    pub variant_signature: String,
    pub name: Option<String>,
    pub title: Option<String>,
    pub currency_code: String,
    pub price_scale: i64,
    pub sale_price_minor: i64,
    pub list_price_minor: Option<i64>,
    pub fulfillment_type: String,
    pub inventory_tracking: String,
    pub status: String,
    pub sales_status: String,
    pub published_at: Option<String>,
    pub created_at: String,
    pub updated_at: String,
}

/// A price list as the API answers it.
#[derive(Clone, Debug)]
pub struct PriceListResponse {
    pub id: i64,
    pub tenant_id: i64,
    pub organization_id: i64,
    pub price_list_no: String,
    pub name: String,
    pub currency_code: String,
    pub market_code: Option<String>,
    pub status: String,
    pub starts_at: Option<String>,
    pub ends_at: Option<String>,
    pub created_at: String,
    pub updated_at: String,
}

/// A price-list entry as the API answers it.
#[derive(Clone, Debug)]
pub struct PriceListItemResponse {
    pub id: i64,
    pub tenant_id: i64,
    pub price_list_id: i64,
    pub sku_id: i64,
    pub currency_code: String,
    pub price_scale: i64,
    pub price_minor: i64,
}

/// A category attribute binding as the API answers it.
#[derive(Clone, Debug)]
pub struct CategoryAttributeResponse {
    pub id: i64,
    pub tenant_id: i64,
    pub organization_id: i64,
    pub category_id: i64,
    pub attribute_id: i64,
    pub attribute_role: String,
    pub source_category_id: Option<i64>,
    pub required: bool,
    pub searchable: bool,
    pub filterable: bool,
    pub comparable: bool,
    pub sort_order: i64,
    pub status: String,
    pub created_at: String,
    pub updated_at: String,
}

/// A category record as its response.
pub fn map_category(value: CategoryRecord) -> (r: CategoryResponse)
    ensures
        r.id == value.id,
        r.category_no == value.category_no,
        r.parent_id == value.parent_id,
        r.path == value.path,
        r.depth == value.depth,
        r.is_leaf == value.is_leaf,
        r.name == value.name,
        r.sort_order == value.sort_order,
        r.status == value.status,
        r.created_at == value.created_at,
        r.updated_at == value.updated_at,
{
    CategoryResponse {
        id: value.id,
        category_no: value.category_no,
        parent_id: value.parent_id,
        path: value.path,
        depth: value.depth,
        is_leaf: value.is_leaf,
        name: value.name,
        sort_order: value.sort_order,
        status: value.status,
        created_at: value.created_at,
        updated_at: value.updated_at,
    }
}

/// An attribute record as its response.
pub fn map_attribute(value: AttributeRecord) -> (r: AttributeResponse)
    ensures
        r.id == value.id,
        r.attribute_no == value.attribute_no,
        r.name == value.name,
        r.value_type == value.value_type,
        r.status == value.status,
        r.sort_order == value.sort_order,
        r.created_at == value.created_at,
        r.updated_at == value.updated_at,
{
    AttributeResponse {
        id: value.id,
        attribute_no: value.attribute_no,
        name: value.name,
        value_type: value.value_type,
        status: value.status,
        sort_order: value.sort_order,
        created_at: value.created_at,
        updated_at: value.updated_at,
    }
}

/// An SPU record as its response.
pub fn map_spu(value: SpuRecord) -> (r: SpuResponse)
    ensures
        r.id == value.id,
        r.spu_no == value.spu_no,
        r.category_id == value.category_id,
        r.name == value.name,
        r.title == value.title,
        r.subtitle == value.subtitle,
        r.description == value.description,
        r.product_type == value.product_type,
        r.status == value.status,
        r.sales_status == value.sales_status,
        r.published_at == value.published_at,
        r.created_at == value.created_at,
        r.updated_at == value.updated_at,
{
    SpuResponse {
        id: value.id,
        spu_no: value.spu_no,
        category_id: value.category_id,
        name: value.name,
        title: value.title,
        subtitle: value.subtitle,
        description: value.description,
        product_type: value.product_type,
        status: value.status,
        sales_status: value.sales_status,
        published_at: value.published_at,
        created_at: value.created_at,
        updated_at: value.updated_at,
    }
}

/// A SKU record as its response; its axes and metadata are not part of the response.
pub fn map_sku(value: SkuRecord) -> (r: SkuResponse)
    ensures
        r.id == value.id,
        r.spu_id == value.spu_id,
        r.sku_no == value.sku_no,
        r.variant_signature == value.variant_signature,
        r.name == value.name,
        r.title == value.title,
        r.currency_code == value.currency_code,
        r.price_scale == value.price_scale,
        r.sale_price_minor == value.sale_price_minor,
        r.list_price_minor == value.list_price_minor,
        r.fulfillment_type == value.fulfillment_type,
        r.inventory_tracking == value.inventory_tracking,
        r.status == value.status,
        r.sales_status == value.sales_status,
        r.published_at == value.published_at,
        r.created_at == value.created_at,
        r.updated_at == value.updated_at,
{
    SkuResponse {
        id: value.id,
        spu_id: value.spu_id,
        sku_no: value.sku_no,
        variant_signature: value.variant_signature,
        name: value.name,
        title: value.title,
        currency_code: value.currency_code,
        price_scale: value.price_scale,
        sale_price_minor: value.sale_price_minor,
        list_price_minor: value.list_price_minor,
        fulfillment_type: value.fulfillment_type,
        inventory_tracking: value.inventory_tracking,
        status: value.status,
        sales_status: value.sales_status,
        published_at: value.published_at,
        created_at: value.created_at,
        updated_at: value.updated_at,
    }
}

/// A price-list record as its response.
pub fn map_price_list(value: PriceListRecord) -> (r: PriceListResponse)
    ensures
        r.id == value.id,
        r.tenant_id == value.tenant_id,
        r.organization_id == value.organization_id,
        r.price_list_no == value.price_list_no,
        r.name == value.name,
        r.currency_code == value.currency_code,
        r.market_code == value.market_code,
        r.status == value.status,
        r.starts_at == value.starts_at,
        r.ends_at == value.ends_at,
        r.created_at == value.created_at,
        r.updated_at == value.updated_at,
{
    PriceListResponse {
        id: value.id,
        tenant_id: value.tenant_id,
        organization_id: value.organization_id,
        price_list_no: value.price_list_no,
        name: value.name,
        currency_code: value.currency_code,
        market_code: value.market_code,
        status: value.status,
        starts_at: value.starts_at,
        ends_at: value.ends_at,
        created_at: value.created_at,
        updated_at: value.updated_at,
    }
}

/// A price-list entry as its response.
pub fn map_price_list_item(value: PriceListItemRecord) -> (r: PriceListItemResponse)
    ensures
        r.id == value.id,
        r.tenant_id == value.tenant_id,
        r.price_list_id == value.price_list_id,
        r.sku_id == value.sku_id,
        r.currency_code == value.currency_code,
        r.price_scale == value.price_scale,
        r.price_minor == value.price_minor,
{
    PriceListItemResponse {
        id: value.id,
        tenant_id: value.tenant_id,
        price_list_id: value.price_list_id,
        sku_id: value.sku_id,
        currency_code: value.currency_code,
        price_scale: value.price_scale,
        price_minor: value.price_minor,
    }
}

/// A category attribute binding as its response.
pub fn map_category_attribute(value: CategoryAttributeRecord) -> (r: CategoryAttributeResponse)
    ensures
        r.id == value.id,
        r.tenant_id == value.tenant_id,
        r.organization_id == value.organization_id,
        r.category_id == value.category_id,
        r.attribute_id == value.attribute_id,
        r.attribute_role == value.attribute_role,
        r.source_category_id == value.source_category_id,
        r.required == value.required,
        r.searchable == value.searchable,
        r.filterable == value.filterable,
        r.comparable == value.comparable,
        r.sort_order == value.sort_order,
        r.status == value.status,
        r.created_at == value.created_at,
        r.updated_at == value.updated_at,
{
    CategoryAttributeResponse {
        id: value.id,
        tenant_id: value.tenant_id,
        organization_id: value.organization_id,
        category_id: value.category_id,
        attribute_id: value.attribute_id,
        attribute_role: value.attribute_role,
        source_category_id: value.source_category_id,
        required: value.required,
        searchable: value.searchable,
        filterable: value.filterable,
        comparable: value.comparable,
        sort_order: value.sort_order,
        status: value.status,
        created_at: value.created_at,
        updated_at: value.updated_at,
    }
}

} // verus!
