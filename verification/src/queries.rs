//! Typed list and retrieve queries. Text is trimmed, blank optional filters are dropped, and pages
//! are bounded to at most 200 records.
use vstd::prelude::*;

use crate::contract::{ServiceError, ServiceErrorKind};
use crate::text::{is_blank, string_of, trim, trimmed_chars};
use crate::validation::{require_non_empty, required_message};

verus! {

/// A failed result carrying a validation failure with exactly `message`.
pub open spec fn validation_error<T>(r: Result<T, ServiceError>, message: Seq<char>) -> bool {
    r matches Err(e) && e.kind == ServiceErrorKind::Validation && e.message@ == message
}

/// An optional filter as the query keeps it: trimmed, and dropped when blank.
pub open spec fn optional_view(value: Option<&str>) -> Option<Seq<char>> {
    match value {
        Some(v) => if is_blank(v@) {
            None
        } else {
            Some(trim(v@))
        },
        None => None,
    }
}

/// The text of an optional string.
pub open spec fn string_option_view(value: Option<String>) -> Option<Seq<char>> {
    match value {
        Some(v) => Some(v@),
        None => None,
    }
}

/// Why a page request is refused, if it is: pages start at 1 and hold 1 to 200 records.
pub open spec fn page_refusal(page: Option<i64>, page_size: Option<i64>) -> Option<Seq<char>> {
    if page matches Some(p) && p < 1 {
        Some("page must be greater than or equal to 1"@)
    } else if page_size matches Some(s) && !(1 <= s <= 200) {
        Some("page_size must be between 1 and 200"@)
    } else {
        None
    }
}

/// A page request a list query may carry: pages count from 1, and a page holds 1 to 200 records.
pub open spec fn page_within_bounds(page: Option<i64>, page_size: Option<i64>) -> bool {
    &&& (page matches Some(p) ==> p >= 1)
    &&& (page_size matches Some(s) ==> 1 <= s <= 200)
}

/// A page request is refused exactly when it is out of bounds, so no list query ever asks for a
/// page before the first or for more than 200 records.
pub proof fn law_page_requests_are_bounded(page: Option<i64>, page_size: Option<i64>)
    ensures
        page_refusal(page, page_size) is None <==> page_within_bounds(page, page_size),
{
}

/// A required field, trimmed; blank is refused.
pub fn required_text(field: &str, value: &str) -> (r: Result<String, ServiceError>)
    ensures
        is_blank(value@) ==> validation_error(r, required_message(field@)),
        !is_blank(value@) ==> (r matches Ok(s) && s@ == trim(value@)),
{
    require_non_empty(field, value)?;
    Ok(string_of(&trimmed_chars(value)))
}

/// An optional filter, trimmed; blank becomes absent.
pub fn optional_text(value: Option<&str>) -> (r: Option<String>)
    ensures
        string_option_view(r) == optional_view(value),
{
    match value {
        Some(v) => {
            let t = trimmed_chars(v);
            if t.len() == 0 {
                None
            } else {
                Some(string_of(&t))
            }
        },
        None => None,
    }
}

/// Checks the page bounds.
pub fn check_page(page: Option<i64>, page_size: Option<i64>) -> (r: Result<(), ServiceError>)
    ensures
        match page_refusal(page, page_size) {
            Some(m) => validation_error(r, m),
            None => r is Ok,
        },
{
    if let Some(p) = page {
        if p < 1 {
            return Err(ServiceError::validation_text("page must be greater than or equal to 1"));
        }
    }
    if let Some(s) = page_size {
        if !(1 <= s && s <= 200) {
            return Err(ServiceError::validation_text("page_size must be between 1 and 200"));
        }
    }
    Ok(())
}

#[derive(Clone, Debug, PartialEq, Eq)]
pub struct CategoryListQuery {
    pub tenant_id: String,
    pub organization_id: Option<String>,
    pub parent_id: Option<String>,
    pub status: Option<String>,
    pub page: Option<i64>,
    pub page_size: Option<i64>,
}

impl CategoryListQuery {
    /// Builds the query: page bounds first, then each required field in order.
    pub fn new(
        tenant_id: &str,
        organization_id: Option<&str>,
        parent_id: Option<&str>,
        status: Option<&str>,
        page: Option<i64>,
        page_size: Option<i64>,
    ) -> (r: Result<CategoryListQuery, ServiceError>)
        ensures
            page_refusal(page, page_size) matches Some(m) ==> validation_error(r, m),
            page_refusal(page, page_size) is None && is_blank(tenant_id@)
                ==> validation_error(r, required_message("tenant_id"@)),
            page_refusal(page, page_size) is None && !is_blank(tenant_id@)
                ==> (r matches Ok(query)
                    && query.tenant_id@ == trim(tenant_id@)
                    && string_option_view(query.organization_id) == optional_view(organization_id)
                    && string_option_view(query.parent_id) == optional_view(parent_id)
                    && string_option_view(query.status) == optional_view(status)
                    && query.page == page
                    && query.page_size == page_size),
            r matches Ok(query) ==> page_within_bounds(query.page, query.page_size),
    {
        check_page(page, page_size)?;
        let tenant_id = required_text("tenant_id", tenant_id)?;
        let organization_id = optional_text(organization_id);
        let parent_id = optional_text(parent_id);
        let status = optional_text(status);
        Ok(CategoryListQuery { tenant_id, organization_id, parent_id, status, page, page_size })
    }
}

#[derive(Clone, Debug, PartialEq, Eq)]
pub struct CategoryRetrieveQuery {
    pub tenant_id: String,
    pub category_id: String,
}

impl CategoryRetrieveQuery {
    /// Builds the query from each required field in order.
    pub fn new(
        tenant_id: &str,
        category_id: &str,
    ) -> (r: Result<CategoryRetrieveQuery, ServiceError>)
        ensures
            is_blank(tenant_id@) ==> validation_error(r, required_message("tenant_id"@)),
            !is_blank(tenant_id@) && is_blank(category_id@)
                ==> validation_error(r, required_message("category_id"@)),
            !is_blank(tenant_id@) && !is_blank(category_id@)
                ==> (r matches Ok(query)
                    && query.tenant_id@ == trim(tenant_id@)
                    && query.category_id@ == trim(category_id@)),
    {
        let tenant_id = required_text("tenant_id", tenant_id)?;
        let category_id = required_text("category_id", category_id)?;
        Ok(CategoryRetrieveQuery { tenant_id, category_id })
    }
}

#[derive(Clone, Debug, PartialEq, Eq)]
pub struct AttributeListQuery {
    pub tenant_id: String,
    pub organization_id: Option<String>,
    pub status: Option<String>,
    pub page: Option<i64>,
    pub page_size: Option<i64>,
}

impl AttributeListQuery {
    /// Builds the query: page bounds first, then each required field in order.
    pub fn new(
        tenant_id: &str,
        organization_id: Option<&str>,
        status: Option<&str>,
        page: Option<i64>,
        page_size: Option<i64>,
    ) -> (r: Result<AttributeListQuery, ServiceError>)
        ensures
            page_refusal(page, page_size) matches Some(m) ==> validation_error(r, m),
            page_refusal(page, page_size) is None && is_blank(tenant_id@)
                ==> validation_error(r, required_message("tenant_id"@)),
            page_refusal(page, page_size) is None && !is_blank(tenant_id@)
                ==> (r matches Ok(query)
                    && query.tenant_id@ == trim(tenant_id@)
                    && string_option_view(query.organization_id) == optional_view(organization_id)
                    && string_option_view(query.status) == optional_view(status)
                    && query.page == page
                    && query.page_size == page_size),
            r matches Ok(query) ==> page_within_bounds(query.page, query.page_size),
    {
        check_page(page, page_size)?;
        let tenant_id = required_text("tenant_id", tenant_id)?;
        let organization_id = optional_text(organization_id);
        let status = optional_text(status);
        Ok(AttributeListQuery { tenant_id, organization_id, status, page, page_size })
    }
}

/// Lists price lists; a price list is only meaningful inside one currency and optionally one
/// market, so both are filters.
#[derive(Clone, Debug, PartialEq, Eq)]
pub struct PriceListListQuery {
    pub tenant_id: String,
    pub organization_id: Option<String>,
    pub currency_code: Option<String>,
    pub market_code: Option<String>,
    pub status: Option<String>,
    pub page: Option<i64>,
    pub page_size: Option<i64>,
}

impl PriceListListQuery {
    /// Builds the query: page bounds first, then each required field in order.
    pub fn new(
        tenant_id: &str,
        organization_id: Option<&str>,
        currency_code: Option<&str>,
        market_code: Option<&str>,
        status: Option<&str>,
        page: Option<i64>,
        page_size: Option<i64>,
    ) -> (r: Result<PriceListListQuery, ServiceError>)
        ensures
            page_refusal(page, page_size) matches Some(m) ==> validation_error(r, m),
            page_refusal(page, page_size) is None && is_blank(tenant_id@)
                ==> validation_error(r, required_message("tenant_id"@)),
            page_refusal(page, page_size) is None && !is_blank(tenant_id@)
                ==> (r matches Ok(query)
                    && query.tenant_id@ == trim(tenant_id@)
                    && string_option_view(query.organization_id) == optional_view(organization_id)
                    && string_option_view(query.currency_code) == optional_view(currency_code)
                    && string_option_view(query.market_code) == optional_view(market_code)
                    && string_option_view(query.status) == optional_view(status)
                    && query.page == page
                    && query.page_size == page_size),
            r matches Ok(query) ==> page_within_bounds(query.page, query.page_size),
    {
        check_page(page, page_size)?;
        let tenant_id = required_text("tenant_id", tenant_id)?;
        let organization_id = optional_text(organization_id);
        let currency_code = optional_text(currency_code);
        let market_code = optional_text(market_code);
        let status = optional_text(status);
        Ok(
            PriceListListQuery {
                tenant_id,
                organization_id,
                currency_code,
                market_code,
                status,
                page,
                page_size,
            },
        )
    }
}

/// Lists category attribute bindings; every filter narrows the template.
#[derive(Clone, Debug, PartialEq, Eq)]
pub struct CategoryAttributeListQuery {
    pub tenant_id: String,
    pub organization_id: Option<String>,
    pub category_id: Option<String>,
    pub attribute_id: Option<String>,
    pub status: Option<String>,
    pub page: Option<i64>,
    pub page_size: Option<i64>,
}

impl CategoryAttributeListQuery {
    /// Builds the query: page bounds first, then each required field in order.
    pub fn new(
        tenant_id: &str,
        organization_id: Option<&str>,
        category_id: Option<&str>,
        attribute_id: Option<&str>,
        status: Option<&str>,
        page: Option<i64>,
        page_size: Option<i64>,
    ) -> (r: Result<CategoryAttributeListQuery, ServiceError>)
        ensures
            page_refusal(page, page_size) matches Some(m) ==> validation_error(r, m),
            page_refusal(page, page_size) is None && is_blank(tenant_id@)
                ==> validation_error(r, required_message("tenant_id"@)),
            page_refusal(page, page_size) is None && !is_blank(tenant_id@)
                ==> (r matches Ok(query)
                    && query.tenant_id@ == trim(tenant_id@)
                    && string_option_view(query.organization_id) == optional_view(organization_id)
                    && string_option_view(query.category_id) == optional_view(category_id)
                    && string_option_view(query.attribute_id) == optional_view(attribute_id)
                    && string_option_view(query.status) == optional_view(status)
                    && query.page == page
                    && query.page_size == page_size),
            r matches Ok(query) ==> page_within_bounds(query.page, query.page_size),
    {
        check_page(page, page_size)?;
        let tenant_id = required_text("tenant_id", tenant_id)?;
        let organization_id = optional_text(organization_id);
        let category_id = optional_text(category_id);
        let attribute_id = optional_text(attribute_id);
        let status = optional_text(status);
        Ok(
            CategoryAttributeListQuery {
                tenant_id,
                organization_id,
                category_id,
                attribute_id,
                status,
                page,
                page_size,
            },
        )
    }
}

/// Lists product SPUs; `q` is free-text search over the SPU's identifier and titles.
#[derive(Clone, Debug, PartialEq, Eq)]
pub struct ProductSpuListQuery {
    pub tenant_id: String,
    pub organization_id: Option<String>,
    pub q: Option<String>,
    pub category_id: Option<String>,
    pub product_type: Option<String>,
    pub status: Option<String>,
    pub sort: Option<String>,
    pub page: Option<i64>,
    pub page_size: Option<i64>,
}

impl ProductSpuListQuery {
    /// Builds the query: page bounds first, then each required field in order.
    pub fn new(
        tenant_id: &str,
        organization_id: Option<&str>,
        q: Option<&str>,
        category_id: Option<&str>,
        product_type: Option<&str>,
        status: Option<&str>,
        sort: Option<&str>,
        page: Option<i64>,
        page_size: Option<i64>,
    ) -> (r: Result<ProductSpuListQuery, ServiceError>)
        ensures
            page_refusal(page, page_size) matches Some(m) ==> validation_error(r, m),
            page_refusal(page, page_size) is None && is_blank(tenant_id@)
                ==> validation_error(r, required_message("tenant_id"@)),
            page_refusal(page, page_size) is None && !is_blank(tenant_id@)
                ==> (r matches Ok(query)
                    && query.tenant_id@ == trim(tenant_id@)
                    && string_option_view(query.organization_id) == optional_view(organization_id)
                    && string_option_view(query.q) == optional_view(q)
                    && string_option_view(query.category_id) == optional_view(category_id)
                    && string_option_view(query.product_type) == optional_view(product_type)
                    && string_option_view(query.status) == optional_view(status)
                    && string_option_view(query.sort) == optional_view(sort)
                    && query.page == page
                    && query.page_size == page_size),
            r matches Ok(query) ==> page_within_bounds(query.page, query.page_size),
    {
        check_page(page, page_size)?;
        let tenant_id = required_text("tenant_id", tenant_id)?;
        let organization_id = optional_text(organization_id);
        let q = optional_text(q);
        let category_id = optional_text(category_id);
        let product_type = optional_text(product_type);
        let status = optional_text(status);
        let sort = optional_text(sort);
        Ok(
            ProductSpuListQuery {
                tenant_id,
                organization_id,
                q,
                category_id,
                product_type,
                status,
                sort,
                page,
                page_size,
            },
        )
    }
}

#[derive(Clone, Debug, PartialEq, Eq)]
pub struct ProductSpuRetrieveQuery {
    pub tenant_id: String,
    pub spu_id: String,
}

impl ProductSpuRetrieveQuery {
    /// Builds the query from each required field in order.
    pub fn new(tenant_id: &str, spu_id: &str) -> (r: Result<ProductSpuRetrieveQuery, ServiceError>)
        ensures
            is_blank(tenant_id@) ==> validation_error(r, required_message("tenant_id"@)),
            !is_blank(tenant_id@) && is_blank(spu_id@)
                ==> validation_error(r, required_message("spu_id"@)),
            !is_blank(tenant_id@) && !is_blank(spu_id@)
                ==> (r matches Ok(query)
                    && query.tenant_id@ == trim(tenant_id@)
                    && query.spu_id@ == trim(spu_id@)),
    {
        let tenant_id = required_text("tenant_id", tenant_id)?;
        let spu_id = required_text("spu_id", spu_id)?;
        Ok(ProductSpuRetrieveQuery { tenant_id, spu_id })
    }
}

/// Lists SKUs; `attribute_value_id` narrows the page to the SKUs on one sales-axis value.
#[derive(Clone, Debug, PartialEq, Eq)]
pub struct ProductSkuListQuery {
    pub tenant_id: String,
    pub organization_id: Option<String>,
    pub spu_id: Option<String>,
    pub attribute_value_id: Option<String>,
    pub status: Option<String>,
    pub page: Option<i64>,
    pub page_size: Option<i64>,
}

impl ProductSkuListQuery {
    /// Builds the query: page bounds first, then each required field in order.
    pub fn new(
        tenant_id: &str,
        organization_id: Option<&str>,
        spu_id: Option<&str>,
        attribute_value_id: Option<&str>,
        status: Option<&str>,
        page: Option<i64>,
        page_size: Option<i64>,
    ) -> (r: Result<ProductSkuListQuery, ServiceError>)
        ensures
            page_refusal(page, page_size) matches Some(m) ==> validation_error(r, m),
            page_refusal(page, page_size) is None && is_blank(tenant_id@)
                ==> validation_error(r, required_message("tenant_id"@)),
            page_refusal(page, page_size) is None && !is_blank(tenant_id@)
                ==> (r matches Ok(query)
                    && query.tenant_id@ == trim(tenant_id@)
                    && string_option_view(query.organization_id) == optional_view(organization_id)
                    && string_option_view(query.spu_id) == optional_view(spu_id)
                    && string_option_view(query.attribute_value_id) == optional_view(
                    attribute_value_id,
                )
                    && string_option_view(query.status) == optional_view(status)
                    && query.page == page
                    && query.page_size == page_size),
            r matches Ok(query) ==> page_within_bounds(query.page, query.page_size),
    {
        check_page(page, page_size)?;
        let tenant_id = required_text("tenant_id", tenant_id)?;
        let organization_id = optional_text(organization_id);
        let spu_id = optional_text(spu_id);
        let attribute_value_id = optional_text(attribute_value_id);
        let status = optional_text(status);
        Ok(
            ProductSkuListQuery {
                tenant_id,
                organization_id,
                spu_id,
                attribute_value_id,
                status,
                page,
                page_size,
            },
        )
    }
}

#[derive(Clone, Debug, PartialEq, Eq)]
pub struct ProductSkuRetrieveQuery {
    pub tenant_id: String,
    pub sku_id: String,
}

impl ProductSkuRetrieveQuery {
    /// Builds the query from each required field in order.
    pub fn new(tenant_id: &str, sku_id: &str) -> (r: Result<ProductSkuRetrieveQuery, ServiceError>)
        ensures
            is_blank(tenant_id@) ==> validation_error(r, required_message("tenant_id"@)),
            !is_blank(tenant_id@) && is_blank(sku_id@)
                ==> validation_error(r, required_message("sku_id"@)),
            !is_blank(tenant_id@) && !is_blank(sku_id@)
                ==> (r matches Ok(query)
                    && query.tenant_id@ == trim(tenant_id@)
                    && query.sku_id@ == trim(sku_id@)),
    {
        let tenant_id = required_text("tenant_id", tenant_id)?;
        let sku_id = required_text("sku_id", sku_id)?;
        Ok(ProductSkuRetrieveQuery { tenant_id, sku_id })
    }
}

/// Lists media attachments; `owner_type` and `owner_id` only narrow the page together.
#[derive(Clone, Debug, PartialEq, Eq)]
pub struct MediaListQuery {
    pub tenant_id: String,
    pub organization_id: Option<String>,
    pub owner_type: Option<String>,
    pub owner_id: Option<String>,
    pub media_role: Option<String>,
    pub status: Option<String>,
    pub page: Option<i64>,
    pub page_size: Option<i64>,
}

impl MediaListQuery {
    /// Builds the query: page bounds first, then each required field in order.
    pub fn new(
        tenant_id: &str,
        organization_id: Option<&str>,
        owner_type: Option<&str>,
        owner_id: Option<&str>,
        media_role: Option<&str>,
        status: Option<&str>,
        page: Option<i64>,
        page_size: Option<i64>,
    ) -> (r: Result<MediaListQuery, ServiceError>)
        ensures
            page_refusal(page, page_size) matches Some(m) ==> validation_error(r, m),
            page_refusal(page, page_size) is None && is_blank(tenant_id@)
                ==> validation_error(r, required_message("tenant_id"@)),
            page_refusal(page, page_size) is None && !is_blank(tenant_id@)
                ==> (r matches Ok(query)
                    && query.tenant_id@ == trim(tenant_id@)
                    && string_option_view(query.organization_id) == optional_view(organization_id)
                    && string_option_view(query.owner_type) == optional_view(owner_type)
                    && string_option_view(query.owner_id) == optional_view(owner_id)
                    && string_option_view(query.media_role) == optional_view(media_role)
                    && string_option_view(query.status) == optional_view(status)
                    && query.page == page
                    && query.page_size == page_size),
            r matches Ok(query) ==> page_within_bounds(query.page, query.page_size),
    {
        check_page(page, page_size)?;
        let tenant_id = required_text("tenant_id", tenant_id)?;
        let organization_id = optional_text(organization_id);
        let owner_type = optional_text(owner_type);
        let owner_id = optional_text(owner_id);
        let media_role = optional_text(media_role);
        let status = optional_text(status);
        Ok(
            MediaListQuery {
                tenant_id,
                organization_id,
                owner_type,
                owner_id,
                media_role,
                status,
                page,
                page_size,
            },
        )
    }
}

} // verus!
