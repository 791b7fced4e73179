//! What a write route decides before the store sees the write: the caller's organization must be
//! known, int64 strings, amounts and vocabularies must parse, omitted optional fields take their
//! documented defaults, and the command must validate. A refusal carries the message the route
//! answers with.
use vstd::prelude::*;

use crate::catalog_store::{
    CreateAttributeBody, CreateCategoryAttributeBody, CreateCategoryBody, CreatePriceListBody,
    CreateSkuBody, CreateSpuBody, UpdateSkuBody,
};
use crate::commands::{
    attribute_values_outcome, first_blank, CreateAttributeCommand, CreateCategoryAttributeCommand,
    CreateCategoryCommand, CreatePriceListCommand, CreateProductSkuCommand,
    CreateProductSpuCommand, UpdateProductSkuCommand, SELF_INHERITANCE_MESSAGE,
};
use crate::contract::{valid_major_amount, CommerceMoney, ServiceError, ServiceErrorKind};
use crate::decimal::int64_value;
use crate::domain::{
    unknown_value_message, AttributeRole, FulfillmentType, InventoryTrackingMode, ProductStatus,
    ProductType, ATTRIBUTE_ROLE_VALUES, FULFILLMENT_TYPE_VALUES, INVENTORY_TRACKING_VALUES,
    PRODUCT_STATUS_VALUES, PRODUCT_TYPE_VALUES,
};
use crate::repository::fails_with;
use crate::router::{bad_int64_message, parse_optional_int64};
use crate::text::trim;
use crate::validation::required_message;

verus! {

/// The refusal of a write whose caller carries no organization.
pub open spec fn organization_required() -> Seq<char> {
    "organization_id is required"@
}

/// An optional `sortOrder` int64 string: absent means 0.
pub open spec fn sort_order_outcome(raw: Option<String>) -> Result<i64, Seq<char>> {
    match raw {
        None => Ok(0),
        Some(text) => match int64_value(text@) {
            Some(v) => Ok(v),
            None => Err(bad_int64_message("sortOrder"@, text@)),
        },
    }
}

/// The outcome without its success value.
pub open spec fn as_unit<T>(r: Result<T, ServiceError>) -> Result<(), ServiceError> {
    match r {
        Ok(_) => Ok(()),
        Err(e) => Err(e),
    }
}

/// The organization a write runs under.
fn require_organization(organization_id: Option<&str>) -> (r: Result<String, ServiceError>)
    ensures
        match organization_id {
            None => fails_with(r, ServiceErrorKind::Validation, organization_required()),
            Some(org) => r matches Ok(s) && s@ == org@,
        },
{
    match organization_id {
        Some(org) => Ok(String::from_str(org)),
        None => Err(ServiceError::validation_text("organization_id is required")),
    }
}

/// Parses an optional `sortOrder`, defaulting to 0.
fn sort_order_of(raw: &Option<String>) -> (r: Result<i64, ServiceError>)
    ensures
        match sort_order_outcome(*raw) {
            Ok(v) => r == Ok::<i64, ServiceError>(v),
            Err(m) => fails_with(r, ServiceErrorKind::Validation, m),
        },
{
    let text = match raw {
        Some(t) => Some(t.as_str()),
        None => None,
    };
    match parse_optional_int64("sortOrder", text) {
        Ok(Some(v)) => Ok(v),
        Ok(None) => Ok(0),
        Err(message) => Err(ServiceError::validation(message)),
    }
}

/// The create-category command a request asks for.
pub fn create_category_request(
    tenant_id: &str,
    organization_id: Option<&str>,
    body: CreateCategoryBody,
) -> (r: Result<CreateCategoryCommand, ServiceError>)
    ensures
        match organization_id {
            None => fails_with(r, ServiceErrorKind::Validation, organization_required()),
            Some(org) => match sort_order_outcome(body.sort_order) {
                Err(m) => fails_with(r, ServiceErrorKind::Validation, m),
                Ok(sort_order) => match first_blank(
                    seq![
                        ("tenant_id"@, tenant_id@),
                        ("organization_id"@, org@),
                        ("category_no"@, body.category_no@),
                        ("name"@, body.name@),
                    ],
                ) {
                    Some(field) => fails_with(
                        r,
                        ServiceErrorKind::Validation,
                        required_message(field),
                    ),
                    None => r matches Ok(c) && c.tenant_id@ == tenant_id@ && c.organization_id@
                        == org@ && c.category_no == body.category_no && c.parent_id
                        == body.parent_id && c.name == body.name && c.sort_order == sort_order,
                },
            },
        },
{
    let organization_id = require_organization(organization_id)?;
    let sort_order = sort_order_of(&body.sort_order)?;
    let command = CreateCategoryCommand {
        tenant_id: String::from_str(tenant_id),
        organization_id,
        category_no: body.category_no,
        parent_id: body.parent_id,
        name: body.name,
        sort_order,
    };
    match command.validate() {
        Ok(()) => Ok(command),
        Err(e) => Err(e),
    }
}

/// The create-attribute command a request asks for; omitted values mean none.
pub fn create_attribute_request(
    tenant_id: &str,
    organization_id: Option<&str>,
    body: CreateAttributeBody,
) -> (r: Result<CreateAttributeCommand, ServiceError>)
    ensures
        match organization_id {
            None => fails_with(r, ServiceErrorKind::Validation, organization_required()),
            Some(org) => {
                let fields = seq![
                    ("tenant_id"@, tenant_id@),
                    ("organization_id"@, org@),
                    ("attribute_no"@, body.attribute_no@),
                    ("name"@, body.name@),
                ];
                let values = match body.values {
                    Some(v) => v@,
                    None => Seq::<String>::empty(),
                };
                match first_blank(fields) {
                    Some(field) => fails_with(
                        r,
                        ServiceErrorKind::Validation,
                        required_message(field),
                    ),
                    None => attribute_values_outcome(as_unit(r), values) && (r matches Ok(c)
                        ==> c.tenant_id@ == tenant_id@ && c.organization_id@ == org@
                        && c.attribute_no == body.attribute_no && c.name == body.name
                        && c.values@ == values),
                }
            },
        },
{
    let organization_id = require_organization(organization_id)?;
    let values = match body.values {
        Some(v) => v,
        None => Vec::new(),
    };
    let command = CreateAttributeCommand {
        tenant_id: String::from_str(tenant_id),
        organization_id,
        attribute_no: body.attribute_no,
        name: body.name,
        values,
    };
    match command.validate() {
        Ok(()) => Ok(command),
        Err(e) => Err(e),
    }
}

/// The create-price-list command a request asks for.
pub fn create_price_list_request(
    tenant_id: &str,
    organization_id: Option<&str>,
    body: CreatePriceListBody,
) -> (r: Result<CreatePriceListCommand, ServiceError>)
    ensures
        match organization_id {
            None => fails_with(r, ServiceErrorKind::Validation, organization_required()),
            Some(org) => match first_blank(
                seq![
                    ("tenant_id"@, tenant_id@),
                    ("organization_id"@, org@),
                    ("price_list_no"@, body.price_list_no@),
                    ("currency_code"@, body.currency_code@),
                ],
            ) {
                Some(field) => fails_with(r, ServiceErrorKind::Validation, required_message(field)),
                None => r matches Ok(c) && c.tenant_id@ == tenant_id@ && c.organization_id@ == org@
                    && c.price_list_no == body.price_list_no && c.currency_code
                    == body.currency_code && c.market_code == body.market_code,
            },
        },
{
    let organization_id = require_organization(organization_id)?;
    let command = CreatePriceListCommand {
        tenant_id: String::from_str(tenant_id),
        organization_id,
        price_list_no: body.price_list_no,
        currency_code: body.currency_code,
        market_code: body.market_code,
    };
    match command.validate() {
        Ok(()) => Ok(command),
        Err(e) => Err(e),
    }
}

/// The role a binding request names: `parameter` when omitted, the one role that never splits a
/// SKU.
pub open spec fn requested_role(raw: Option<String>) -> Result<AttributeRole, Seq<char>> {
    match raw {
        None => Ok(AttributeRole::Parameter),
        Some(text) => match AttributeRole::from_storage_text(text@) {
            Some(role) => Ok(role),
            None => Err(unknown_value_message("attribute_role"@, text@, ATTRIBUTE_ROLE_VALUES@)),
        },
    }
}

/// `Some(b)` is `b`; an omitted flag is off.
pub open spec fn flag(value: Option<bool>) -> bool {
    match value {
        Some(b) => b,
        None => false,
    }
}

/// The create-binding command a request asks for: the sort order parses first, then the role.
pub fn create_category_attribute_request(
    tenant_id: &str,
    organization_id: Option<&str>,
    body: CreateCategoryAttributeBody,
) -> (r: Result<CreateCategoryAttributeCommand, ServiceError>)
    ensures
        match organization_id {
            None => fails_with(r, ServiceErrorKind::Validation, organization_required()),
            Some(org) => match sort_order_outcome(body.sort_order) {
                Err(m) => fails_with(r, ServiceErrorKind::Validation, m),
                Ok(sort_order) => match requested_role(body.role) {
                    Err(m) => fails_with(r, ServiceErrorKind::Validation, m),
                    Ok(role) => match first_blank(
                        seq![
                            ("tenant_id"@, tenant_id@),
                            ("organization_id"@, org@),
                            ("category_id"@, body.category_id@),
                            ("attribute_id"@, body.attribute_id@),
                        ],
                    ) {
                        Some(field) => fails_with(
                            r,
                            ServiceErrorKind::Validation,
                            required_message(field),
                        ),
                        None => if (body.source_category_id matches Some(source) && trim(source@)
                            == trim(body.category_id@)) {
                            fails_with(
                                r,
                                ServiceErrorKind::Validation,
                                SELF_INHERITANCE_MESSAGE@,
                            )
                        } else {
                            r matches Ok(c) && c.tenant_id@ == tenant_id@ && c.organization_id@
                                == org@ && c.category_id == body.category_id && c.attribute_id
                                == body.attribute_id && c.role == role && c.required == flag(
                                body.required,
                            ) && c.searchable == flag(body.searchable) && c.filterable == flag(
                                body.filterable,
                            ) && c.comparable == flag(body.comparable) && c.source_category_id
                                == body.source_category_id && c.sort_order == sort_order
                        },
                    },
                },
            },
        },
{
    let organization_id = require_organization(organization_id)?;
    let sort_order = sort_order_of(&body.sort_order)?;
    let role = match &body.role {
        Some(raw) => AttributeRole::from_storage_str(raw.as_str())?,
        None => AttributeRole::Parameter,
    };
    let command = CreateCategoryAttributeCommand {
        tenant_id: String::from_str(tenant_id),
        organization_id,
        category_id: body.category_id,
        attribute_id: body.attribute_id,
        role,
        required: match body.required {
            Some(b) => b,
            None => false,
        },
        searchable: match body.searchable {
            Some(b) => b,
            None => false,
        },
        filterable: match body.filterable {
            Some(b) => b,
            None => false,
        },
        comparable: match body.comparable {
            Some(b) => b,
            None => false,
        },
        source_category_id: body.source_category_id,
        sort_order,
    };
    match command.validate() {
        Ok(()) => Ok(command),
        Err(e) => Err(e),
    }
}

/// The create-product command a request asks for.
pub fn create_product_request(
    tenant_id: &str,
    organization_id: Option<&str>,
    body: CreateSpuBody,
) -> (r: Result<CreateProductSpuCommand, ServiceError>)
    ensures
        match organization_id {
            None => fails_with(r, ServiceErrorKind::Validation, organization_required()),
            Some(org) => match ProductType::from_storage_text(body.product_type@) {
                None => fails_with(
                    r,
                    ServiceErrorKind::Validation,
                    unknown_value_message("product_type"@, body.product_type@, PRODUCT_TYPE_VALUES@),
                ),
                Some(product_type) => match first_blank(
                    seq![
                        ("tenant_id"@, tenant_id@),
                        ("organization_id"@, org@),
                        ("spu_no"@, body.spu_no@),
                        ("title"@, body.title@),
                        ("category_id"@, body.category_id@),
                    ],
                ) {
                    Some(field) => fails_with(
                        r,
                        ServiceErrorKind::Validation,
                        required_message(field),
                    ),
                    None => r matches Ok(c) && c.tenant_id@ == tenant_id@ && c.organization_id@
                        == org@ && c.spu_no == body.spu_no && c.title == body.title && c.subtitle
                        == body.subtitle && c.description == body.description && c.product_type
                        == product_type && c.category_id == body.category_id,
                },
            },
        },
{
    let organization_id = require_organization(organization_id)?;
    let product_type = ProductType::from_storage_str(body.product_type.as_str())?;
    let command = CreateProductSpuCommand {
        tenant_id: String::from_str(tenant_id),
        organization_id,
        spu_no: body.spu_no,
        title: body.title,
        subtitle: body.subtitle,
        description: body.description,
        product_type,
        category_id: body.category_id,
    };
    match command.validate() {
        Ok(()) => Ok(command),
        Err(e) => Err(e),
    }
}

/// The refusal of an amount that is not an unsigned decimal.
pub open spec fn bad_amount_message() -> Seq<char> {
    "amount must be an unsigned decimal string"@
}

/// A major-denomination amount as a command keeps it: its trimmed text.
pub open spec fn amount_outcome(raw: Seq<char>) -> Result<Seq<char>, Seq<char>> {
    if valid_major_amount(raw) {
        Ok(trim(raw))
    } else {
        Err(bad_amount_message())
    }
}

/// An optional amount: absent means none.
pub open spec fn optional_amount_outcome(raw: Option<String>) -> Result<Option<Seq<char>>, Seq<char>> {
    match raw {
        None => Ok(None),
        Some(text) => match amount_outcome(text@) {
            Ok(a) => Ok(Some(a)),
            Err(m) => Err(m),
        },
    }
}

/// The texts of an optional amount.
pub open spec fn amount_view(amount: Option<CommerceMoney>) -> Option<Seq<char>> {
    match amount {
        None => None,
        Some(m) => Some(m@),
    }
}

/// The create-SKU command a request asks for: the amounts parse first, then the fulfillment type
/// and the inventory mode.
pub fn create_sku_request(
    tenant_id: &str,
    organization_id: Option<&str>,
    body: CreateSkuBody,
) -> (r: Result<CreateProductSkuCommand, ServiceError>)
    ensures
        match organization_id {
            None => fails_with(r, ServiceErrorKind::Validation, organization_required()),
            Some(org) => match amount_outcome(body.price_amount@) {
                Err(m) => fails_with(r, ServiceErrorKind::Validation, m),
                Ok(price) => match optional_amount_outcome(body.original_price_amount) {
                    Err(m) => fails_with(r, ServiceErrorKind::Validation, m),
                    Ok(original) => match FulfillmentType::from_storage_text(body.fulfillment_type@) {
                        None => fails_with(
                            r,
                            ServiceErrorKind::Validation,
                            unknown_value_message(
                                "fulfillment_type"@,
                                body.fulfillment_type@,
                                FULFILLMENT_TYPE_VALUES@,
                            ),
                        ),
                        Some(fulfillment) => match InventoryTrackingMode::from_storage_text(
                            body.inventory_tracking@,
                        ) {
                            None => fails_with(
                                r,
                                ServiceErrorKind::Validation,
                                unknown_value_message(
                                    "inventory_tracking"@,
                                    body.inventory_tracking@,
                                    INVENTORY_TRACKING_VALUES@,
                                ),
                            ),
                            Some(tracking) => match first_blank(
                                seq![
                                    ("tenant_id"@, tenant_id@),
                                    ("organization_id"@, org@),
                                    ("spu_id"@, body.spu_id@),
                                    ("sku_no"@, body.sku_no@),
                                    ("name"@, body.name@),
                                    ("title"@, body.title@),
                                    ("currency_code"@, body.currency_code@),
                                ],
                            ) {
                                Some(field) => fails_with(
                                    r,
                                    ServiceErrorKind::Validation,
                                    required_message(field),
                                ),
                                None => r matches Ok(c) && c.tenant_id@ == tenant_id@
                                    && c.organization_id@ == org@ && c.spu_id == body.spu_id
                                    && c.sku_no == body.sku_no && c.name == body.name && c.title
                                    == body.title && c.price_amount@ == price && amount_view(
                                    c.original_price_amount,
                                ) == original && c.currency_code == body.currency_code
                                    && c.fulfillment_type == fulfillment && c.inventory_tracking
                                    == tracking,
                            },
                        },
                    },
                },
            },
        },
{
    let organization_id = require_organization(organization_id)?;
    let price_amount = CommerceMoney::new(body.price_amount.as_str())?;
    let original_price_amount = match &body.original_price_amount {
        Some(raw) => Some(CommerceMoney::new(raw.as_str())?),
        None => None,
    };
    let fulfillment_type = FulfillmentType::from_storage_str(body.fulfillment_type.as_str())?;
    let inventory_tracking = InventoryTrackingMode::from_storage_str(
        body.inventory_tracking.as_str(),
    )?;
    let command = CreateProductSkuCommand {
        tenant_id: String::from_str(tenant_id),
        organization_id,
        spu_id: body.spu_id,
        sku_no: body.sku_no,
        name: body.name,
        title: body.title,
        price_amount,
        original_price_amount,
        currency_code: body.currency_code,
        fulfillment_type,
        inventory_tracking,
    };
    match command.validate() {
        Ok(()) => Ok(command),
        Err(e) => Err(e),
    }
}

/// An optional int64 string field named `field` on the wire: absent means none.
pub open spec fn optional_int64_outcome(field: Seq<char>, raw: Option<String>) -> Result<
    Option<i64>,
    Seq<char>,
> {
    match raw {
        None => Ok(None),
        Some(text) => match int64_value(text@) {
            Some(v) => Ok(Some(v)),
            None => Err(bad_int64_message(field, text@)),
        },
    }
}

/// An optional fulfillment type: absent means unchanged.
pub open spec fn requested_fulfillment(raw: Option<String>) -> Result<
    Option<FulfillmentType>,
    Seq<char>,
> {
    match raw {
        None => Ok(None),
        Some(text) => match FulfillmentType::from_storage_text(text@) {
            Some(v) => Ok(Some(v)),
            None => Err(unknown_value_message("fulfillment_type"@, text@, FULFILLMENT_TYPE_VALUES@)),
        },
    }
}

/// An optional inventory mode: absent means unchanged.
pub open spec fn requested_tracking(raw: Option<String>) -> Result<
    Option<InventoryTrackingMode>,
    Seq<char>,
> {
    match raw {
        None => Ok(None),
        Some(text) => match InventoryTrackingMode::from_storage_text(text@) {
            Some(v) => Ok(Some(v)),
            None => Err(
                unknown_value_message("inventory_tracking"@, text@, INVENTORY_TRACKING_VALUES@),
            ),
        },
    }
}

/// An optional product status: absent means unchanged.
pub open spec fn requested_status(raw: Option<String>) -> Result<Option<ProductStatus>, Seq<char>> {
    match raw {
        None => Ok(None),
        Some(text) => match ProductStatus::from_storage_text(text@) {
            Some(v) => Ok(Some(v)),
            None => Err(unknown_value_message("status"@, text@, PRODUCT_STATUS_VALUES@)),
        },
    }
}

/// The reference-price edit an update body states: a stated price replaces the stored one, and an
/// omitted one keeps it.
pub open spec fn list_price_edit(list: Option<i64>) -> Option<Option<i64>> {
    match list {
        Some(v) => Some(Some(v)),
        None => None,
    }
}

/// Parses an optional int64 string field.
fn optional_int64_of(field: &str, raw: &Option<String>) -> (r: Result<Option<i64>, ServiceError>)
    ensures
        match optional_int64_outcome(field@, *raw) {
            Ok(v) => r == Ok::<Option<i64>, ServiceError>(v),
            Err(m) => fails_with(r, ServiceErrorKind::Validation, m),
        },
{
    let text = match raw {
        Some(t) => Some(t.as_str()),
        None => None,
    };
    match parse_optional_int64(field, text) {
        Ok(v) => Ok(v),
        Err(message) => Err(ServiceError::validation(message)),
    }
}

/// The update-SKU command a request asks for, for the version the caller read. The prices parse
/// first, then the fulfillment type, the inventory mode and the status; the command never carries
/// metadata, so an edit through this route leaves the capability-owned document untouched.
pub fn update_sku_request(
    tenant_id: &str,
    expected_version: i64,
    sku_id: &str,
    body: UpdateSkuBody,
) -> (r: Result<UpdateProductSkuCommand, ServiceError>)
    ensures
        match optional_int64_outcome("salePriceMinor"@, body.sale_price_minor) {
            Err(m) => fails_with(r, ServiceErrorKind::Validation, m),
            Ok(sale) => match optional_int64_outcome("listPriceMinor"@, body.list_price_minor) {
                Err(m) => fails_with(r, ServiceErrorKind::Validation, m),
                Ok(list) => match requested_fulfillment(body.fulfillment_type) {
                    Err(m) => fails_with(r, ServiceErrorKind::Validation, m),
                    Ok(fulfillment) => match requested_tracking(body.inventory_tracking) {
                        Err(m) => fails_with(r, ServiceErrorKind::Validation, m),
                        Ok(tracking) => match requested_status(body.status) {
                            Err(m) => fails_with(r, ServiceErrorKind::Validation, m),
                            Ok(status) => match first_blank(
                                seq![("tenant_id"@, tenant_id@), ("sku_id"@, sku_id@)],
                            ) {
                                Some(field) => fails_with(
                                    r,
                                    ServiceErrorKind::Validation,
                                    required_message(field),
                                ),
                                None => r matches Ok(c) && c.tenant_id@ == tenant_id@
                                    && c.expected_version == expected_version && c.sku_id@
                                    == sku_id@ && c.name == body.name && c.title == body.title
                                    && c.sale_price_minor == sale && c.list_price_minor
                                    == list_price_edit(list) && c.currency_code
                                    == body.currency_code && c.fulfillment_type == fulfillment
                                    && c.inventory_tracking == tracking && c.status == status
                                    && c.attribute_value_ids == body.attribute_value_ids
                                    && c.metadata is None,
                            },
                        },
                    },
                },
            },
        },
{
    let sale_price_minor = optional_int64_of("salePriceMinor", &body.sale_price_minor)?;
    let list_price_minor = optional_int64_of("listPriceMinor", &body.list_price_minor)?;
    let fulfillment_type = match &body.fulfillment_type {
        Some(raw) => Some(FulfillmentType::from_storage_str(raw.as_str())?),
        None => None,
    };
    let inventory_tracking = match &body.inventory_tracking {
        Some(raw) => Some(InventoryTrackingMode::from_storage_str(raw.as_str())?),
        None => None,
    };
    let status = match &body.status {
        Some(raw) => Some(ProductStatus::from_storage_str(raw.as_str())?),
        None => None,
    };
    let command = UpdateProductSkuCommand {
        tenant_id: String::from_str(tenant_id),
        expected_version,
        sku_id: String::from_str(sku_id),
        name: body.name,
        title: body.title,
        sale_price_minor,
        list_price_minor: match list_price_minor {
            Some(v) => Some(Some(v)),
            None => None,
        },
        currency_code: body.currency_code,
        fulfillment_type,
        inventory_tracking,
        status,
        attribute_value_ids: body.attribute_value_ids,
        metadata: None,
    };
    match command.validate() {
        Ok(()) => Ok(command),
        Err(e) => Err(e),
    }
}

} // verus!
