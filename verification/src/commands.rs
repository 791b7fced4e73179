//! The catalog write model: one command per write, each validating its required text before a
//! repository sees it.
use vstd::prelude::*;

use crate::contract::{CommerceMoney, ServiceError};
use crate::domain::{
    AttributeRole, FulfillmentType, InventoryTrackingMode, LifecycleStatus, ProductStatus,
    ProductType,
};
use crate::text::{chars_eq, is_blank, trim, trimmed_chars};
use crate::validation::{
    is_validation, require_non_empty, require_within_chars, required_message,
    ATTRIBUTE_VALUE_MAX_CHARS,
};

verus! {

/// The name of the first field whose value is blank, if any.
pub open spec fn first_blank(fields: Seq<(Seq<char>, Seq<char>)>) -> Option<Seq<char>>
    decreases fields.len(),
{
    if fields.len() == 0 {
        None
    } else if is_blank(fields[0].1) {
        Some(fields[0].0)
    } else {
        first_blank(fields.drop_first())
    }
}

/// What checking required fields answers: success, or the first blank field named.
pub open spec fn required_outcome(
    r: Result<(), ServiceError>,
    fields: Seq<(Seq<char>, Seq<char>)>,
) -> bool {
    match first_blank(fields) {
        None => r is Ok,
        Some(name) => is_validation(r, required_message(name)),
    }
}

/// The views of `(name, value)` pairs.
pub open spec fn field_views(fields: Seq<(&str, &str)>) -> Seq<(Seq<char>, Seq<char>)> {
    fields.map_values(|f: (&str, &str)| (f.0@, f.1@))
}

/// Checks each `(name, value)` pair in order and names the first blank one.
pub fn require_all_non_empty(fields: &Vec<(&str, &str)>) -> (r: Result<(), ServiceError>)
    ensures
        required_outcome(r, field_views(fields@)),
{
    let ghost views = field_views(fields@);
    let mut i: usize = 0;
    assert(views.subrange(0, views.len() as int) =~= views);
    while i < fields.len()
        invariant
            i <= fields@.len(),
            views == field_views(fields@),
            first_blank(views) == first_blank(views.subrange(i as int, views.len() as int)),
        decreases fields@.len() - i,
    {
        let (name, value) = fields[i];
        let ghost rest = views.subrange(i as int, views.len() as int);
        assert(rest.drop_first() =~= views.subrange(i + 1, views.len() as int));
        assert(rest[0] == (name@, value@));
        require_non_empty(name, value)?;
        i = i + 1;
    }
    assert(views.subrange(i as int, views.len() as int) =~= Seq::<(Seq<char>, Seq<char>)>::empty());
    Ok(())
}

#[derive(Clone, Debug)]
pub struct CreateCategoryCommand {
    pub tenant_id: String,
    pub organization_id: String,
    pub category_no: String,
    pub parent_id: Option<String>,
    pub name: String,
    pub sort_order: i64,
}

impl CreateCategoryCommand {
    /// The required text fields, in the order they are checked.
    pub open spec fn required_fields(&self) -> Seq<(Seq<char>, Seq<char>)> {
        seq![
            ("tenant_id"@, self.tenant_id@),
            ("organization_id"@, self.organization_id@),
            ("category_no"@, self.category_no@),
            ("name"@, self.name@),
        ]
    }

    /// Checks the required text fields in order and names the first blank one.
    pub fn validate(&self) -> (r: Result<(), ServiceError>)
        ensures
            required_outcome(r, self.required_fields()),
    {
        let fields = vec![
            ("tenant_id", self.tenant_id.as_str()),
            ("organization_id", self.organization_id.as_str()),
            ("category_no", self.category_no.as_str()),
            ("name", self.name.as_str()),
        ];
        assert(field_views(fields@) =~= self.required_fields());
        require_all_non_empty(&fields)
    }
}

#[derive(Clone, Debug)]
pub struct UpdateCategoryCommand {
    pub tenant_id: String,
    pub category_id: String,
    pub parent_id: Option<String>,
    pub name: Option<String>,
    pub sort_order: Option<i64>,
    pub status: Option<LifecycleStatus>,
}

impl UpdateCategoryCommand {
    /// The required text fields, in the order they are checked.
    pub open spec fn required_fields(&self) -> Seq<(Seq<char>, Seq<char>)> {
        seq![("tenant_id"@, self.tenant_id@), ("category_id"@, self.category_id@)]
    }

    /// Checks the required text fields in order and names the first blank one.
    pub fn validate(&self) -> (r: Result<(), ServiceError>)
        ensures
            required_outcome(r, self.required_fields()),
    {
        let fields = vec![
            ("tenant_id", self.tenant_id.as_str()),
            ("category_id", self.category_id.as_str()),
        ];
        assert(field_views(fields@) =~= self.required_fields());
        require_all_non_empty(&fields)
    }
}

#[derive(Clone, Debug)]
pub struct DeleteCategoryCommand {
    pub tenant_id: String,
    pub category_id: String,
}

impl DeleteCategoryCommand {
    /// The required text fields, in the order they are checked.
    pub open spec fn required_fields(&self) -> Seq<(Seq<char>, Seq<char>)> {
        seq![("tenant_id"@, self.tenant_id@), ("category_id"@, self.category_id@)]
    }

    /// Checks the required text fields in order and names the first blank one.
    pub fn validate(&self) -> (r: Result<(), ServiceError>)
        ensures
            required_outcome(r, self.required_fields()),
    {
        let fields = vec![
            ("tenant_id", self.tenant_id.as_str()),
            ("category_id", self.category_id.as_str()),
        ];
        assert(field_views(fields@) =~= self.required_fields());
        require_all_non_empty(&fields)
    }
}

/// Creates an attribute and its enumerated values.
#[derive(Clone, Debug)]
pub struct CreateAttributeCommand {
    pub tenant_id: String,
    pub organization_id: String,
    pub attribute_no: String,
    pub name: String,
    pub values: Vec<String>,
}

impl CreateAttributeCommand {
    /// The required text fields, in the order they are checked.
    pub open spec fn required_fields(&self) -> Seq<(Seq<char>, Seq<char>)> {
        seq![
            ("tenant_id"@, self.tenant_id@),
            ("organization_id"@, self.organization_id@),
            ("attribute_no"@, self.attribute_no@),
            ("name"@, self.name@),
        ]
    }

    /// Checks the required text fields, then every value: non-blank and at most
    /// `ATTRIBUTE_VALUE_MAX_CHARS` characters.
    pub fn validate(&self) -> (r: Result<(), ServiceError>)
        ensures
            first_blank(self.required_fields()) is Some
                ==> required_outcome(r, self.required_fields()),
            first_blank(self.required_fields()) is None
                ==> attribute_values_outcome(r, self.values@),
    {
        let fields = vec![
            ("tenant_id", self.tenant_id.as_str()),
            ("organization_id", self.organization_id.as_str()),
            ("attribute_no", self.attribute_no.as_str()),
            ("name", self.name.as_str()),
        ];
        assert(field_views(fields@) =~= self.required_fields());
        require_all_non_empty(&fields)?;
        let mut i: usize = 0;
        while i < self.values.len()
            invariant
                i <= self.values@.len(),
                first_blank(self.required_fields()) is None,
                forall|k: int| 0 <= k < i ==> attribute_value_ok(#[trigger] self.values@[k]@),
            decreases self.values@.len() - i,
        {
            let value = self.values[i].as_str();
            match require_non_empty("values[]", value) {
                Ok(()) => {},
                Err(e) => {
                    assert(!attribute_value_ok(self.values@[i as int]@));
                    return Err(e);
                },
            }
            match require_within_chars("values[]", value, ATTRIBUTE_VALUE_MAX_CHARS) {
                Ok(()) => {},
                Err(e) => {
                    assert(!attribute_value_ok(self.values@[i as int]@));
                    return Err(e);
                },
            }
            i = i + 1;
        }
        Ok(())
    }
}

#[derive(Clone, Debug)]
pub struct CreatePriceListCommand {
    pub tenant_id: String,
    pub organization_id: String,
    pub price_list_no: String,
    pub currency_code: String,
    pub market_code: Option<String>,
}

impl CreatePriceListCommand {
    /// The required text fields, in the order they are checked.
    pub open spec fn required_fields(&self) -> Seq<(Seq<char>, Seq<char>)> {
        seq![
            ("tenant_id"@, self.tenant_id@),
            ("organization_id"@, self.organization_id@),
            ("price_list_no"@, self.price_list_no@),
            ("currency_code"@, self.currency_code@),
        ]
    }

    /// Checks the required text fields in order and names the first blank one.
    pub fn validate(&self) -> (r: Result<(), ServiceError>)
        ensures
            required_outcome(r, self.required_fields()),
    {
        let fields = vec![
            ("tenant_id", self.tenant_id.as_str()),
            ("organization_id", self.organization_id.as_str()),
            ("price_list_no", self.price_list_no.as_str()),
            ("currency_code", self.currency_code.as_str()),
        ];
        assert(field_views(fields@) =~= self.required_fields());
        require_all_non_empty(&fields)
    }
}

#[derive(Clone, Debug)]
pub struct UpdatePriceListCommand {
    pub tenant_id: String,
    pub price_list_id: String,
    pub status: Option<LifecycleStatus>,
    pub starts_at: Option<String>,
    pub ends_at: Option<String>,
}

impl UpdatePriceListCommand {
    /// The required text fields, in the order they are checked.
    pub open spec fn required_fields(&self) -> Seq<(Seq<char>, Seq<char>)> {
        seq![("tenant_id"@, self.tenant_id@), ("price_list_id"@, self.price_list_id@)]
    }

    /// Checks the required text fields in order and names the first blank one.
    pub fn validate(&self) -> (r: Result<(), ServiceError>)
        ensures
            required_outcome(r, self.required_fields()),
    {
        let fields = vec![
            ("tenant_id", self.tenant_id.as_str()),
            ("price_list_id", self.price_list_id.as_str()),
        ];
        assert(field_views(fields@) =~= self.required_fields());
        require_all_non_empty(&fields)
    }
}

/// Creates a product SPU. `category_id` is required: a product outside every category cannot be
/// merchandised. The SPU name is derived from `title`.
#[derive(Clone, Debug)]
pub struct CreateProductSpuCommand {
    pub tenant_id: String,
    pub organization_id: String,
    pub spu_no: String,
    pub title: String,
    pub subtitle: Option<String>,
    pub description: Option<String>,
    pub product_type: ProductType,
    pub category_id: String,
}

impl CreateProductSpuCommand {
    /// The required text fields, in the order they are checked.
    pub open spec fn required_fields(&self) -> Seq<(Seq<char>, Seq<char>)> {
        seq![
            ("tenant_id"@, self.tenant_id@),
            ("organization_id"@, self.organization_id@),
            ("spu_no"@, self.spu_no@),
            ("title"@, self.title@),
            ("category_id"@, self.category_id@),
        ]
    }

    /// Checks the required text fields in order and names the first blank one.
    pub fn validate(&self) -> (r: Result<(), ServiceError>)
        ensures
            required_outcome(r, self.required_fields()),
    {
        let fields = vec![
            ("tenant_id", self.tenant_id.as_str()),
            ("organization_id", self.organization_id.as_str()),
            ("spu_no", self.spu_no.as_str()),
            ("title", self.title.as_str()),
            ("category_id", self.category_id.as_str()),
        ];
        assert(field_views(fields@) =~= self.required_fields());
        require_all_non_empty(&fields)
    }
}

#[derive(Clone, Debug)]
pub struct UpdateProductSpuCommand {
    pub tenant_id: String,
    pub spu_id: String,
    pub title: Option<String>,
    pub subtitle: Option<String>,
    pub description: Option<String>,
    pub category_id: Option<String>,
}

impl UpdateProductSpuCommand {
    /// The required text fields, in the order they are checked.
    pub open spec fn required_fields(&self) -> Seq<(Seq<char>, Seq<char>)> {
        seq![("tenant_id"@, self.tenant_id@), ("spu_id"@, self.spu_id@)]
    }

    /// Checks the required text fields in order and names the first blank one.
    pub fn validate(&self) -> (r: Result<(), ServiceError>)
        ensures
            required_outcome(r, self.required_fields()),
    {
        let fields = vec![("tenant_id", self.tenant_id.as_str()), ("spu_id", self.spu_id.as_str())];
        assert(field_views(fields@) =~= self.required_fields());
        require_all_non_empty(&fields)
    }
}

#[derive(Clone, Debug)]
pub struct DeleteProductSpuCommand {
    pub tenant_id: String,
    pub spu_id: String,
}

impl DeleteProductSpuCommand {
    /// The required text fields, in the order they are checked.
    pub open spec fn required_fields(&self) -> Seq<(Seq<char>, Seq<char>)> {
        seq![("tenant_id"@, self.tenant_id@), ("spu_id"@, self.spu_id@)]
    }

    /// Checks the required text fields in order and names the first blank one.
    pub fn validate(&self) -> (r: Result<(), ServiceError>)
        ensures
            required_outcome(r, self.required_fields()),
    {
        let fields = vec![("tenant_id", self.tenant_id.as_str()), ("spu_id", self.spu_id.as_str())];
        assert(field_views(fields@) =~= self.required_fields());
        require_all_non_empty(&fields)
    }
}

#[derive(Clone, Debug)]
pub struct PublishSpuCommand {
    pub tenant_id: String,
    pub spu_id: String,
}

impl PublishSpuCommand {
    /// The required text fields, in the order they are checked.
    pub open spec fn required_fields(&self) -> Seq<(Seq<char>, Seq<char>)> {
        seq![("tenant_id"@, self.tenant_id@), ("spu_id"@, self.spu_id@)]
    }

    /// Checks the required text fields in order and names the first blank one.
    pub fn validate(&self) -> (r: Result<(), ServiceError>)
        ensures
            required_outcome(r, self.required_fields()),
    {
        let fields = vec![("tenant_id", self.tenant_id.as_str()), ("spu_id", self.spu_id.as_str())];
        assert(field_views(fields@) =~= self.required_fields());
        require_all_non_empty(&fields)
    }
}

#[derive(Clone, Debug)]
pub struct ArchiveSpuCommand {
    pub tenant_id: String,
    pub spu_id: String,
}

impl ArchiveSpuCommand {
    /// The required text fields, in the order they are checked.
    pub open spec fn required_fields(&self) -> Seq<(Seq<char>, Seq<char>)> {
        seq![("tenant_id"@, self.tenant_id@), ("spu_id"@, self.spu_id@)]
    }

    /// Checks the required text fields in order and names the first blank one.
    pub fn validate(&self) -> (r: Result<(), ServiceError>)
        ensures
            required_outcome(r, self.required_fields()),
    {
        let fields = vec![("tenant_id", self.tenant_id.as_str()), ("spu_id", self.spu_id.as_str())];
        assert(field_views(fields@) =~= self.required_fields());
        require_all_non_empty(&fields)
    }
}

/// Creates a sellable SKU. `price_amount` is the major-denomination amount charged and
/// `original_price_amount` the optional reference price; the repository resolves the currency's
/// scale and stores exact minor units.
#[derive(Clone, Debug)]
pub struct CreateProductSkuCommand {
    pub tenant_id: String,
    pub organization_id: String,
    pub spu_id: String,
    pub sku_no: String,
    pub name: String,
    pub title: String,
    pub price_amount: CommerceMoney,
    pub original_price_amount: Option<CommerceMoney>,
    pub currency_code: String,
    pub fulfillment_type: FulfillmentType,
    pub inventory_tracking: InventoryTrackingMode,
}

impl CreateProductSkuCommand {
    /// The required text fields, in the order they are checked.
    pub open spec fn required_fields(&self) -> Seq<(Seq<char>, Seq<char>)> {
        seq![
            ("tenant_id"@, self.tenant_id@),
            ("organization_id"@, self.organization_id@),
            ("spu_id"@, self.spu_id@),
            ("sku_no"@, self.sku_no@),
            ("name"@, self.name@),
            ("title"@, self.title@),
            ("currency_code"@, self.currency_code@),
        ]
    }

    /// Checks the required text fields in order and names the first blank one.
    pub fn validate(&self) -> (r: Result<(), ServiceError>)
        ensures
            required_outcome(r, self.required_fields()),
    {
        let fields = vec![
            ("tenant_id", self.tenant_id.as_str()),
            ("organization_id", self.organization_id.as_str()),
            ("spu_id", self.spu_id.as_str()),
            ("sku_no", self.sku_no.as_str()),
            ("name", self.name.as_str()),
            ("title", self.title.as_str()),
            ("currency_code", self.currency_code.as_str()),
        ];
        assert(field_views(fields@) =~= self.required_fields());
        require_all_non_empty(&fields)
    }
}

/// Edits one SKU under optimistic concurrency: `expected_version` is the version the caller read.
/// Omitted fields are left unchanged. Prices are minor units; `list_price_minor` is `None` to keep
/// the reference price, `Some(None)` to clear it and `Some(Some(_))` to replace it.
/// `attribute_value_ids` is `None` to keep the axes and `Some(_)` to replace them, and `metadata`
/// (the capability-owned JSON document as text) is `None` to leave it untouched.
#[derive(Clone, Debug)]
pub struct UpdateProductSkuCommand {
    pub tenant_id: String,
    pub expected_version: i64,
    pub sku_id: String,
    pub name: Option<String>,
    pub title: Option<String>,
    pub sale_price_minor: Option<i64>,
    pub list_price_minor: Option<Option<i64>>,
    pub currency_code: Option<String>,
    pub fulfillment_type: Option<FulfillmentType>,
    pub inventory_tracking: Option<InventoryTrackingMode>,
    pub status: Option<ProductStatus>,
    pub attribute_value_ids: Option<Vec<String>>,
    pub metadata: Option<String>,
}

impl UpdateProductSkuCommand {
    /// The required text fields, in the order they are checked.
    pub open spec fn required_fields(&self) -> Seq<(Seq<char>, Seq<char>)> {
        seq![("tenant_id"@, self.tenant_id@), ("sku_id"@, self.sku_id@)]
    }

    /// Checks the required text fields in order and names the first blank one.
    pub fn validate(&self) -> (r: Result<(), ServiceError>)
        ensures
            required_outcome(r, self.required_fields()),
    {
        let fields = vec![("tenant_id", self.tenant_id.as_str()), ("sku_id", self.sku_id.as_str())];
        assert(field_views(fields@) =~= self.required_fields());
        require_all_non_empty(&fields)
    }
}

#[derive(Clone, Debug)]
pub struct DeleteProductSkuCommand {
    pub tenant_id: String,
    pub sku_id: String,
}

impl DeleteProductSkuCommand {
    /// The required text fields, in the order they are checked.
    pub open spec fn required_fields(&self) -> Seq<(Seq<char>, Seq<char>)> {
        seq![("tenant_id"@, self.tenant_id@), ("sku_id"@, self.sku_id@)]
    }

    /// Checks the required text fields in order and names the first blank one.
    pub fn validate(&self) -> (r: Result<(), ServiceError>)
        ensures
            required_outcome(r, self.required_fields()),
    {
        let fields = vec![("tenant_id", self.tenant_id.as_str()), ("sku_id", self.sku_id.as_str())];
        assert(field_views(fields@) =~= self.required_fields());
        require_all_non_empty(&fields)
    }
}

/// Binds an attribute into a category template. `role` decides whether it is a sales axis there;
/// `source_category_id` records inheritance from another category, never from itself.
#[derive(Clone, Debug)]
pub struct CreateCategoryAttributeCommand {
    pub tenant_id: String,
    pub organization_id: String,
    pub category_id: String,
    pub attribute_id: String,
    pub role: AttributeRole,
    pub required: bool,
    pub searchable: bool,
    pub filterable: bool,
    pub comparable: bool,
    pub source_category_id: Option<String>,
    pub sort_order: i64,
}

impl CreateCategoryAttributeCommand {
    /// The required text fields, in the order they are checked.
    pub open spec fn required_fields(&self) -> Seq<(Seq<char>, Seq<char>)> {
        seq![
            ("tenant_id"@, self.tenant_id@),
            ("organization_id"@, self.organization_id@),
            ("category_id"@, self.category_id@),
            ("attribute_id"@, self.attribute_id@),
        ]
    }

    /// Checks the required text fields, then that the inheritance source is not the category
    /// itself.
    pub fn validate(&self) -> (r: Result<(), ServiceError>)
        ensures
            first_blank(self.required_fields()) is Some
                ==> required_outcome(r, self.required_fields()),
            first_blank(self.required_fields()) is None ==> match self.source_category_id {
                Some(source) => if trim(source@) == trim(self.category_id@) {
                    is_validation(r, SELF_INHERITANCE_MESSAGE@)
                } else {
                    r is Ok
                },
                None => r is Ok,
            },
    {
        let fields = vec![
            ("tenant_id", self.tenant_id.as_str()),
            ("organization_id", self.organization_id.as_str()),
            ("category_id", self.category_id.as_str()),
            ("attribute_id", self.attribute_id.as_str()),
        ];
        assert(field_views(fields@) =~= self.required_fields());
        require_all_non_empty(&fields)?;
        match &self.source_category_id {
            Some(source) => {
                let a = trimmed_chars(source.as_str());
                let b = trimmed_chars(self.category_id.as_str());
                if chars_eq(&a, &b) {
                    return Err(ServiceError::validation_text(SELF_INHERITANCE_MESSAGE));
                }
                Ok(())
            },
            None => Ok(()),
        }
    }
}

/// Updates one category attribute binding; omitted fields are left unchanged.
#[derive(Clone, Debug)]
pub struct UpdateCategoryAttributeCommand {
    pub tenant_id: String,
    pub binding_id: String,
    pub role: Option<AttributeRole>,
    pub required: Option<bool>,
    pub searchable: Option<bool>,
    pub filterable: Option<bool>,
    pub comparable: Option<bool>,
    pub sort_order: Option<i64>,
    pub status: Option<LifecycleStatus>,
}

impl UpdateCategoryAttributeCommand {
    /// The required text fields, in the order they are checked.
    pub open spec fn required_fields(&self) -> Seq<(Seq<char>, Seq<char>)> {
        seq![("tenant_id"@, self.tenant_id@), ("binding_id"@, self.binding_id@)]
    }

    /// Checks the required text fields in order and names the first blank one.
    pub fn validate(&self) -> (r: Result<(), ServiceError>)
        ensures
            required_outcome(r, self.required_fields()),
    {
        let fields = vec![
            ("tenant_id", self.tenant_id.as_str()),
            ("binding_id", self.binding_id.as_str()),
        ];
        assert(field_views(fields@) =~= self.required_fields());
        require_all_non_empty(&fields)
    }
}

#[derive(Clone, Debug)]
pub struct DeleteCategoryAttributeCommand {
    pub tenant_id: String,
    pub binding_id: String,
}

impl DeleteCategoryAttributeCommand {
    /// The required text fields, in the order they are checked.
    pub open spec fn required_fields(&self) -> Seq<(Seq<char>, Seq<char>)> {
        seq![("tenant_id"@, self.tenant_id@), ("binding_id"@, self.binding_id@)]
    }

    /// Checks the required text fields in order and names the first blank one.
    pub fn validate(&self) -> (r: Result<(), ServiceError>)
        ensures
            required_outcome(r, self.required_fields()),
    {
        let fields = vec![
            ("tenant_id", self.tenant_id.as_str()),
            ("binding_id", self.binding_id.as_str()),
        ];
        assert(field_views(fields@) =~= self.required_fields());
        require_all_non_empty(&fields)
    }
}

/// The refusal for a binding that claims to inherit from its own category.
pub const SELF_INHERITANCE_MESSAGE: &'static str =
    "source_category_id must differ from category_id: a category cannot inherit an attribute binding from itself";

/// An attribute value the baseline can store: non-blank and at most 200 characters.
pub open spec fn attribute_value_ok(value: Seq<char>) -> bool {
    !is_blank(value) && value.len() <= ATTRIBUTE_VALUE_MAX_CHARS
}

/// What checking attribute values answers: success, or the first offending value's failure.
pub open spec fn attribute_values_outcome(r: Result<(), ServiceError>, values: Seq<String>) -> bool {
    if forall|i: int| 0 <= i < values.len() ==> attribute_value_ok(#[trigger] values[i]@) {
        r is Ok
    } else {
        exists|i: int|
            0 <= i < values.len() && (forall|k: int| 0 <= k < i ==> attribute_value_ok(
                #[trigger] values[k]@,
            )) && !attribute_value_ok(values[i]@) && is_validation(
                r,
                if is_blank(values[i]@) {
                    required_message("values[]"@)
                } else {
                    "values[]"@ + " must be at most "@ + crate::text::decimal_text(
                        ATTRIBUTE_VALUE_MAX_CHARS as nat,
                    ) + " characters"@
                },
            )
    }
}

} // verus!
