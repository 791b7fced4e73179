//! Catalog domain vocabulary. Each enum owns the storage vocabulary of one baseline CHECK
//! constraint: `as_storage_str` and `from_storage_str` are exact inverses, and the accepted set is
//! the set the database accepts.
use vstd::prelude::*;

use crate::contract::{ServiceError, ServiceErrorKind};
use crate::text::text_eq;

verus! {

/// The storage values `commerce_product_spu.product_type` permits.
pub const PRODUCT_TYPE_VALUES: &'static str = "physical, digital, membership, points, service";
/// The storage values `commerce_product_spu.status` permits.
pub const PRODUCT_STATUS_VALUES: &'static str = "draft, active, inactive, archived";
/// The storage values `commerce_product_sku.fulfillment_type` permits.
pub const FULFILLMENT_TYPE_VALUES: &'static str = "physical, digital, membership_activation, points_topup, service";
/// The storage values `commerce_product_sku.inventory_tracking` permits.
pub const INVENTORY_TRACKING_VALUES: &'static str = "none, quantity";
/// The storage values of the shared two-state lifecycle.
pub const LIFECYCLE_STATUS_VALUES: &'static str = "active, inactive";
/// The storage values `commerce_product_category_attribute.attribute_role` permits.
pub const ATTRIBUTE_ROLE_VALUES: &'static str = "key, sales, parameter";
/// The storage values `commerce_product_media.owner_type` permits.
pub const MEDIA_OWNER_TYPE_VALUES: &'static str = "spu, sku, category, attribute_value";
/// The storage values `commerce_product_media.media_role` permits.
pub const MEDIA_ROLE_VALUES: &'static str = "main_image, gallery_image, detail_image, sku_image, video, manual, certificate";

/// The message that names a value outside a vocabulary and the values that are permitted.
pub open spec fn unknown_value_message(field: Seq<char>, raw: Seq<char>, permitted: Seq<char>) -> Seq<char> {
    field + " `"@ + raw + "` is not one of the permitted values: "@ + permitted
}

/// Rejects a value the baseline CHECK would reject, naming the permitted set.
pub fn unknown_value(field: &str, raw: &str, permitted: &str) -> (e: ServiceError)
    ensures
        e.kind == ServiceErrorKind::Validation,
        e.message@ == unknown_value_message(field@, raw@, permitted@),
{
    let mut message = String::from_str(field);
    message.append(" `");
    message.append(raw);
    message.append("` is not one of the permitted values: ");
    message.append(permitted);
    ServiceError::validation(message)
}
/// `commerce_product_spu.product_type`; a points-recharge product is stored as `points` and a virtual one as `digital`.
#[derive(Clone, Copy, Debug, Eq, PartialEq, Hash, Structural)]
pub enum ProductType {
    /// Stored as `physical`.
    Physical,
    /// Stored as `digital`.
    Virtual,
    /// Stored as `membership`.
    Membership,
    /// Stored as `points`.
    PointsRecharge,
    /// Stored as `service`.
    Service,
}

impl ProductType {
    /// The persisted form of a value.
    pub open spec fn storage_text(self) -> Seq<char> {
        match self {
            ProductType::Physical => "physical"@,
            ProductType::Virtual => "digital"@,
            ProductType::Membership => "membership"@,
            ProductType::PointsRecharge => "points"@,
            ProductType::Service => "service"@,
        }
    }

    /// The value a persisted text names, if any.
    pub open spec fn from_storage_text(raw: Seq<char>) -> Option<ProductType> {
        if raw == "physical"@ {
            Some(ProductType::Physical)
        } else if raw == "digital"@ {
            Some(ProductType::Virtual)
        } else if raw == "membership"@ {
            Some(ProductType::Membership)
        } else if raw == "points"@ {
            Some(ProductType::PointsRecharge)
        } else if raw == "service"@ {
            Some(ProductType::Service)
        } else {
            None
        }
    }

    pub fn as_storage_str(self) -> (s: &'static str)
        ensures
            s@ == self.storage_text(),
    {
        match self {
            ProductType::Physical => "physical",
            ProductType::Virtual => "digital",
            ProductType::Membership => "membership",
            ProductType::PointsRecharge => "points",
            ProductType::Service => "service",
        }
    }

    /// Parses a persisted value; anything else is a validation failure naming the permitted set.
    pub fn from_storage_str(raw: &str) -> (r: Result<ProductType, ServiceError>)
        ensures
            match ProductType::from_storage_text(raw@) {
                Some(v) => r == Ok::<ProductType, ServiceError>(v),
                None => r matches Err(e) && e.kind == ServiceErrorKind::Validation && e.message@
                    == unknown_value_message("product_type"@, raw@, PRODUCT_TYPE_VALUES@),
            },
    {
        if text_eq(raw, "physical") {
            Ok(ProductType::Physical)
        } else if text_eq(raw, "digital") {
            Ok(ProductType::Virtual)
        } else if text_eq(raw, "membership") {
            Ok(ProductType::Membership)
        } else if text_eq(raw, "points") {
            Ok(ProductType::PointsRecharge)
        } else if text_eq(raw, "service") {
            Ok(ProductType::Service)
        } else {
            Err(unknown_value("product_type", raw, PRODUCT_TYPE_VALUES))
        }
    }
}

/// Reading a value back from its persisted form gives the same value, and every accepted text is
/// the persisted form of the value it names.
pub proof fn law_product_type_storage_round_trip(value: ProductType, raw: Seq<char>)
    ensures
        ProductType::from_storage_text(value.storage_text()) == Some(value),
        ProductType::from_storage_text(raw) matches Some(v) ==> v.storage_text() == raw,
{
    reveal_strlit("physical");
    reveal_strlit("digital");
    reveal_strlit("membership");
    reveal_strlit("points");
    reveal_strlit("service");
    assert("digital"@[0] != "service"@[0]);
    assert("physical"@.len() != "digital"@.len());
    assert("physical"@.len() != "membership"@.len());
    assert("physical"@.len() != "points"@.len());
    assert("physical"@.len() != "service"@.len());
    assert("digital"@.len() != "membership"@.len());
    assert("digital"@.len() != "points"@.len());
    assert("membership"@.len() != "points"@.len());
    assert("membership"@.len() != "service"@.len());
    assert("points"@.len() != "service"@.len());
}

/// `commerce_product_spu.status` and `commerce_product_sku.status`; there is no `deleted` status, deletion is a soft-delete pair.
#[derive(Clone, Copy, Debug, Eq, PartialEq, Hash, Structural)]
pub enum ProductStatus {
    /// Stored as `draft`.
    Draft,
    /// Stored as `active`.
    Active,
    /// Stored as `inactive`.
    Inactive,
    /// Stored as `archived`.
    Archived,
}

impl ProductStatus {
    /// The persisted form of a value.
    pub open spec fn storage_text(self) -> Seq<char> {
        match self {
            ProductStatus::Draft => "draft"@,
            ProductStatus::Active => "active"@,
            ProductStatus::Inactive => "inactive"@,
            ProductStatus::Archived => "archived"@,
        }
    }

    /// The value a persisted text names, if any.
    pub open spec fn from_storage_text(raw: Seq<char>) -> Option<ProductStatus> {
        if raw == "draft"@ {
            Some(ProductStatus::Draft)
        } else if raw == "active"@ {
            Some(ProductStatus::Active)
        } else if raw == "inactive"@ {
            Some(ProductStatus::Inactive)
        } else if raw == "archived"@ {
            Some(ProductStatus::Archived)
        } else {
            None
        }
    }

    pub fn as_storage_str(self) -> (s: &'static str)
        ensures
            s@ == self.storage_text(),
    {
        match self {
            ProductStatus::Draft => "draft",
            ProductStatus::Active => "active",
            ProductStatus::Inactive => "inactive",
            ProductStatus::Archived => "archived",
        }
    }

    /// Parses a persisted value; anything else is a validation failure naming the permitted set.
    pub fn from_storage_str(raw: &str) -> (r: Result<ProductStatus, ServiceError>)
        ensures
            match ProductStatus::from_storage_text(raw@) {
                Some(v) => r == Ok::<ProductStatus, ServiceError>(v),
                None => r matches Err(e) && e.kind == ServiceErrorKind::Validation && e.message@
                    == unknown_value_message("status"@, raw@, PRODUCT_STATUS_VALUES@),
            },
    {
        if text_eq(raw, "draft") {
            Ok(ProductStatus::Draft)
        } else if text_eq(raw, "active") {
            Ok(ProductStatus::Active)
        } else if text_eq(raw, "inactive") {
            Ok(ProductStatus::Inactive)
        } else if text_eq(raw, "archived") {
            Ok(ProductStatus::Archived)
        } else {
            Err(unknown_value("status", raw, PRODUCT_STATUS_VALUES))
        }
    }
}

/// Reading a value back from its persisted form gives the same value, and every accepted text is
/// the persisted form of the value it names.
pub proof fn law_product_status_storage_round_trip(value: ProductStatus, raw: Seq<char>)
    ensures
        ProductStatus::from_storage_text(value.storage_text()) == Some(value),
        ProductStatus::from_storage_text(raw) matches Some(v) ==> v.storage_text() == raw,
{
    reveal_strlit("draft");
    reveal_strlit("active");
    reveal_strlit("inactive");
    reveal_strlit("archived");
    assert("inactive"@[0] != "archived"@[0]);
    assert("draft"@.len() != "active"@.len());
    assert("draft"@.len() != "inactive"@.len());
    assert("draft"@.len() != "archived"@.len());
    assert("active"@.len() != "inactive"@.len());
    assert("active"@.len() != "archived"@.len());
}

/// `commerce_product_sku.fulfillment_type`.
#[derive(Clone, Copy, Debug, Eq, PartialEq, Hash, Structural)]
pub enum FulfillmentType {
    /// Stored as `physical`.
    PhysicalShipment,
    /// Stored as `digital`.
    VirtualDelivery,
    /// Stored as `membership_activation`.
    MembershipActivation,
    /// Stored as `points_topup`.
    PointsCredit,
    /// Stored as `service`.
    NoDelivery,
}

impl FulfillmentType {
    /// The persisted form of a value.
    pub open spec fn storage_text(self) -> Seq<char> {
        match self {
            FulfillmentType::PhysicalShipment => "physical"@,
            FulfillmentType::VirtualDelivery => "digital"@,
            FulfillmentType::MembershipActivation => "membership_activation"@,
            FulfillmentType::PointsCredit => "points_topup"@,
            FulfillmentType::NoDelivery => "service"@,
        }
    }

    /// The value a persisted text names, if any.
    pub open spec fn from_storage_text(raw: Seq<char>) -> Option<FulfillmentType> {
        if raw == "physical"@ {
            Some(FulfillmentType::PhysicalShipment)
        } else if raw == "digital"@ {
            Some(FulfillmentType::VirtualDelivery)
        } else if raw == "membership_activation"@ {
            Some(FulfillmentType::MembershipActivation)
        } else if raw == "points_topup"@ {
            Some(FulfillmentType::PointsCredit)
        } else if raw == "service"@ {
            Some(FulfillmentType::NoDelivery)
        } else {
            None
        }
    }

    pub fn as_storage_str(self) -> (s: &'static str)
        ensures
            s@ == self.storage_text(),
    {
        match self {
            FulfillmentType::PhysicalShipment => "physical",
            FulfillmentType::VirtualDelivery => "digital",
            FulfillmentType::MembershipActivation => "membership_activation",
            FulfillmentType::PointsCredit => "points_topup",
            FulfillmentType::NoDelivery => "service",
        }
    }

    /// Parses a persisted value; anything else is a validation failure naming the permitted set.
    pub fn from_storage_str(raw: &str) -> (r: Result<FulfillmentType, ServiceError>)
        ensures
            match FulfillmentType::from_storage_text(raw@) {
                Some(v) => r == Ok::<FulfillmentType, ServiceError>(v),
                None => r matches Err(e) && e.kind == ServiceErrorKind::Validation && e.message@
                    == unknown_value_message("fulfillment_type"@, raw@, FULFILLMENT_TYPE_VALUES@),
            },
    {
        if text_eq(raw, "physical") {
            Ok(FulfillmentType::PhysicalShipment)
        } else if text_eq(raw, "digital") {
            Ok(FulfillmentType::VirtualDelivery)
        } else if text_eq(raw, "membership_activation") {
            Ok(FulfillmentType::MembershipActivation)
        } else if text_eq(raw, "points_topup") {
            Ok(FulfillmentType::PointsCredit)
        } else if text_eq(raw, "service") {
            Ok(FulfillmentType::NoDelivery)
        } else {
            Err(unknown_value("fulfillment_type", raw, FULFILLMENT_TYPE_VALUES))
        }
    }
}

/// Reading a value back from its persisted form gives the same value, and every accepted text is
/// the persisted form of the value it names.
pub proof fn law_fulfillment_type_storage_round_trip(value: FulfillmentType, raw: Seq<char>)
    ensures
        FulfillmentType::from_storage_text(value.storage_text()) == Some(value),
        FulfillmentType::from_storage_text(raw) matches Some(v) ==> v.storage_text() == raw,
{
    reveal_strlit("physical");
    reveal_strlit("digital");
    reveal_strlit("membership_activation");
    reveal_strlit("points_topup");
    reveal_strlit("service");
    assert("digital"@[0] != "service"@[0]);
    assert("physical"@.len() != "digital"@.len());
    assert("physical"@.len() != "membership_activation"@.len());
    assert("physical"@.len() != "points_topup"@.len());
    assert("physical"@.len() != "service"@.len());
    assert("digital"@.len() != "membership_activation"@.len());
    assert("digital"@.len() != "points_topup"@.len());
    assert("membership_activation"@.len() != "points_topup"@.len());
    assert("membership_activation"@.len() != "service"@.len());
    assert("points_topup"@.len() != "service"@.len());
}

/// `commerce_product_sku.inventory_tracking`: whether stock is counted.
#[derive(Clone, Copy, Debug, Eq, PartialEq, Hash, Structural)]
pub enum InventoryTrackingMode {
    /// Stored as `quantity`.
    Counted,
    /// Stored as `none`.
    Untracked,
}

impl InventoryTrackingMode {
    /// The persisted form of a value.
    pub open spec fn storage_text(self) -> Seq<char> {
        match self {
            InventoryTrackingMode::Counted => "quantity"@,
            InventoryTrackingMode::Untracked => "none"@,
        }
    }

    /// The value a persisted text names, if any.
    pub open spec fn from_storage_text(raw: Seq<char>) -> Option<InventoryTrackingMode> {
        if raw == "quantity"@ {
            Some(InventoryTrackingMode::Counted)
        } else if raw == "none"@ {
            Some(InventoryTrackingMode::Untracked)
        } else {
            None
        }
    }

    pub fn as_storage_str(self) -> (s: &'static str)
        ensures
            s@ == self.storage_text(),
    {
        match self {
            InventoryTrackingMode::Counted => "quantity",
            InventoryTrackingMode::Untracked => "none",
        }
    }

    /// Parses a persisted value; anything else is a validation failure naming the permitted set.
    pub fn from_storage_str(raw: &str) -> (r: Result<InventoryTrackingMode, ServiceError>)
        ensures
            match InventoryTrackingMode::from_storage_text(raw@) {
                Some(v) => r == Ok::<InventoryTrackingMode, ServiceError>(v),
                None => r matches Err(e) && e.kind == ServiceErrorKind::Validation && e.message@
                    == unknown_value_message("inventory_tracking"@, raw@, INVENTORY_TRACKING_VALUES@),
            },
    {
        if text_eq(raw, "quantity") {
            Ok(InventoryTrackingMode::Counted)
        } else if text_eq(raw, "none") {
            Ok(InventoryTrackingMode::Untracked)
        } else {
            Err(unknown_value("inventory_tracking", raw, INVENTORY_TRACKING_VALUES))
        }
    }
}

/// Reading a value back from its persisted form gives the same value, and every accepted text is
/// the persisted form of the value it names.
pub proof fn law_inventory_tracking_mode_storage_round_trip(value: InventoryTrackingMode, raw: Seq<char>)
    ensures
        InventoryTrackingMode::from_storage_text(value.storage_text()) == Some(value),
        InventoryTrackingMode::from_storage_text(raw) matches Some(v) ==> v.storage_text() == raw,
{
    reveal_strlit("quantity");
    reveal_strlit("none");
    assert("quantity"@.len() != "none"@.len());
}

/// The shared `('active', 'inactive')` lifecycle vocabulary of categories, attributes, bindings and price lists.
#[derive(Clone, Copy, Debug, Eq, PartialEq, Hash, Structural)]
pub enum LifecycleStatus {
    /// Stored as `active`.
    Active,
    /// Stored as `inactive`.
    Inactive,
}

impl LifecycleStatus {
    /// The persisted form of a value.
    pub open spec fn storage_text(self) -> Seq<char> {
        match self {
            LifecycleStatus::Active => "active"@,
            LifecycleStatus::Inactive => "inactive"@,
        }
    }

    /// The value a persisted text names, if any.
    pub open spec fn from_storage_text(raw: Seq<char>) -> Option<LifecycleStatus> {
        if raw == "active"@ {
            Some(LifecycleStatus::Active)
        } else if raw == "inactive"@ {
            Some(LifecycleStatus::Inactive)
        } else {
            None
        }
    }

    pub fn as_storage_str(self) -> (s: &'static str)
        ensures
            s@ == self.storage_text(),
    {
        match self {
            LifecycleStatus::Active => "active",
            LifecycleStatus::Inactive => "inactive",
        }
    }

    /// Parses a persisted value; anything else is a validation failure naming the permitted set.
    pub fn from_storage_str(field: &str, raw: &str) -> (r: Result<LifecycleStatus, ServiceError>)
        ensures
            match LifecycleStatus::from_storage_text(raw@) {
                Some(v) => r == Ok::<LifecycleStatus, ServiceError>(v),
                None => r matches Err(e) && e.kind == ServiceErrorKind::Validation && e.message@
                    == unknown_value_message(field@, raw@, LIFECYCLE_STATUS_VALUES@),
            },
    {
        if text_eq(raw, "active") {
            Ok(LifecycleStatus::Active)
        } else if text_eq(raw, "inactive") {
            Ok(LifecycleStatus::Inactive)
        } else {
            Err(unknown_value(field, raw, LIFECYCLE_STATUS_VALUES))
        }
    }
}

/// Reading a value back from its persisted form gives the same value, and every accepted text is
/// the persisted form of the value it names.
pub proof fn law_lifecycle_status_storage_round_trip(value: LifecycleStatus, raw: Seq<char>)
    ensures
        LifecycleStatus::from_storage_text(value.storage_text()) == Some(value),
        LifecycleStatus::from_storage_text(raw) matches Some(v) ==> v.storage_text() == raw,
{
    reveal_strlit("active");
    reveal_strlit("inactive");
    assert("active"@.len() != "inactive"@.len());
}

/// `commerce_product_category_attribute.attribute_role`: key, sales axis, or descriptive parameter.
#[derive(Clone, Copy, Debug, Eq, PartialEq, Hash, Structural)]
pub enum AttributeRole {
    /// Stored as `key`.
    Key,
    /// Stored as `sales`.
    Sales,
    /// Stored as `parameter`.
    Parameter,
}

impl AttributeRole {
    /// The persisted form of a value.
    pub open spec fn storage_text(self) -> Seq<char> {
        match self {
            AttributeRole::Key => "key"@,
            AttributeRole::Sales => "sales"@,
            AttributeRole::Parameter => "parameter"@,
        }
    }

    /// The value a persisted text names, if any.
    pub open spec fn from_storage_text(raw: Seq<char>) -> Option<AttributeRole> {
        if raw == "key"@ {
            Some(AttributeRole::Key)
        } else if raw == "sales"@ {
            Some(AttributeRole::Sales)
        } else if raw == "parameter"@ {
            Some(AttributeRole::Parameter)
        } else {
            None
        }
    }

    pub fn as_storage_str(self) -> (s: &'static str)
        ensures
            s@ == self.storage_text(),
    {
        match self {
            AttributeRole::Key => "key",
            AttributeRole::Sales => "sales",
            AttributeRole::Parameter => "parameter",
        }
    }

    /// Parses a persisted value; anything else is a validation failure naming the permitted set.
    pub fn from_storage_str(raw: &str) -> (r: Result<AttributeRole, ServiceError>)
        ensures
            match AttributeRole::from_storage_text(raw@) {
                Some(v) => r == Ok::<AttributeRole, ServiceError>(v),
                None => r matches Err(e) && e.kind == ServiceErrorKind::Validation && e.message@
                    == unknown_value_message("attribute_role"@, raw@, ATTRIBUTE_ROLE_VALUES@),
            },
    {
        if text_eq(raw, "key") {
            Ok(AttributeRole::Key)
        } else if text_eq(raw, "sales") {
            Ok(AttributeRole::Sales)
        } else if text_eq(raw, "parameter") {
            Ok(AttributeRole::Parameter)
        } else {
            Err(unknown_value("attribute_role", raw, ATTRIBUTE_ROLE_VALUES))
        }
    }
}

/// Reading a value back from its persisted form gives the same value, and every accepted text is
/// the persisted form of the value it names.
pub proof fn law_attribute_role_storage_round_trip(value: AttributeRole, raw: Seq<char>)
    ensures
        AttributeRole::from_storage_text(value.storage_text()) == Some(value),
        AttributeRole::from_storage_text(raw) matches Some(v) ==> v.storage_text() == raw,
{
    reveal_strlit("key");
    reveal_strlit("sales");
    reveal_strlit("parameter");
    assert("key"@.len() != "sales"@.len());
    assert("key"@.len() != "parameter"@.len());
    assert("sales"@.len() != "parameter"@.len());
}

/// `commerce_product_media.owner_type`: the kind of row a media attachment belongs to.
#[derive(Clone, Copy, Debug, Eq, PartialEq, Hash, Structural)]
pub enum MediaOwnerType {
    /// Stored as `spu`.
    Spu,
    /// Stored as `sku`.
    Sku,
    /// Stored as `category`.
    Category,
    /// Stored as `attribute_value`.
    AttributeValue,
}

impl MediaOwnerType {
    /// The persisted form of a value.
    pub open spec fn storage_text(self) -> Seq<char> {
        match self {
            MediaOwnerType::Spu => "spu"@,
            MediaOwnerType::Sku => "sku"@,
            MediaOwnerType::Category => "category"@,
            MediaOwnerType::AttributeValue => "attribute_value"@,
        }
    }

    /// The value a persisted text names, if any.
    pub open spec fn from_storage_text(raw: Seq<char>) -> Option<MediaOwnerType> {
        if raw == "spu"@ {
            Some(MediaOwnerType::Spu)
        } else if raw == "sku"@ {
            Some(MediaOwnerType::Sku)
        } else if raw == "category"@ {
            Some(MediaOwnerType::Category)
        } else if raw == "attribute_value"@ {
            Some(MediaOwnerType::AttributeValue)
        } else {
            None
        }
    }

    pub fn as_storage_str(self) -> (s: &'static str)
        ensures
            s@ == self.storage_text(),
    {
        match self {
            MediaOwnerType::Spu => "spu",
            MediaOwnerType::Sku => "sku",
            MediaOwnerType::Category => "category",
            MediaOwnerType::AttributeValue => "attribute_value",
        }
    }

    /// Parses a persisted value; anything else is a validation failure naming the permitted set.
    pub fn from_storage_str(field: &str, raw: &str) -> (r: Result<MediaOwnerType, ServiceError>)
        ensures
            match MediaOwnerType::from_storage_text(raw@) {
                Some(v) => r == Ok::<MediaOwnerType, ServiceError>(v),
                None => r matches Err(e) && e.kind == ServiceErrorKind::Validation && e.message@
                    == unknown_value_message(field@, raw@, MEDIA_OWNER_TYPE_VALUES@),
            },
    {
        if text_eq(raw, "spu") {
            Ok(MediaOwnerType::Spu)
        } else if text_eq(raw, "sku") {
            Ok(MediaOwnerType::Sku)
        } else if text_eq(raw, "category") {
            Ok(MediaOwnerType::Category)
        } else if text_eq(raw, "attribute_value") {
            Ok(MediaOwnerType::AttributeValue)
        } else {
            Err(unknown_value(field, raw, MEDIA_OWNER_TYPE_VALUES))
        }
    }
}

/// Reading a value back from its persisted form gives the same value, and every accepted text is
/// the persisted form of the value it names.
pub proof fn law_media_owner_type_storage_round_trip(value: MediaOwnerType, raw: Seq<char>)
    ensures
        MediaOwnerType::from_storage_text(value.storage_text()) == Some(value),
        MediaOwnerType::from_storage_text(raw) matches Some(v) ==> v.storage_text() == raw,
{
    reveal_strlit("spu");
    reveal_strlit("sku");
    reveal_strlit("category");
    reveal_strlit("attribute_value");
    assert("spu"@[1] != "sku"@[1]);
    assert("spu"@.len() != "category"@.len());
    assert("spu"@.len() != "attribute_value"@.len());
    assert("sku"@.len() != "category"@.len());
    assert("sku"@.len() != "attribute_value"@.len());
    assert("category"@.len() != "attribute_value"@.len());
}

/// `commerce_product_media.media_role`.
#[derive(Clone, Copy, Debug, Eq, PartialEq, Hash, Structural)]
pub enum MediaRole {
    /// Stored as `main_image`.
    MainImage,
    /// Stored as `gallery_image`.
    GalleryImage,
    /// Stored as `detail_image`.
    DetailImage,
    /// Stored as `sku_image`.
    SkuImage,
    /// Stored as `video`.
    Video,
    /// Stored as `manual`.
    Manual,
    /// Stored as `certificate`.
    Certificate,
}

impl MediaRole {
    /// The persisted form of a value.
    pub open spec fn storage_text(self) -> Seq<char> {
        match self {
            MediaRole::MainImage => "main_image"@,
            MediaRole::GalleryImage => "gallery_image"@,
            MediaRole::DetailImage => "detail_image"@,
            MediaRole::SkuImage => "sku_image"@,
            MediaRole::Video => "video"@,
            MediaRole::Manual => "manual"@,
            MediaRole::Certificate => "certificate"@,
        }
    }

    /// The value a persisted text names, if any.
    pub open spec fn from_storage_text(raw: Seq<char>) -> Option<MediaRole> {
        if raw == "main_image"@ {
            Some(MediaRole::MainImage)
        } else if raw == "gallery_image"@ {
            Some(MediaRole::GalleryImage)
        } else if raw == "detail_image"@ {
            Some(MediaRole::DetailImage)
        } else if raw == "sku_image"@ {
            Some(MediaRole::SkuImage)
        } else if raw == "video"@ {
            Some(MediaRole::Video)
        } else if raw == "manual"@ {
            Some(MediaRole::Manual)
        } else if raw == "certificate"@ {
            Some(MediaRole::Certificate)
        } else {
            None
        }
    }

    pub fn as_storage_str(self) -> (s: &'static str)
        ensures
            s@ == self.storage_text(),
    {
        match self {
            MediaRole::MainImage => "main_image",
            MediaRole::GalleryImage => "gallery_image",
            MediaRole::DetailImage => "detail_image",
            MediaRole::SkuImage => "sku_image",
            MediaRole::Video => "video",
            MediaRole::Manual => "manual",
            MediaRole::Certificate => "certificate",
        }
    }

    /// Parses a persisted value; anything else is a validation failure naming the permitted set.
    pub fn from_storage_str(field: &str, raw: &str) -> (r: Result<MediaRole, ServiceError>)
        ensures
            match MediaRole::from_storage_text(raw@) {
                Some(v) => r == Ok::<MediaRole, ServiceError>(v),
                None => r matches Err(e) && e.kind == ServiceErrorKind::Validation && e.message@
                    == unknown_value_message(field@, raw@, MEDIA_ROLE_VALUES@),
            },
    {
        if text_eq(raw, "main_image") {
            Ok(MediaRole::MainImage)
        } else if text_eq(raw, "gallery_image") {
            Ok(MediaRole::GalleryImage)
        } else if text_eq(raw, "detail_image") {
            Ok(MediaRole::DetailImage)
        } else if text_eq(raw, "sku_image") {
            Ok(MediaRole::SkuImage)
        } else if text_eq(raw, "video") {
            Ok(MediaRole::Video)
        } else if text_eq(raw, "manual") {
            Ok(MediaRole::Manual)
        } else if text_eq(raw, "certificate") {
            Ok(MediaRole::Certificate)
        } else {
            Err(unknown_value(field, raw, MEDIA_ROLE_VALUES))
        }
    }
}

/// Reading a value back from its persisted form gives the same value, and every accepted text is
/// the persisted form of the value it names.
pub proof fn law_media_role_storage_round_trip(value: MediaRole, raw: Seq<char>)
    ensures
        MediaRole::from_storage_text(value.storage_text()) == Some(value),
        MediaRole::from_storage_text(raw) matches Some(v) ==> v.storage_text() == raw,
{
    reveal_strlit("main_image");
    reveal_strlit("gallery_image");
    reveal_strlit("detail_image");
    reveal_strlit("sku_image");
    reveal_strlit("video");
    reveal_strlit("manual");
    reveal_strlit("certificate");
    assert("main_image"@.len() != "gallery_image"@.len());
    assert("main_image"@.len() != "detail_image"@.len());
    assert("main_image"@.len() != "sku_image"@.len());
    assert("main_image"@.len() != "video"@.len());
    assert("main_image"@.len() != "manual"@.len());
    assert("main_image"@.len() != "certificate"@.len());
    assert("gallery_image"@.len() != "detail_image"@.len());
    assert("gallery_image"@.len() != "sku_image"@.len());
    assert("gallery_image"@.len() != "video"@.len());
    assert("gallery_image"@.len() != "manual"@.len());
    assert("gallery_image"@.len() != "certificate"@.len());
    assert("detail_image"@.len() != "sku_image"@.len());
    assert("detail_image"@.len() != "video"@.len());
    assert("detail_image"@.len() != "manual"@.len());
    assert("detail_image"@.len() != "certificate"@.len());
    assert("sku_image"@.len() != "video"@.len());
    assert("sku_image"@.len() != "manual"@.len());
    assert("sku_image"@.len() != "certificate"@.len());
    assert("video"@.len() != "manual"@.len());
    assert("video"@.len() != "certificate"@.len());
    assert("manual"@.len() != "certificate"@.len());
}

impl MediaOwnerType {
    /// Whether an owner of this kind may carry a media role: a dictionary value's media is its
    /// swatch, so an `attribute_value` owner admits only the image roles.
    pub open spec fn admits(self, role: MediaRole) -> bool {
        match self {
            MediaOwnerType::AttributeValue => role == MediaRole::MainImage || role
                == MediaRole::SkuImage || role == MediaRole::GalleryImage,
            _ => true,
        }
    }

    pub fn admits_role(self, role: MediaRole) -> (b: bool)
        ensures
            b == self.admits(role),
    {
        match self {
            MediaOwnerType::AttributeValue => role == MediaRole::MainImage || role
                == MediaRole::SkuImage || role == MediaRole::GalleryImage,
            _ => true,
        }
    }
}

} // verus!
