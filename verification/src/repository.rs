//! The catalog repository's decisions, apart from the statements that read and write rows: how
//! wire ids parse, which failures a statement's outcome stands for, how the category tree moves,
//! and which SKU prices a write may store.
use vstd::prelude::*;

use crate::contract::{ServiceError, ServiceErrorKind};
use crate::decimal::{int64_value, parse_i64_text};
use crate::domain::{unknown_value_message, MediaOwnerType, MediaRole, MEDIA_OWNER_TYPE_VALUES};
use crate::ports::{GuardedWrite, StaleVersion};
use crate::rounding::{MoneyError, RoundingMode};
use crate::text::{signed_decimal_string, signed_decimal_text, string_of, text_eq};
use crate::unit::{valid_code, MoneyUnit, MAX_SCALE};

verus! {

/// A failed result carrying a failure of `kind` with exactly `message`.
pub open spec fn fails_with<T>(r: Result<T, ServiceError>, kind: ServiceErrorKind, message: Seq<
    char,
>) -> bool {
    r matches Err(e) && e.kind == kind && e.message@ == message
}

/// The message for a wire id that is not a decimal `i64`.
pub open spec fn bad_id_message(field: Seq<char>, raw: Seq<char>) -> Seq<char> {
    field + " must be a decimal int64 id, got `"@ + raw + "`"@
}

/// Parses a wire id (a decimal string, surrounding white space aside) into the stored `BIGINT`.
pub fn parse_id(field: &str, raw: &str) -> (r: Result<i64, ServiceError>)
    ensures
        match int64_value(raw@) {
            Some(v) => r == Ok::<i64, ServiceError>(v),
            None => fails_with(r, ServiceErrorKind::Validation, bad_id_message(field@, raw@)),
        },
{
    match parse_i64_text(raw) {
        Some(v) => Ok(v),
        None => {
            let mut message = String::from_str(field);
            message.append(" must be a decimal int64 id, got `");
            message.append(raw);
            message.append("`");
            Err(ServiceError::validation(message))
        },
    }
}

/// Parses an optional wire id; absence stays absence.
pub fn parse_optional_id(field: &str, raw: Option<&str>) -> (r: Result<Option<i64>, ServiceError>)
    ensures
        match raw {
            None => r == Ok::<Option<i64>, ServiceError>(None),
            Some(text) => match int64_value(text@) {
                Some(v) => r == Ok::<Option<i64>, ServiceError>(Some(v)),
                None => fails_with(r, ServiceErrorKind::Validation, bad_id_message(field@, text@)),
            },
        },
{
    match raw {
        None => Ok(None),
        Some(text) => {
            let id = parse_id(field, text)?;
            Ok(Some(id))
        },
    }
}

/// Refuses a sale price above the list price; both are minor units of one currency, so the
/// comparison is a plain integer one. Without a list price there is nothing to exceed.
pub fn ensure_sale_not_above_list(sale_price_minor: i64, list_price_minor: Option<i64>) -> (r:
    Result<(), ServiceError>)
    ensures
        (list_price_minor matches Some(list) && sale_price_minor > list) ==> fails_with(
            r,
            ServiceErrorKind::Validation,
            "salePriceMinor must not exceed listPriceMinor"@,
        ),
        !(list_price_minor matches Some(list) && sale_price_minor > list) ==> r is Ok,
{
    if let Some(list) = list_price_minor {
        if sale_price_minor > list {
            return Err(
                ServiceError::validation_text("salePriceMinor must not exceed listPriceMinor"),
            );
        }
    }
    Ok(())
}

/// The orderings an SPU list can be read in.
#[derive(Clone, Copy, Debug, PartialEq, Eq, Structural)]
pub enum SpuListOrder {
    /// Newest first; the default.
    CreatedDesc,
    /// By the lowest live sale price, cheapest first.
    PriceAsc,
    /// By the lowest live sale price, dearest first.
    PriceDesc,
}

/// The ordering a requested sort key selects: only `price-asc` and `price-desc` are recognised,
/// and every other key, or none, falls back to newest first.
pub open spec fn spu_list_order_of(sort: Option<Seq<char>>) -> SpuListOrder {
    match sort {
        Some(key) => if key == "price-asc"@ {
            SpuListOrder::PriceAsc
        } else if key == "price-desc"@ {
            SpuListOrder::PriceDesc
        } else {
            SpuListOrder::CreatedDesc
        },
        None => SpuListOrder::CreatedDesc,
    }
}

/// Selects the SPU ordering for a requested sort key.
pub fn spu_list_order(sort: Option<&str>) -> (r: SpuListOrder)
    ensures
        r == spu_list_order_of(
            match sort {
                Some(s) => Some(s@),
                None => None,
            },
        ),
{
    match sort {
        Some(key) => if text_eq(key, "price-asc") {
            SpuListOrder::PriceAsc
        } else if text_eq(key, "price-desc") {
            SpuListOrder::PriceDesc
        } else {
            SpuListOrder::CreatedDesc
        },
        None => SpuListOrder::CreatedDesc,
    }
}

/// What a guarded write that matched no row stands for, given the version a second read found:
/// a live row at another version is stale, and no live row at all is a missing `subject`.
pub fn guarded_miss_outcome(subject: &str, expected_version: i64, current: Option<i64>) -> (r:
    Result<StaleVersion, ServiceError>)
    ensures
        match current {
            Some(actual) => r == Ok::<StaleVersion, ServiceError>(
                StaleVersion { expected: expected_version, actual },
            ),
            None => fails_with(r, ServiceErrorKind::NotFound, subject@ + " was not found"@),
        },
{
    match current {
        Some(actual) => Ok(StaleVersion { expected: expected_version, actual }),
        None => {
            let mut message = String::from_str(subject);
            message.append(" was not found");
            Err(ServiceError::not_found(message))
        },
    }
}

/// The failure a statement error stands for, by its SQLSTATE: a duplicate business key (`23505`)
/// is a conflict, a violated CHECK (`23514`) or a missing reference (`23503`) a validation
/// failure, and anything else a storage failure that carries the driver's own text.
pub open spec fn store_failure_of(context: Seq<char>, sqlstate: Option<Seq<char>>, detail: Seq<
    char,
>) -> (ServiceErrorKind, Seq<char>) {
    if sqlstate == Some("23505"@) {
        (
            ServiceErrorKind::Conflict,
            context + ": a live record with the same business key already exists"@,
        )
    } else if sqlstate == Some("23514"@) {
        (ServiceErrorKind::Validation, context + ": the request violates a catalog integrity rule"@)
    } else if sqlstate == Some("23503"@) {
        (ServiceErrorKind::Validation, context + ": a referenced record does not exist"@)
    } else {
        (ServiceErrorKind::Storage, context + ": "@ + detail)
    }
}

/// Classifies a failed statement for the transport, from its SQLSTATE and its description.
pub fn store_failure(context: &str, sqlstate: Option<&str>, detail: &str) -> (e: ServiceError)
    ensures
        (e.kind, e.message@) == store_failure_of(
            context@,
            match sqlstate {
                Some(s) => Some(s@),
                None => None,
            },
            detail@,
        ),
{
    let mut message = String::from_str(context);
    if let Some(code) = sqlstate {
        if text_eq(code, "23505") {
            message.append(": a live record with the same business key already exists");
            return ServiceError::conflict(message);
        } else if text_eq(code, "23514") {
            message.append(": the request violates a catalog integrity rule");
            return ServiceError::validation(message);
        } else if text_eq(code, "23503") {
            message.append(": a referenced record does not exist");
            return ServiceError::validation(message);
        }
    }
    message.append(": ");
    message.append(detail);
    ServiceError::storage(message)
}


/// The locked state of one category row: its parent, its self-inclusive path, and its depth.
#[derive(Clone, Debug)]
pub struct LockedCategory {
    pub parent_id: Option<i64>,
    pub path: String,
    pub depth: i64,
}

/// Where a category sits in the tree: its self-inclusive path and its number of ancestors.
#[derive(Clone, Debug)]
pub struct CategoryPlacement {
    pub path: String,
    pub depth: i64,
}

/// The path of category `id` below a parent path: the parent's path, then the id and a slash.
pub open spec fn child_path(parent_path: Seq<char>, id: i64) -> Seq<char> {
    parent_path + signed_decimal_text(id as int) + "/"@
}

/// Places a new category: a root is `/{id}/` at depth 0, and a child extends its parent's path
/// one level deeper.
pub fn place_new_category(id: i64, parent: Option<&LockedCategory>) -> (r: CategoryPlacement)
    requires
        parent matches Some(p) ==> p.depth < i64::MAX,
    ensures
        match parent {
            None => r.path@ == child_path("/"@, id) && r.depth == 0,
            Some(p) => r.path@ == child_path(p.path@, id) && r.depth == p.depth + 1,
        },
{
    let digits = signed_decimal_string(id);
    match parent {
        None => {
            let mut path = String::from_str("/");
            path.append(digits.as_str());
            path.append("/");
            CategoryPlacement { path, depth: 0 }
        },
        Some(p) => {
            let mut path = p.path.clone();
            path.append(digits.as_str());
            path.append("/");
            CategoryPlacement { path, depth: p.depth + 1 }
        },
    }
}

/// What an update asks of a category's position in the tree.
#[derive(Clone, Copy, Debug, PartialEq, Eq, Structural)]
pub enum CategoryReparent {
    /// The parent stays as it is.
    Unchanged,
    /// The category and its subtree move under this parent.
    MoveUnder(i64),
}

/// Decides whether an update moves category `id`: only a requested parent other than the current
/// one does (a root's current parent compares as `i64::MIN`), and a category cannot be its own
/// parent.
pub fn category_reparent(id: i64, previous_parent: Option<i64>, requested_parent: Option<i64>) -> (r:
    Result<CategoryReparent, ServiceError>)
    ensures
        match requested_parent {
            None => r == Ok::<CategoryReparent, ServiceError>(CategoryReparent::Unchanged),
            Some(p) => if p == (match previous_parent {
                Some(q) => q,
                None => i64::MIN,
            }) {
                r == Ok::<CategoryReparent, ServiceError>(CategoryReparent::Unchanged)
            } else if p == id {
                fails_with(r, ServiceErrorKind::Validation, "a category cannot be its own parent"@)
            } else {
                r == Ok::<CategoryReparent, ServiceError>(CategoryReparent::MoveUnder(p))
            },
        },
{
    match requested_parent {
        None => Ok(CategoryReparent::Unchanged),
        Some(p) => {
            let previous = match previous_parent {
                Some(q) => q,
                None => i64::MIN,
            };
            if p == previous {
                Ok(CategoryReparent::Unchanged)
            } else if p == id {
                Err(ServiceError::validation_text("a category cannot be its own parent"))
            } else {
                Ok(CategoryReparent::MoveUnder(p))
            }
        },
    }
}

/// How a subtree move rewrites its rows: every path under the old one gets `new_prefix` in place
/// of its first `cut - 1` characters, and every depth shifts by `depth_delta`.
#[derive(Clone, Debug)]
pub struct SubtreeMove {
    pub new_prefix: String,
    pub depth_delta: i64,
    pub cut: i32,
}

/// Whether `prefix` begins `s`.
pub fn starts_with(s: &str, prefix: &str) -> (r: bool)
    ensures
        r == prefix@.is_prefix_of(s@),
{
    let a = crate::text::chars_of(s);
    let b = crate::text::chars_of(prefix);
    if b.len() > a.len() {
        return false;
    }
    let mut i: usize = 0;
    while i < b.len()
        invariant
            i <= b@.len() <= a@.len(),
            a@ == s@,
            b@ == prefix@,
            forall|k: int| 0 <= k < i ==> a@[k] == b@[k],
        decreases b@.len() - i,
    {
        if a[i] != b[i] {
            return false;
        }
        i = i + 1;
    }
    assert(b@ =~= a@.subrange(0, b@.len() as int));
    true
}

/// Plans moving category `id` (currently `current`) under `parent`. A category cannot move under
/// one of its own descendants, whose paths begin with its own.
pub fn plan_subtree_move(id: i64, current: &LockedCategory, parent: &LockedCategory) -> (r: Result<
    SubtreeMove,
    ServiceError,
>)
    requires
        parent.depth < i64::MAX,
        i64::MIN <= parent.depth + 1 - current.depth <= i64::MAX,
    ensures
        current.path@.is_prefix_of(parent.path@) ==> fails_with(
            r,
            ServiceErrorKind::Validation,
            "a category cannot be moved under one of its own descendants"@,
        ),
        !current.path@.is_prefix_of(parent.path@) ==> (r matches Ok(m) && m.new_prefix@
            == child_path(parent.path@, id) && m.depth_delta == parent.depth + 1 - current.depth
            && m.cut as int == (if current.path@.len() < i32::MAX {
            current.path@.len() + 1
        } else {
            i32::MAX as nat
        })),
{
    if starts_with(parent.path.as_str(), current.path.as_str()) {
        return Err(
            ServiceError::validation_text(
                "a category cannot be moved under one of its own descendants",
            ),
        );
    }
    let digits = signed_decimal_string(id);
    let mut new_prefix = parent.path.clone();
    new_prefix.append(digits.as_str());
    new_prefix.append("/");
    let length = current.path.unicode_len();
    let cut: i32 = if length < 2147483647usize {
        (length + 1) as i32
    } else {
        2147483647i32
    };
    Ok(SubtreeMove { new_prefix, depth_delta: parent.depth + 1 - current.depth, cut })
}

/// Refuses to retire a category that still has live children.
pub fn ensure_no_live_children(live_children: i64) -> (r: Result<(), ServiceError>)
    ensures
        live_children > 0 ==> fails_with(
            r,
            ServiceErrorKind::Conflict,
            "category still has child categories"@,
        ),
        live_children <= 0 ==> r is Ok,
{
    if live_children > 0 {
        return Err(ServiceError::conflict(String::from_str("category still has child categories")));
    }
    Ok(())
}

/// Refuses to retire a category that live products still point at.
pub fn ensure_no_live_products(live_products: i64) -> (r: Result<(), ServiceError>)
    ensures
        live_products > 0 ==> fails_with(
            r,
            ServiceErrorKind::Conflict,
            "category still has products assigned to it"@,
        ),
        live_products <= 0 ==> r is Ok,
{
    if live_products > 0 {
        return Err(
            ServiceError::conflict(String::from_str("category still has products assigned to it")),
        );
    }
    Ok(())
}

/// Refuses to publish a product with no live SKU: there would be nothing to buy.
pub fn ensure_publishable(live_skus: i64) -> (r: Result<(), ServiceError>)
    ensures
        live_skus == 0 ==> fails_with(
            r,
            ServiceErrorKind::Conflict,
            "a product needs at least one sku before it can be published"@,
        ),
        live_skus != 0 ==> r is Ok,
{
    if live_skus == 0 {
        return Err(
            ServiceError::conflict(
                String::from_str("a product needs at least one sku before it can be published"),
            ),
        );
    }
    Ok(())
}


/// The currency a SKU update settles on, and whether that changes the stored one.
#[derive(Clone, Debug)]
pub struct CurrencyChange {
    pub currency_code: String,
    pub changed: bool,
}

/// Settles a SKU update's currency. A change of currency must restate the sale price, and must
/// restate or clear a stored list price: a minor count cannot be reinterpreted under a new scale.
pub fn check_currency_change(
    current_currency: &str,
    current_list: Option<i64>,
    requested_currency: Option<&str>,
    requested_sale: Option<i64>,
    requested_list: Option<Option<i64>>,
) -> (r: Result<CurrencyChange, ServiceError>)
    ensures
        ({
            let effective = match requested_currency {
                Some(c) => c@,
                None => current_currency@,
            };
            let changed = effective != current_currency@;
            if changed && requested_sale is None {
                fails_with(
                    r,
                    ServiceErrorKind::Validation,
                    "changing currency_code requires salePriceMinor to be restated in the new currency"@,
                )
            } else if changed && current_list is Some && requested_list is None {
                fails_with(
                    r,
                    ServiceErrorKind::Validation,
                    "changing currency_code requires listPriceMinor to be restated or cleared"@,
                )
            } else {
                r matches Ok(c) && c.currency_code@ == effective && c.changed == changed
            }
        }),
{
    let effective = match requested_currency {
        Some(c) => String::from_str(c),
        None => String::from_str(current_currency),
    };
    let changed = !text_eq(effective.as_str(), current_currency);
    if changed {
        if requested_sale.is_none() {
            return Err(
                ServiceError::validation_text(
                    "changing currency_code requires salePriceMinor to be restated in the new currency",
                ),
            );
        }
        if current_list.is_some() && requested_list.is_none() {
            return Err(
                ServiceError::validation_text(
                    "changing currency_code requires listPriceMinor to be restated or cleared",
                ),
            );
        }
    }
    Ok(CurrencyChange { currency_code: effective, changed })
}

/// The list price an update stores: an explicit restatement or clearing wins, an omitted one
/// keeps the stored price, except across a currency change, where nothing stored can remain.
pub open spec fn settled_list_price(
    changed: bool,
    current_list: Option<i64>,
    requested_list: Option<Option<i64>>,
) -> Option<i64> {
    match requested_list {
        Some(list) => list,
        None => if changed {
            None
        } else {
            current_list
        },
    }
}

/// The sale price an update stores: the restated one, else the stored one.
pub open spec fn settled_sale_price(current_sale: i64, requested_sale: Option<i64>) -> i64 {
    match requested_sale {
        Some(sale) => sale,
        None => current_sale,
    }
}

/// A price an update states is the price it settles on: a restated list price (`Some(Some(v))`)
/// is stored as `v` and a cleared one (`Some(None)`) as none, whether or not the currency changes,
/// and a restated sale price is stored as given. Only an omitted list price depends on the stored
/// one, and then only without a currency change.
pub proof fn law_stated_prices_are_stored(
    changed: bool,
    current_sale: i64,
    current_list: Option<i64>,
    requested_sale: Option<i64>,
    requested_list: Option<Option<i64>>,
)
    ensures
        match requested_list {
            Some(stated) => settled_list_price(changed, current_list, requested_list) == stated,
            None => true,
        },
        requested_list is None && !changed ==> settled_list_price(
            changed,
            current_list,
            requested_list,
        ) == current_list,
        requested_list is None && changed ==> settled_list_price(
            changed,
            current_list,
            requested_list,
        ) is None,
        match requested_sale {
            Some(v) => settled_sale_price(current_sale, requested_sale) == v,
            None => true,
        },
        requested_sale is None ==> settled_sale_price(current_sale, requested_sale) == current_sale,
{
}

/// Settles the prices a SKU update stores, then refuses a sale price above the list price.
pub fn settle_sku_prices(
    changed: bool,
    current_sale: i64,
    current_list: Option<i64>,
    requested_sale: Option<i64>,
    requested_list: Option<Option<i64>>,
) -> (r: Result<(i64, Option<i64>), ServiceError>)
    ensures
        ({
            let sale = settled_sale_price(current_sale, requested_sale);
            let list = settled_list_price(changed, current_list, requested_list);
            if list matches Some(l) && sale > l {
                fails_with(
                    r,
                    ServiceErrorKind::Validation,
                    "salePriceMinor must not exceed listPriceMinor"@,
                )
            } else {
                r == Ok::<(i64, Option<i64>), ServiceError>((sale, list))
            }
        }),
        match (requested_sale, r) {
            (Some(v), Ok(prices)) => prices.0 == v,
            _ => true,
        },
        match (requested_list, r) {
            (Some(stated), Ok(prices)) => prices.1 == stated,
            _ => true,
        },
{
    let sale = match requested_sale {
        Some(value) => value,
        None => current_sale,
    };
    let list = match requested_list {
        Some(value) => value,
        None => if changed {
            None
        } else {
            current_list
        },
    };
    ensure_sale_not_above_list(sale, list)?;
    Ok((sale, list))
}

/// The pricing columns of a locked SKU row, with the row's optimistic-concurrency version.
#[derive(Clone, Debug)]
pub struct SkuPriceRow {
    pub version: i64,
    pub currency_code: String,
    pub sale_price_minor: i64,
    pub list_price_minor: Option<i64>,
}

/// Decides a guarded SKU price edit against the row the write locked (`None`: no live row), in
/// the order the write checks: the row must exist, a currency change must restate its prices,
/// the settled sale price must not exceed the list price, and only then is the caller's version
/// compared. A refusal and a stale version write nothing; an applied edit stores the settled
/// prices under the next version.
pub fn plan_sku_price_edit(
    row: Option<SkuPriceRow>,
    expected_version: i64,
    requested_currency: Option<&str>,
    requested_sale: Option<i64>,
    requested_list: Option<Option<i64>>,
) -> (r: Result<GuardedWrite<SkuPriceRow>, ServiceError>)
    requires
        row matches Some(current) ==> current.version < i64::MAX,
    ensures
        match row {
            None => fails_with(r, ServiceErrorKind::NotFound, "sku was not found"@),
            Some(current) => {
                let effective = match requested_currency {
                    Some(c) => c@,
                    None => current.currency_code@,
                };
                let changed = effective != current.currency_code@;
                let sale = settled_sale_price(current.sale_price_minor, requested_sale);
                let list = settled_list_price(changed, current.list_price_minor, requested_list);
                if changed && requested_sale is None {
                    fails_with(
                        r,
                        ServiceErrorKind::Validation,
                        "changing currency_code requires salePriceMinor to be restated in the new currency"@,
                    )
                } else if changed && current.list_price_minor is Some && requested_list is None {
                    fails_with(
                        r,
                        ServiceErrorKind::Validation,
                        "changing currency_code requires listPriceMinor to be restated or cleared"@,
                    )
                } else if list matches Some(l) && sale > l {
                    fails_with(
                        r,
                        ServiceErrorKind::Validation,
                        "salePriceMinor must not exceed listPriceMinor"@,
                    )
                } else if current.version != expected_version {
                    r matches Ok(GuardedWrite::StaleVersion(stale)) && stale == (StaleVersion {
                        expected: expected_version,
                        actual: current.version,
                    })
                } else {
                    r matches Ok(GuardedWrite::Applied(next)) && next.version == current.version + 1
                        && next.currency_code@ == effective && next.sale_price_minor == sale
                        && next.list_price_minor == list
                }
            },
        },
        match (requested_sale, r) {
            (Some(v), Ok(GuardedWrite::Applied(next))) => next.sale_price_minor == v,
            _ => true,
        },
        match (requested_list, r) {
            (Some(stated), Ok(GuardedWrite::Applied(next))) => next.list_price_minor == stated,
            _ => true,
        },
        match (requested_currency, r) {
            (Some(c), Ok(GuardedWrite::Applied(next))) => next.currency_code@ == c@,
            _ => true,
        },
{
    let current = match row {
        Some(current) => current,
        None => return Err(ServiceError::not_found(String::from_str("sku was not found"))),
    };
    let change = check_currency_change(
        current.currency_code.as_str(),
        current.list_price_minor,
        requested_currency,
        requested_sale,
        requested_list,
    )?;
    let (sale, list) = settle_sku_prices(
        change.changed,
        current.sale_price_minor,
        current.list_price_minor,
        requested_sale,
        requested_list,
    )?;
    if current.version != expected_version {
        return Ok(
            GuardedWrite::StaleVersion(
                StaleVersion { expected: expected_version, actual: current.version },
            ),
        );
    }
    Ok(
        GuardedWrite::Applied(
            SkuPriceRow {
                version: current.version + 1,
                currency_code: change.currency_code,
                sale_price_minor: sale,
                list_price_minor: list,
            },
        ),
    )
}

/// Why the money kernel refuses a currency registry row, if it does: an invalid code, an unknown
/// rounding mode, or a scale beyond the supported maximum, checked in that order.
pub open spec fn registry_refusal(code: Seq<char>, scale: u8, rounding: Seq<char>) -> Option<
    MoneyError,
> {
    if !valid_code(code) {
        Some(MoneyError::InvalidUnitCode)
    } else if RoundingMode::from_storage_text(rounding) is None {
        Some(MoneyError::UnknownRoundingMode)
    } else if scale > MAX_SCALE {
        Some(MoneyError::ScaleTooLarge)
    } else {
        None
    }
}

/// Resolves the money scale of an active currency from its registry row (`None` when the code
/// names no active currency). The row is validated through the money kernel before its scale is
/// trusted, so a defective row fails here rather than being copied onto every price.
pub fn resolve_currency_row(code: &str, row: Option<(i16, &str)>) -> (r: Result<i16, ServiceError>)
    ensures
        match row {
            None => fails_with(
                r,
                ServiceErrorKind::Validation,
                "currency `"@ + code@ + "` is not an active entry in commerce_currency"@,
            ),
            Some(found) => if !(0 <= found.0 <= 255) {
                fails_with(
                    r,
                    ServiceErrorKind::Validation,
                    "currency `"@ + code@ + "` declares an unusable scale"@,
                )
            } else {
                match registry_refusal(code@, found.0 as u8, found.1@) {
                    Some(e) => fails_with(
                        r,
                        ServiceErrorKind::Validation,
                        "currency `"@ + code@ + "` is unusable: "@ + e.message_text(),
                    ),
                    None => r == Ok::<i16, ServiceError>(found.0),
                }
            },
        },
{
    let (scale, rounding) = match row {
        Some(found) => found,
        None => {
            let mut message = String::from_str("currency `");
            message.append(code);
            message.append("` is not an active entry in commerce_currency");
            return Err(ServiceError::validation(message));
        },
    };
    if scale < 0 || scale > 255 {
        let mut message = String::from_str("currency `");
        message.append(code);
        message.append("` declares an unusable scale");
        return Err(ServiceError::validation(message));
    }
    match MoneyUnit::from_registry(code, scale as u8, rounding) {
        Ok(_) => Ok(scale),
        Err(e) => {
            let mut message = String::from_str("currency `");
            message.append(code);
            message.append("` is unusable: ");
            message.append(e.message());
            Err(ServiceError::validation(message))
        },
    }
}

/// Refuses a currency the registry does not hold.
pub fn ensure_currency_registered(code: &str, exists: bool) -> (r: Result<(), ServiceError>)
    ensures
        !exists ==> fails_with(
            r,
            ServiceErrorKind::Validation,
            "currency `"@ + code@ + "` is not registered in commerce_currency"@,
        ),
        exists ==> r is Ok,
{
    if !exists {
        let mut message = String::from_str("currency `");
        message.append(code);
        message.append("` is not registered in commerce_currency");
        return Err(ServiceError::validation(message));
    }
    Ok(())
}

/// Checks a media role against the owner kind stored on the row being updated; without a new
/// role there is nothing to check.
pub fn check_media_role(owner_type_raw: &str, role: Option<MediaRole>) -> (r: Result<
    (),
    ServiceError,
>)
    ensures
        match role {
            None => r is Ok,
            Some(role) => match MediaOwnerType::from_storage_text(owner_type_raw@) {
                None => fails_with(
                    r,
                    ServiceErrorKind::Validation,
                    unknown_value_message("owner_type"@, owner_type_raw@, MEDIA_OWNER_TYPE_VALUES@),
                ),
                Some(owner) => if owner.admits(role) {
                    r is Ok
                } else {
                    fails_with(
                        r,
                        ServiceErrorKind::Validation,
                        "media_role `"@ + role.storage_text() + "` is not permitted for owner_type `"@
                            + owner.storage_text()
                            + "`: a dictionary value carries an image swatch, so only main_image, sku_image, and gallery_image are available"@,
                    )
                },
            },
        },
{
    if let Some(role) = role {
        let owner = MediaOwnerType::from_storage_str("owner_type", owner_type_raw)?;
        if !owner.admits_role(role) {
            let mut message = String::from_str("media_role `");
            message.append(role.as_storage_str());
            message.append("` is not permitted for owner_type `");
            message.append(owner.as_storage_str());
            message.append(
                "`: a dictionary value carries an image swatch, so only main_image, sku_image, and gallery_image are available",
            );
            return Err(ServiceError::validation(message));
        }
    }
    Ok(())
}


/// The instant an RFC 3339 text names, as Unix seconds and the nanoseconds past them (UTC), or
/// `None` when the text is not RFC 3339.
pub uninterp spec fn rfc3339_instant(text: Seq<char>) -> Option<(i64, u32)>;

/// Parses an RFC 3339 timestamp into its UTC instant.
///
/// Trusted: calls `chrono::DateTime::parse_from_rfc3339` and reads the result's `timestamp` and
/// `timestamp_subsec_nanos`; the contract claims only that the outcome is a function of the text,
/// named `rfc3339_instant`.
#[verifier::external_body]
fn parse_rfc3339(text: &str) -> (r: Option<(i64, u32)>)
    ensures
        r == rfc3339_instant(text@),
{
    match chrono::DateTime::parse_from_rfc3339(text) {
        Ok(value) => Some((value.timestamp(), value.timestamp_subsec_nanos())),
        Err(_) => None,
    }
}

/// `a` is no later than `b`.
pub open spec fn instant_not_after(a: (i64, u32), b: (i64, u32)) -> bool {
    a.0 < b.0 || (a.0 == b.0 && a.1 <= b.1)
}

/// The message for a text that is not an RFC 3339 timestamp.
pub open spec fn bad_timestamp_message(field: Seq<char>, raw: Seq<char>) -> Seq<char> {
    field + " must be an RFC 3339 timestamp, got `"@ + raw + "`"@
}

/// Parses a timestamp field (surrounding white space aside) into its UTC instant.
pub fn parse_timestamp(field: &str, raw: &str) -> (r: Result<(i64, u32), ServiceError>)
    ensures
        match rfc3339_instant(crate::text::trim(raw@)) {
            Some(t) => r == Ok::<(i64, u32), ServiceError>(t),
            None => fails_with(r, ServiceErrorKind::Validation, bad_timestamp_message(field@, raw@)),
        },
{
    let trimmed = string_of(&crate::text::trimmed_chars(raw));
    match parse_rfc3339(trimmed.as_str()) {
        Some(t) => Ok(t),
        None => {
            let mut message = String::from_str(field);
            message.append(" must be an RFC 3339 timestamp, got `");
            message.append(raw);
            message.append("`");
            Err(ServiceError::validation(message))
        },
    }
}

/// Checks a price list's validity window: when both ends are given, each must be an RFC 3339
/// timestamp and the window must end strictly after it starts.
pub fn check_price_list_window(starts_at: Option<&str>, ends_at: Option<&str>) -> (r: Result<
    (),
    ServiceError,
>)
    ensures
        match (starts_at, ends_at) {
            (Some(s), Some(e)) => match rfc3339_instant(crate::text::trim(s@)) {
                None => fails_with(
                    r,
                    ServiceErrorKind::Validation,
                    bad_timestamp_message("starts_at"@, s@),
                ),
                Some(start) => match rfc3339_instant(crate::text::trim(e@)) {
                    None => fails_with(
                        r,
                        ServiceErrorKind::Validation,
                        bad_timestamp_message("ends_at"@, e@),
                    ),
                    Some(end) => if instant_not_after(end, start) {
                        fails_with(
                            r,
                            ServiceErrorKind::Validation,
                            "ends_at must be later than starts_at"@,
                        )
                    } else {
                        r is Ok
                    },
                },
            },
            _ => r is Ok,
        },
{
    if let Some(s) = starts_at {
        if let Some(e) = ends_at {
            let start = match parse_timestamp("starts_at", s) {
                Ok(t) => t,
                Err(failure) => return Err(failure),
            };
            let end = match parse_timestamp("ends_at", e) {
                Ok(t) => t,
                Err(failure) => return Err(failure),
            };
            return ensure_window_ends_after_start(start, end);
        }
    }
    Ok(())
}

/// Decides a validity window from its two parsed instants: it must end strictly after it starts.
pub fn ensure_window_ends_after_start(start: (i64, u32), end: (i64, u32)) -> (r: Result<
    (),
    ServiceError,
>)
    ensures
        instant_not_after(end, start) ==> fails_with(
            r,
            ServiceErrorKind::Validation,
            "ends_at must be later than starts_at"@,
        ),
        !instant_not_after(end, start) ==> r is Ok,
{
    if end.0 < start.0 || (end.0 == start.0 && end.1 <= start.1) {
        return Err(ServiceError::validation_text("ends_at must be later than starts_at"));
    }
    Ok(())
}

/// Refuses a variant signature another live SKU of the product already carries.
pub fn ensure_variant_available(signature: &str, taken: bool) -> (r: Result<(), ServiceError>)
    ensures
        taken ==> fails_with(
            r,
            ServiceErrorKind::Conflict,
            "variant_signature `"@ + signature@ + "` is already used by a live SKU of this product"@,
        ),
        !taken ==> r is Ok,
{
    if taken {
        let mut message = String::from_str("variant_signature `");
        message.append(signature);
        message.append("` is already used by a live SKU of this product");
        return Err(ServiceError::conflict(message));
    }
    Ok(())
}

/// Refuses a media attachment whose owner is not a live row of the table its owner kind names.
pub fn ensure_media_owner(owner_type: MediaOwnerType, owner_id: i64, exists: bool) -> (r: Result<
    (),
    ServiceError,
>)
    ensures
        !exists ==> fails_with(
            r,
            ServiceErrorKind::Validation,
            "owner_id `"@ + signed_decimal_text(owner_id as int) + "` is not a live `"@
                + owner_type.storage_text() + "` of this tenant"@,
        ),
        exists ==> r is Ok,
{
    if !exists {
        let mut message = String::from_str("owner_id `");
        let digits = signed_decimal_string(owner_id);
        message.append(digits.as_str());
        message.append("` is not a live `");
        message.append(owner_type.as_storage_str());
        message.append("` of this tenant");
        return Err(ServiceError::validation(message));
    }
    Ok(())
}

} // verus!
