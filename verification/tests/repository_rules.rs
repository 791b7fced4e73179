use merchandise_catalog::contract::ServiceErrorKind;
use merchandise_catalog::domain::{MediaOwnerType, MediaRole};
use merchandise_catalog::ports::{GuardedWrite, StaleVersion};
use merchandise_catalog::repository::{
    category_reparent, check_currency_change, check_media_role, check_price_list_window,
    ensure_media_owner, ensure_no_live_children, ensure_no_live_products, ensure_publishable,
    ensure_sale_not_above_list, ensure_variant_available, ensure_window_ends_after_start,
    guarded_miss_outcome, parse_id,
    parse_optional_id, parse_timestamp, place_new_category, plan_sku_price_edit, plan_subtree_move,
    resolve_currency_row, settle_sku_prices, spu_list_order, store_failure, CategoryReparent,
    LockedCategory, SkuPriceRow, SpuListOrder,
};

#[test]
fn wire_ids_parse_after_trimming_and_name_the_field_when_they_do_not() {
    assert_eq!(parse_id("tenant_id", " 100001 "), Ok(100001));
    assert_eq!(parse_id("tenant_id", "-7"), Ok(-7));
    let error = parse_id("tenant_id", "abc").unwrap_err();
    assert_eq!(error.kind, ServiceErrorKind::Validation);
    assert_eq!(error.message, "tenant_id must be a decimal int64 id, got `abc`");
    assert!(parse_id("tenant_id", "9223372036854775808").is_err());
    assert_eq!(parse_id("tenant_id", "9223372036854775807"), Ok(i64::MAX));
    assert_eq!(parse_optional_id("parent_id", None), Ok(None));
    assert_eq!(parse_optional_id("parent_id", Some("12")), Ok(Some(12)));
    assert!(parse_optional_id("parent_id", Some("1.5")).is_err());
}

#[test]
fn a_sale_price_may_equal_but_not_exceed_the_list_price() {
    assert!(ensure_sale_not_above_list(100, Some(100)).is_ok());
    assert!(ensure_sale_not_above_list(100, None).is_ok());
    let error = ensure_sale_not_above_list(101, Some(100)).unwrap_err();
    assert_eq!(error.message, "salePriceMinor must not exceed listPriceMinor");
}

#[test]
fn only_whitelisted_sort_keys_select_a_price_ordering() {
    assert_eq!(spu_list_order(Some("price-asc")), SpuListOrder::PriceAsc);
    assert_eq!(spu_list_order(Some("price-desc")), SpuListOrder::PriceDesc);
    assert_eq!(spu_list_order(Some("name")), SpuListOrder::CreatedDesc);
    assert_eq!(spu_list_order(None), SpuListOrder::CreatedDesc);
}

#[test]
fn a_guarded_miss_is_stale_when_the_row_lives_and_missing_when_it_does_not() {
    assert_eq!(
        guarded_miss_outcome("sku", 3, Some(5)),
        Ok(StaleVersion { expected: 3, actual: 5 })
    );
    let error = guarded_miss_outcome("sku", 3, None).unwrap_err();
    assert_eq!(error.kind, ServiceErrorKind::NotFound);
    assert_eq!(error.message, "sku was not found");
}

#[test]
fn statement_failures_are_classified_by_sqlstate() {
    let duplicate = store_failure("failed to create sku", Some("23505"), "boom");
    assert_eq!(duplicate.kind, ServiceErrorKind::Conflict);
    assert_eq!(
        duplicate.message,
        "failed to create sku: a live record with the same business key already exists"
    );
    let check = store_failure("failed to create sku", Some("23514"), "boom");
    assert_eq!(check.kind, ServiceErrorKind::Validation);
    assert_eq!(check.message, "failed to create sku: the request violates a catalog integrity rule");
    let reference = store_failure("failed to create sku", Some("23503"), "boom");
    assert_eq!(reference.kind, ServiceErrorKind::Validation);
    assert_eq!(reference.message, "failed to create sku: a referenced record does not exist");
    let other = store_failure("failed to create sku", Some("08006"), "connection reset");
    assert_eq!(other.kind, ServiceErrorKind::Storage);
    assert_eq!(other.message, "failed to create sku: connection reset");
    let driver = store_failure("failed to create sku", None, "pool timed out");
    assert_eq!(driver.kind, ServiceErrorKind::Storage);
    assert_eq!(driver.message, "failed to create sku: pool timed out");
}

fn locked(parent_id: Option<i64>, path: &str, depth: i64) -> LockedCategory {
    LockedCategory { parent_id, path: path.to_owned(), depth }
}

#[test]
fn a_new_category_extends_its_parents_path_one_level_down() {
    let root = place_new_category(1000, None);
    assert_eq!(root.path, "/1000/");
    assert_eq!(root.depth, 0);
    let parent = locked(None, "/1000/", 0);
    let child = place_new_category(1010, Some(&parent));
    assert_eq!(child.path, "/1000/1010/");
    assert_eq!(child.depth, 1);
}

#[test]
fn only_a_different_parent_moves_a_category() {
    assert_eq!(category_reparent(5, Some(1), None), Ok(CategoryReparent::Unchanged));
    assert_eq!(category_reparent(5, Some(1), Some(1)), Ok(CategoryReparent::Unchanged));
    assert_eq!(category_reparent(5, Some(1), Some(2)), Ok(CategoryReparent::MoveUnder(2)));
    assert_eq!(category_reparent(5, None, Some(2)), Ok(CategoryReparent::MoveUnder(2)));
    let error = category_reparent(5, Some(1), Some(5)).unwrap_err();
    assert_eq!(error.message, "a category cannot be its own parent");
}

#[test]
fn a_subtree_cannot_move_under_its_own_descendant() {
    let current = locked(Some(1), "/1/5/", 1);
    let descendant = locked(Some(5), "/1/5/9/", 2);
    let error = plan_subtree_move(5, &current, &descendant).unwrap_err();
    assert_eq!(error.message, "a category cannot be moved under one of its own descendants");

    let elsewhere = locked(None, "/2/", 0);
    let plan = plan_subtree_move(5, &current, &elsewhere).unwrap();
    assert_eq!(plan.new_prefix, "/2/5/");
    assert_eq!(plan.depth_delta, 0);
    assert_eq!(plan.cut, 6);
}

#[test]
fn live_dependents_block_retirement_and_publication_needs_a_sku() {
    assert!(ensure_no_live_children(0).is_ok());
    let children = ensure_no_live_children(2).unwrap_err();
    assert_eq!(children.kind, ServiceErrorKind::Conflict);
    assert_eq!(children.message, "category still has child categories");
    assert!(ensure_no_live_products(0).is_ok());
    assert_eq!(
        ensure_no_live_products(1).unwrap_err().message,
        "category still has products assigned to it"
    );
    assert!(ensure_publishable(1).is_ok());
    let empty = ensure_publishable(0).unwrap_err();
    assert_eq!(empty.kind, ServiceErrorKind::Conflict);
    assert_eq!(empty.message, "a product needs at least one sku before it can be published");
}

#[test]
fn a_currency_change_must_restate_its_prices() {
    let kept = check_currency_change("CNY", Some(200), None, None, None).unwrap();
    assert_eq!(kept.currency_code, "CNY");
    assert!(!kept.changed);

    let unrestated = check_currency_change("CNY", None, Some("JPY"), None, None).unwrap_err();
    assert_eq!(
        unrestated.message,
        "changing currency_code requires salePriceMinor to be restated in the new currency"
    );
    let list_left = check_currency_change("CNY", Some(200), Some("JPY"), Some(100), None).unwrap_err();
    assert_eq!(
        list_left.message,
        "changing currency_code requires listPriceMinor to be restated or cleared"
    );
    let changed = check_currency_change("CNY", Some(200), Some("JPY"), Some(100), Some(None)).unwrap();
    assert_eq!(changed.currency_code, "JPY");
    assert!(changed.changed);
}

#[test]
fn settled_prices_keep_what_the_update_omits_unless_the_currency_changed() {
    assert_eq!(settle_sku_prices(false, 100, Some(200), None, None), Ok((100, Some(200))));
    assert_eq!(settle_sku_prices(true, 100, None, Some(90), None), Ok((90, None)));
    assert_eq!(settle_sku_prices(false, 100, Some(200), None, Some(None)), Ok((100, None)));
    let error = settle_sku_prices(false, 100, Some(200), Some(300), None).unwrap_err();
    assert_eq!(error.message, "salePriceMinor must not exceed listPriceMinor");
}

#[test]
fn a_currency_row_is_validated_by_the_money_kernel() {
    assert_eq!(resolve_currency_row("KRW", Some((0, "floor"))), Ok(0));
    assert_eq!(
        resolve_currency_row("XXX", None).unwrap_err().message,
        "currency `XXX` is not an active entry in commerce_currency"
    );
    assert_eq!(
        resolve_currency_row("CNY", Some((-1, "half_up"))).unwrap_err().message,
        "currency `CNY` declares an unusable scale"
    );
    assert_eq!(
        resolve_currency_row("CNY", Some((2, "bankers"))).unwrap_err().message,
        "currency `CNY` is unusable: money rounding mode is not one the schema permits"
    );
    assert_eq!(
        resolve_currency_row("CNY", Some((9, "half_up"))).unwrap_err().message,
        "currency `CNY` is unusable: money scale exceeds the supported maximum"
    );
}

#[test]
fn a_dictionary_value_only_takes_image_roles() {
    assert!(check_media_role("attribute_value", None).is_ok());
    assert!(check_media_role("attribute_value", Some(MediaRole::MainImage)).is_ok());
    assert!(check_media_role("spu", Some(MediaRole::Video)).is_ok());
    let error = check_media_role("attribute_value", Some(MediaRole::Video)).unwrap_err();
    assert_eq!(
        error.message,
        "media_role `video` is not permitted for owner_type `attribute_value`: a dictionary value carries an image swatch, so only main_image, sku_image, and gallery_image are available"
    );
    assert!(check_media_role("warehouse", Some(MediaRole::Video)).is_err());
}

#[test]
fn timestamps_parse_to_their_utc_instant() {
    assert_eq!(parse_timestamp("starts_at", " 2024-01-01T00:00:00Z "), Ok((1704067200, 0)));
    assert_eq!(parse_timestamp("starts_at", "2024-01-01T08:00:00.5+08:00"), Ok((1704067200, 500000000)));
    let error = parse_timestamp("starts_at", "yesterday").unwrap_err();
    assert_eq!(error.message, "starts_at must be an RFC 3339 timestamp, got `yesterday`");
}

#[test]
fn a_price_list_window_must_end_after_it_starts() {
    assert!(check_price_list_window(None, Some("not checked")).is_ok());
    assert!(check_price_list_window(Some("2024-01-01T00:00:00Z"), Some("2024-01-02T00:00:00Z")).is_ok());
    assert_eq!(
        check_price_list_window(Some("2024-01-02T00:00:00Z"), Some("2024-01-02T00:00:00Z"))
            .unwrap_err()
            .message,
        "ends_at must be later than starts_at"
    );
    assert_eq!(
        check_price_list_window(Some("2024-01-02T00:00:00Z"), Some("soon")).unwrap_err().message,
        "ends_at must be an RFC 3339 timestamp, got `soon`"
    );
}

#[test]
fn taken_signatures_and_missing_owners_are_refused() {
    assert!(ensure_variant_available("tier=basic", false).is_ok());
    let taken = ensure_variant_available("tier=basic", true).unwrap_err();
    assert_eq!(taken.kind, ServiceErrorKind::Conflict);
    assert_eq!(
        taken.message,
        "variant_signature `tier=basic` is already used by a live SKU of this product"
    );
    assert!(ensure_media_owner(MediaOwnerType::Sku, 42, true).is_ok());
    assert_eq!(
        ensure_media_owner(MediaOwnerType::Sku, 42, false).unwrap_err().message,
        "owner_id `42` is not a live `sku` of this tenant"
    );
}

#[test]
fn a_window_must_end_strictly_after_it_starts() {
    assert_eq!(ensure_window_ends_after_start((100, 0), (100, 1)), Ok(()));
    assert_eq!(ensure_window_ends_after_start((100, 5), (101, 0)), Ok(()));
    let equal = ensure_window_ends_after_start((100, 5), (100, 5)).unwrap_err();
    assert_eq!(equal.kind, ServiceErrorKind::Validation);
    assert_eq!(equal.message, "ends_at must be later than starts_at");
    assert!(ensure_window_ends_after_start((101, 0), (100, 999)).is_err());
}

fn locked_sku() -> SkuPriceRow {
    SkuPriceRow {
        version: 4,
        currency_code: "CNY".to_owned(),
        sale_price_minor: 6990,
        list_price_minor: Some(12900),
    }
}

#[test]
fn a_guarded_sku_edit_applies_under_the_next_version() {
    match plan_sku_price_edit(Some(locked_sku()), 4, None, Some(5990), None).unwrap() {
        GuardedWrite::Applied(next) => {
            assert_eq!(next.version, 5);
            assert_eq!(next.currency_code, "CNY");
            assert_eq!(next.sale_price_minor, 5990);
            assert_eq!(next.list_price_minor, Some(12900));
        }
        GuardedWrite::StaleVersion(_) => panic!("the version matched"),
    }
    match plan_sku_price_edit(Some(locked_sku()), 4, Some("USD"), Some(999), Some(None)).unwrap() {
        GuardedWrite::Applied(next) => {
            assert_eq!(next.currency_code, "USD");
            assert_eq!(next.list_price_minor, None);
        }
        GuardedWrite::StaleVersion(_) => panic!("the version matched"),
    }
}

#[test]
fn a_guarded_sku_edit_refuses_before_it_compares_versions() {
    let stale = plan_sku_price_edit(Some(locked_sku()), 3, None, Some(5990), None).unwrap();
    assert!(matches!(
        stale,
        GuardedWrite::StaleVersion(StaleVersion { expected: 3, actual: 4 })
    ));

    let above = plan_sku_price_edit(Some(locked_sku()), 3, None, Some(20000), None).unwrap_err();
    assert_eq!(above.kind, ServiceErrorKind::Validation);
    assert_eq!(above.message, "salePriceMinor must not exceed listPriceMinor");

    let currency = plan_sku_price_edit(Some(locked_sku()), 3, Some("USD"), None, None).unwrap_err();
    assert_eq!(
        currency.message,
        "changing currency_code requires salePriceMinor to be restated in the new currency"
    );

    let missing = plan_sku_price_edit(None, 4, None, None, None).unwrap_err();
    assert_eq!(missing.kind, ServiceErrorKind::NotFound);
    assert_eq!(missing.message, "sku was not found");
}
