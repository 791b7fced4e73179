use merchandise_catalog::ports::SkuAxisRecord;
use merchandise_catalog::validation::SKU_VARIANT_SIGNATURE_MAX_CHARS;
use merchandise_catalog::variant::build_variant_signature;

fn axis(attribute_no: &str, value_code: &str) -> SkuAxisRecord {
    SkuAxisRecord {
        attribute_id: 0,
        attribute_value_id: 0,
        attribute_no: attribute_no.to_owned(),
        value_code: value_code.to_owned(),
        display_value: String::new(),
        sort_order: 0,
    }
}

#[test]
fn the_signature_is_business_key_terms_ordered_by_attribute_no() {
    let axes = [axis("tier", "basic"), axis("period", "annual")];
    assert_eq!(
        build_variant_signature("basic-annual", &axes),
        Ok("period=annual;tier=basic".to_owned())
    );
}

#[test]
fn the_signature_does_not_depend_on_the_order_the_axes_arrive_in() {
    let ascending = [axis("period", "annual"), axis("tier", "basic")];
    let descending = [axis("tier", "basic"), axis("period", "annual")];
    assert_eq!(
        build_variant_signature("basic-annual", &ascending),
        build_variant_signature("basic-annual", &descending),
        "two orderings of one axis set must not produce two signatures, or the unique index admits both"
    );
}

#[test]
fn a_sku_with_no_axes_falls_back_to_its_own_sku_no() {
    assert_eq!(
        build_variant_signature("basic-annual", &[]),
        Ok("basic-annual".to_owned())
    );
}

#[test]
fn a_combination_over_the_baseline_bound_is_refused() {
    let long = "x".repeat(SKU_VARIANT_SIGNATURE_MAX_CHARS);
    assert!(
        build_variant_signature("any", &[axis("period", &long)]).is_err(),
        "the baseline bounds variant_signature at {SKU_VARIANT_SIGNATURE_MAX_CHARS} characters"
    );

    let exact = "x".repeat(SKU_VARIANT_SIGNATURE_MAX_CHARS - "period=".chars().count());
    assert!(
        build_variant_signature("any", &[axis("period", &exact)]).is_ok(),
        "the bound is inclusive"
    );
}

#[test]
fn the_terms_are_separated_and_carry_one_equals_sign_each() {
    let signature = build_variant_signature(
        "any",
        &[
            axis("period", "annual"),
            axis("tier", "basic"),
            axis("plan", "pro"),
        ],
    )
    .expect("three short axes are within the bound");
    assert_eq!(signature, "period=annual;plan=pro;tier=basic");
    assert_eq!(signature.matches(';').count(), 2);
    assert_eq!(signature.matches('=').count(), 3);
}
