use merchandise_catalog::axes::{assemble_sku_axes, axis_submission};
use merchandise_catalog::media::{media_resource_identity, MediaResourceSnapshot, SnapshotMember};
use merchandise_catalog::ports::SkuAxisRecord;
use merchandise_catalog::variant::build_variant_signature;

fn row(attribute_id: i64, value_id: i64, attribute_no: &str, value_code: &str) -> SkuAxisRecord {
    SkuAxisRecord {
        attribute_id,
        attribute_value_id: value_id,
        attribute_no: attribute_no.to_owned(),
        value_code: value_code.to_owned(),
        display_value: value_code.to_owned(),
        sort_order: 0,
    }
}

#[test]
fn an_empty_submission_is_legal_only_without_declared_axes() {
    assert_eq!(axis_submission(0, &Vec::new()), Ok(None));
    let error = axis_submission(2, &Vec::new()).unwrap_err();
    assert_eq!(
        error.message,
        "this product's category declares 2 sales axis(es), so attributeValueIds must be submitted"
    );
    assert_eq!(
        axis_submission(1, &vec!["11".to_owned(), " 12 ".to_owned()]),
        Ok(Some(vec![11, 12]))
    );
    let bad = axis_submission(1, &vec!["11".to_owned(), "x".to_owned(), "y".to_owned()]).unwrap_err();
    assert_eq!(bad.message, "attribute_value_ids must be a decimal int64 id, got `x`");
}

#[test]
fn assembled_axes_come_back_in_signature_order() {
    let rows = vec![row(2, 21, "tier", "basic"), row(1, 11, "period", "annual")];
    let axes = assemble_sku_axes(&vec![1, 2], &vec![21, 11], rows).unwrap();
    let order: Vec<&str> = axes.iter().map(|a| a.attribute_no.as_str()).collect();
    assert_eq!(order, vec!["period", "tier"]);
    assert_eq!(
        build_variant_signature("sku-1", &axes),
        Ok("period=annual;tier=basic".to_owned())
    );
}

#[test]
fn unresolved_values_are_listed_in_submission_order() {
    let rows = vec![row(1, 11, "period", "annual")];
    let error = assemble_sku_axes(&vec![1], &vec![13, 11, 12], rows).unwrap_err();
    assert_eq!(
        error.message,
        "attributeValueIds names value(s) that are not live dictionary values of this tenant or whose attribute is inactive: 13, 12"
    );
}

#[test]
fn a_value_off_the_declared_axes_is_refused() {
    let rows = vec![row(1, 11, "period", "annual"), row(7, 71, "colour", "red")];
    let error = assemble_sku_axes(&vec![1, 2], &vec![11, 71], rows).unwrap_err();
    assert_eq!(
        error.message,
        "attribute `colour` is not an active sales axis of this product's category"
    );
}

#[test]
fn every_declared_axis_needs_a_value() {
    let rows = vec![row(2, 21, "tier", "basic")];
    let error = assemble_sku_axes(&vec![3, 2, 1], &vec![21], rows).unwrap_err();
    assert_eq!(
        error.message,
        "attributeValueIds must name exactly one value per sales axis of the product's category; no value was submitted for attribute id(s) 1, 3"
    );
}

#[test]
fn two_values_on_one_sales_axis_are_refused() {
    let rows = vec![row(1, 11, "colour", "red"), row(1, 12, "colour", "blue")];
    let error = assemble_sku_axes(&vec![1], &vec![11, 12], rows).unwrap_err();
    assert_eq!(
        error.message,
        "attributeValueIds must name exactly one value per sales axis of the product's category; no value was submitted for attribute id(s) "
    );
}

fn text(key: &str, value: &str) -> SnapshotMember {
    SnapshotMember { key: key.to_owned(), text: Some(value.to_owned()) }
}

fn object(members: Vec<SnapshotMember>) -> MediaResourceSnapshot {
    MediaResourceSnapshot { is_object: true, members }
}

#[test]
fn a_media_snapshot_identifies_its_positive_id() {
    let snapshot = object(vec![
        text("id", " 7001 "),
        text("kind", "image"),
        text("source", "drive"),
        text("uri", "drive://spaces/1/nodes/7001"),
    ]);
    assert_eq!(media_resource_identity("resourceSnapshot", &snapshot), Ok(7001));
    let external = object(vec![text("id", "7002"), text("kind", "image"), text("source", "url")]);
    assert_eq!(media_resource_identity("resourceSnapshot", &external), Ok(7002));
}

#[test]
fn a_media_snapshot_is_refused_for_each_broken_rule() {
    let message = |snapshot: &MediaResourceSnapshot| {
        media_resource_identity("resourceSnapshot", snapshot).unwrap_err().message
    };
    assert_eq!(
        message(&MediaResourceSnapshot { is_object: false, members: Vec::new() }),
        "resourceSnapshot must be a MediaResource object"
    );
    assert_eq!(
        message(&object(vec![text("id", "1"), text("colour", "red")])),
        "resourceSnapshot carries `colour`, which is not a MediaResource field: the declared schema is closed, so an undeclared key would be dropped rather than stored"
    );
    assert_eq!(
        message(&object(vec![text("id", "1"), text("source", "url")])),
        "resourceSnapshot.kind is required by MediaResource"
    );
    assert_eq!(
        message(&object(vec![
            SnapshotMember { key: "id".to_owned(), text: None },
            text("kind", "image"),
            text("source", "url"),
        ])),
        "resourceSnapshot.id must be a non-empty string"
    );
    assert_eq!(
        message(&object(vec![text("id", "12a"), text("kind", "image"), text("source", "url")])),
        "resourceSnapshot.id must be a decimal int64 string, got `12a`"
    );
    assert_eq!(
        message(&object(vec![text("id", "0"), text("kind", "image"), text("source", "url")])),
        "resourceSnapshot.id must be a positive snowflake id, got `0`"
    );
    assert_eq!(
        message(&object(vec![text("id", "5"), text("kind", "image"), text("source", "drive")])),
        "resourceSnapshot.uri is required when source is `drive`: the identity of a Drive-backed resource is `drive://spaces/{spaceId}/nodes/{nodeId}`"
    );
    assert_eq!(
        message(&object(vec![
            text("id", "5"),
            text("kind", "image"),
            text("source", "drive"),
            text("uri", "https://x"),
        ])),
        "resourceSnapshot.uri must start with `drive://` when source is `drive`, got `https://x`"
    );
}
