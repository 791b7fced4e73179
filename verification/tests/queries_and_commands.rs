use merchandise_catalog::commands::{CreateCategoryAttributeCommand, DeleteCategoryCommand};
use merchandise_catalog::domain::AttributeRole;
use merchandise_catalog::queries::{CategoryListQuery, ProductSpuRetrieveQuery};
use merchandise_catalog::validation::{require_distinct, require_within_chars};

#[test]
fn queries_trim_required_text_and_drop_blank_filters() {
    let query = CategoryListQuery::new(" 100001 ", Some("  "), Some(" 7 "), None, Some(2), None)
        .unwrap();
    assert_eq!(query.tenant_id, "100001");
    assert_eq!(query.organization_id, None);
    assert_eq!(query.parent_id.as_deref(), Some("7"));
    assert_eq!(query.page, Some(2));
    assert_eq!(query.page_size, None);
}

#[test]
fn page_bounds_are_checked_before_required_text() {
    let error = CategoryListQuery::new("", None, None, None, Some(0), None).unwrap_err();
    assert_eq!(error.message(), "page must be greater than or equal to 1");
    let error = CategoryListQuery::new("", None, None, None, Some(1), Some(20)).unwrap_err();
    assert_eq!(error.message(), "tenant_id is required");
}

#[test]
fn retrieve_queries_name_the_first_blank_field() {
    let error = ProductSpuRetrieveQuery::new("1", "   ").unwrap_err();
    assert_eq!(error.message(), "spu_id is required");
    let query = ProductSpuRetrieveQuery::new("1", " 2 ").unwrap();
    assert_eq!(query.spu_id, "2");
}

#[test]
fn commands_name_their_first_blank_field() {
    let command = DeleteCategoryCommand { tenant_id: " ".to_owned(), category_id: String::new() };
    assert_eq!(command.validate().unwrap_err().message(), "tenant_id is required");
}

#[test]
fn a_category_cannot_inherit_a_binding_from_itself() {
    let command = CreateCategoryAttributeCommand {
        tenant_id: "1".to_owned(),
        organization_id: "0".to_owned(),
        category_id: "20".to_owned(),
        attribute_id: "30".to_owned(),
        role: AttributeRole::Sales,
        required: true,
        searchable: false,
        filterable: true,
        comparable: false,
        source_category_id: Some(" 20 ".to_owned()),
        sort_order: 0,
    };
    assert!(command.validate().is_err());
}

#[test]
fn boundary_checks_count_characters_and_reject_repeats() {
    assert!(require_within_chars("name", &"字".repeat(200), 200).is_ok());
    assert_eq!(
        require_within_chars("name", &"字".repeat(201), 200).unwrap_err().message(),
        "name must be at most 200 characters"
    );
    assert!(require_distinct("attributeValueIds", &["1".to_owned(), "2".to_owned()]).is_ok());
    assert_eq!(
        require_distinct("attributeValueIds", &["1".to_owned(), " 1 ".to_owned()])
            .unwrap_err()
            .message(),
        "attributeValueIds contains `1` more than once: one value per sales axis"
    );
}
