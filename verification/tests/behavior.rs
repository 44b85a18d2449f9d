//! The parsing behaviour spelled out on hand-built element trees: the
//! concrete scenarios, the fail-fast error vocabulary, order preservation,
//! the first-occurrence rule for duplicated children, the strict/lenient
//! divergence on unrecognized children, and determinism.

use s100::error::S100Error;
use s100::feature::attribute_value_type::AttributeValueType;
use s100::feature::feature_catalog::FeatureCatalog;
use s100::feature::item::Item;
use s100::feature::listed_value::ListedValue;
use s100::feature::simple_attribute::SimpleAttribute;
use s100::portrayal::catalog_item::CatalogItem;
use s100::portrayal::description::Description;
use s100::portrayal::error_message::ErrorMessage;
use s100::portrayal::portrayal_catalog::PortrayalCatalog;
use s100::portrayal::symbol::Symbol;
use s100::portrayal::validate::Validate;
use s100::xml::{Attribute, Element};

fn elem(tag: &str, children: Vec<Element>) -> Element {
    Element { tag: tag.to_string(), attributes: Vec::new(), children, text: String::new() }
}

fn text_elem(tag: &str, text: &str) -> Element {
    Element {
        tag: tag.to_string(),
        attributes: Vec::new(),
        children: Vec::new(),
        text: text.to_string(),
    }
}

fn attr(name: &str, value: &str) -> Attribute {
    Attribute { name: name.to_string(), value: value.to_string() }
}

fn listed_value_elem(label: &str, code: &str) -> Element {
    elem(
        "listedValue",
        vec![
            text_elem("label", label),
            text_elem("definition", "a definition"),
            text_elem("code", code),
        ],
    )
}

fn minimal_attribute_elem(value_type: &str) -> Element {
    elem(
        "S100_FC_SimpleAttribute",
        vec![
            text_elem("name", "Call sign"),
            text_elem("definition", "The designated call-sign of a radio station."),
            text_elem("code", "callSign"),
            text_elem("valueType", value_type),
        ],
    )
}

#[test]
fn minimal_attribute_parses_exactly() {
    let target = SimpleAttribute::parse(&minimal_attribute_elem("text")).unwrap();
    assert_eq!(target.name(), "Call sign");
    assert_eq!(target.definition(), "The designated call-sign of a radio station.");
    assert_eq!(target.code(), "callSign");
    assert_eq!(target.value_type(), AttributeValueType::Text);
    assert_eq!(target.listed_values().len(), 0);
    assert_eq!(target.remarks(), None);
    assert_eq!(target.alias(), None);
    assert!(target.definition_reference().is_none());
    assert_eq!(target.quality_specification(), None);
}

#[test]
fn truncated_date_value_type_decodes_to_its_own_variant() {
    let target = SimpleAttribute::parse(&minimal_attribute_elem("S100_TruncatedDate")).unwrap();
    assert_eq!(target.value_type(), AttributeValueType::TruncatedDate);
}

#[test]
fn bogus_value_type_is_invalid_enum() {
    match SimpleAttribute::parse(&minimal_attribute_elem("bogus")) {
        Err(S100Error::InvalidEnum { field, value }) => {
            assert_eq!(field, "valueType");
            assert_eq!(value, "bogus");
        }
        other => panic!("expected InvalidEnum, got {:?}", other.map(|_| ())),
    }
}

#[test]
fn catalog_item_without_id_is_missing_attribute() {
    let node = elem(
        "symbol",
        vec![
            text_elem("fileName", "BOYCON01.svg"),
            text_elem("fileType", "Symbol"),
            text_elem("fileFormat", "SVG"),
        ],
    );
    match Symbol::parse(&node) {
        Err(S100Error::MissingAttribute { node, attribute }) => {
            assert_eq!(node, "symbol");
            assert_eq!(attribute, "id");
        }
        other => panic!("expected MissingAttribute, got {:?}", other.map(|_| ())),
    }
}

#[test]
fn validate_keeps_texts_in_document_order() {
    let untagged = text_elem("text", "Must be <= safety contour value");
    let mut tagged = text_elem("text", "the same message in Korean");
    tagged.attributes.push(attr("language", "kor"));
    let node = elem(
        "validate",
        vec![
            text_elem("xpath", "//ShallowContour <= //SafetyContour"),
            elem("errorMessage", vec![untagged, tagged]),
        ],
    );
    let target = Validate::parse(&node).unwrap();
    assert_eq!(target.regex(), None);
    assert_eq!(target.xpath(), Some("//ShallowContour <= //SafetyContour"));
    let texts = target.error_message().texts();
    assert_eq!(texts.len(), 2);
    assert_eq!(texts[0].text(), "Must be <= safety contour value");
    assert_eq!(texts[0].language(), None);
    assert_eq!(texts[1].text(), "the same message in Korean");
    assert_eq!(texts[1].language(), Some("kor"));
}

#[test]
fn missing_required_child_names_parent_and_child() {
    let node = elem(
        "description",
        vec![text_elem("name", "BOYCON01"), text_elem("description", "conical buoy")],
    );
    match Description::parse(&node) {
        Err(S100Error::MissingChild { node, child }) => {
            assert_eq!(node, "description");
            assert_eq!(child, "language");
        }
        other => panic!("expected MissingChild, got {:?}", other.map(|_| ())),
    }
}

#[test]
fn missing_children_are_reported_in_declared_order() {
    let node = elem("description", vec![text_elem("language", "eng")]);
    match Description::parse(&node) {
        Err(S100Error::MissingChild { node, child }) => {
            assert_eq!(node, "description");
            assert_eq!(child, "name");
        }
        other => panic!("expected MissingChild, got {:?}", other.map(|_| ())),
    }
}

#[test]
fn strict_parser_rejects_unknown_child() {
    let node = elem(
        "description",
        vec![
            text_elem("name", "BOYCON01"),
            text_elem("flavour", "salty"),
            text_elem("description", "conical buoy"),
            text_elem("language", "eng"),
        ],
    );
    match Description::parse(&node) {
        Err(S100Error::InvalidChild { parent, child }) => {
            assert_eq!(parent, "description");
            assert_eq!(child, "flavour");
        }
        other => panic!("expected InvalidChild, got {:?}", other.map(|_| ())),
    }
}

#[test]
fn lenient_parser_ignores_unknown_child() {
    let mut node = minimal_attribute_elem("text");
    node.children.insert(1, text_elem("flavour", "salty"));
    let target = SimpleAttribute::parse(&node).unwrap();
    assert_eq!(target.name(), "Call sign");
    assert_eq!(target.value_type(), AttributeValueType::Text);
}

#[test]
fn lenient_aggregator_ignores_unknown_group() {
    let node = elem(
        "S100_FC_FeatureCatalogue",
        vec![
            text_elem("name", "Catalogue of nothing"),
            elem("S100_FC_SimpleAttributes", vec![minimal_attribute_elem("text")]),
            elem("S100_FC_ComplexAttributes", vec![text_elem("bogus", "ignored")]),
        ],
    );
    let target = FeatureCatalog::parse(&node).unwrap();
    assert_eq!(target.simple_attributes().len(), 1);
}

#[test]
fn strict_aggregator_rejects_unknown_group() {
    let node = elem("portrayalCatalog", vec![elem("pixmapz", vec![])]);
    match PortrayalCatalog::parse(&node) {
        Err(S100Error::InvalidChild { parent, child }) => {
            assert_eq!(parent, "portrayalCatalog");
            assert_eq!(child, "pixmapz");
        }
        other => panic!("expected InvalidChild, got {:?}", other.map(|_| ())),
    }
}

#[test]
fn wrong_tag_is_unexpected_node_name() {
    let node = text_elem("descriptionz", "");
    match Description::parse(&node) {
        Err(S100Error::UnexpectedNodeName { expected, actual }) => {
            assert_eq!(expected, "description");
            assert_eq!(actual, "descriptionz");
        }
        other => panic!("expected UnexpectedNodeName, got {:?}", other.map(|_| ())),
    }
}

#[test]
fn parsing_twice_yields_equal_records() {
    let node = minimal_attribute_elem("text");
    let first = SimpleAttribute::parse(&node).unwrap();
    let second = SimpleAttribute::parse(&node).unwrap();
    assert_eq!(first.name(), second.name());
    assert_eq!(first.definition(), second.definition());
    assert_eq!(first.code(), second.code());
    assert_eq!(first.value_type(), second.value_type());
    assert_eq!(first.remarks(), second.remarks());
    assert_eq!(first.alias(), second.alias());
    assert_eq!(first.listed_values().len(), second.listed_values().len());
    assert_eq!(first.quality_specification(), second.quality_specification());
}

#[test]
fn repeatable_children_keep_document_order() {
    let mut node = minimal_attribute_elem("enumeration");
    node.children.push(
        elem(
            "listedValues",
            vec![listed_value_elem("custom", "1"), listed_value_elem("border", "2")],
        ),
    );
    let target = SimpleAttribute::parse(&node).unwrap();
    let values = target.listed_values();
    assert_eq!(values.len(), 2);
    assert_eq!(values[0].label(), "custom");
    assert_eq!(values[0].code(), 1);
    assert_eq!(values[1].label(), "border");
    assert_eq!(values[1].code(), 2);
}

#[test]
fn duplicate_required_child_keeps_first_occurrence() {
    let node = elem(
        "description",
        vec![
            text_elem("name", "first"),
            text_elem("name", "second"),
            text_elem("description", "conical buoy"),
            text_elem("language", "eng"),
        ],
    );
    let target = Description::parse(&node).unwrap();
    assert_eq!(target.name(), "first");
}

#[test]
fn listed_value_code_accepts_the_largest_value() {
    let node = listed_value_elem("edge", "18446744073709551615");
    let target = ListedValue::parse(&node).unwrap();
    assert_eq!(target.code(), u64::MAX);
}

#[test]
fn listed_value_code_accepts_a_plus_sign() {
    let node = listed_value_elem("plus", "+7");
    let target = ListedValue::parse(&node).unwrap();
    assert_eq!(target.code(), 7);
}

#[test]
fn listed_value_code_rejects_overflow() {
    let node = listed_value_elem("overflow", "18446744073709551616");
    match ListedValue::parse(&node) {
        Err(S100Error::InvalidValue { node, content }) => {
            assert_eq!(node, "code");
            assert_eq!(content, "18446744073709551616");
        }
        other => panic!("expected InvalidValue, got {:?}", other.map(|_| ())),
    }
}

#[test]
fn listed_value_code_rejects_text() {
    let node = listed_value_elem("words", "one");
    match ListedValue::parse(&node) {
        Err(S100Error::InvalidValue { node, content }) => {
            assert_eq!(node, "code");
            assert_eq!(content, "one");
        }
        other => panic!("expected InvalidValue, got {:?}", other.map(|_| ())),
    }
}

#[test]
fn nested_error_propagates_unchanged() {
    let bad_value = elem(
        "listedValue",
        vec![text_elem("label", "custom"), text_elem("code", "1")],
    );
    let mut node = minimal_attribute_elem("enumeration");
    node.children.push(elem("listedValues", vec![bad_value]));
    match SimpleAttribute::parse(&node) {
        Err(S100Error::MissingChild { node, child }) => {
            assert_eq!(node, "listedValue");
            assert_eq!(child, "definition");
        }
        other => panic!("expected MissingChild, got {:?}", other.map(|_| ())),
    }
}

#[test]
fn empty_error_message_is_accepted() {
    let node = elem("errorMessage", vec![]);
    let target = ErrorMessage::parse(&node).unwrap();
    assert_eq!(target.texts().len(), 0);
}

#[test]
fn group_member_with_wrong_tag_propagates_unexpected_node_name() {
    let node = elem(
        "S100_FC_FeatureCatalogue",
        vec![elem("S100_FC_SimpleAttributes", vec![text_elem("notAnAttribute", "")])],
    );
    match FeatureCatalog::parse(&node) {
        Err(S100Error::UnexpectedNodeName { expected, actual }) => {
            assert_eq!(expected, "S100_FC_SimpleAttribute");
            assert_eq!(actual, "notAnAttribute");
        }
        other => panic!("expected UnexpectedNodeName, got {:?}", other.map(|_| ())),
    }
}

#[test]
fn portrayal_catalog_routes_groups_to_collections() {
    let symbol = |id: &str| -> Element {
        let mut e = elem(
            "symbol",
            vec![
                text_elem("fileName", "a.svg"),
                text_elem("fileType", "Symbol"),
                text_elem("fileFormat", "SVG"),
            ],
        );
        e.attributes.push(attr("id", id));
        e
    };
    let node = elem(
        "portrayalCatalog",
        vec![
            elem("symbols", vec![symbol("S1"), symbol("S2")]),
            elem("foundationMode", vec![text_elem("viewingGroup", "11010")]),
            elem("symbols", vec![symbol("S3")]),
        ],
    );
    let target = PortrayalCatalog::parse(&node).unwrap();
    assert!(target.alert_catalog().is_none());
    let symbols = target.symbols();
    assert_eq!(symbols.len(), 3);
    assert_eq!(symbols[0].id(), "S1");
    assert_eq!(symbols[1].id(), "S2");
    assert_eq!(symbols[2].id(), "S3");
    assert_eq!(target.foundation_mode(), &["11010".to_string()]);
    assert_eq!(target.rules().len(), 0);
}
