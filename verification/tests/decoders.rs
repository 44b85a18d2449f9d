//! Every code-list decoder, held to its table: each literal string decodes
//! to exactly its variant, and any string outside the table is rejected
//! with `InvalidEnum` naming the field and the received string.

use s100::error::S100Error;
use s100::feature::attribute_value_type::AttributeValueType;
use s100::feature::quantity_specification::QuantitySpecification;
use s100::metadata::data_format::DataFormat;
use s100::portrayal::file_format::FileFormat;
use s100::portrayal::file_type::FileType;
use s100::portrayal::parameter_type::ParameterType;
use s100::portrayal::rule_type::RuleType;

fn expect_invalid_enum<T: std::fmt::Debug>(r: Result<T, S100Error>, field: &str, value: &str) {
    match r {
        Err(S100Error::InvalidEnum { field: f, value: v }) => {
            assert_eq!(f, field);
            assert_eq!(v, value);
        }
        other => panic!("expected InvalidEnum, got {:?}", other),
    }
}

#[test]
fn attribute_value_type_table() {
    assert_eq!(AttributeValueType::from_str("boolean").unwrap(), AttributeValueType::Boolean);
    assert_eq!(
        AttributeValueType::from_str("enumeration").unwrap(),
        AttributeValueType::Enumeration
    );
    assert_eq!(AttributeValueType::from_str("integer").unwrap(), AttributeValueType::Integer);
    assert_eq!(AttributeValueType::from_str("real").unwrap(), AttributeValueType::Real);
    assert_eq!(AttributeValueType::from_str("text").unwrap(), AttributeValueType::Text);
    assert_eq!(AttributeValueType::from_str("date").unwrap(), AttributeValueType::Date);
    assert_eq!(AttributeValueType::from_str("time").unwrap(), AttributeValueType::Time);
    assert_eq!(AttributeValueType::from_str("dateTime").unwrap(), AttributeValueType::DateTime);
    assert_eq!(
        AttributeValueType::from_str("S100_TruncatedDate").unwrap(),
        AttributeValueType::TruncatedDate
    );
    assert_eq!(AttributeValueType::from_str("URI").unwrap(), AttributeValueType::Uri);
    assert_eq!(AttributeValueType::from_str("URL").unwrap(), AttributeValueType::Url);
    assert_eq!(AttributeValueType::from_str("URN").unwrap(), AttributeValueType::Urn);
}

#[test]
fn attribute_value_type_rejects_unknown() {
    expect_invalid_enum(AttributeValueType::from_str("bogus"), "valueType", "bogus");
    expect_invalid_enum(AttributeValueType::from_str("Boolean"), "valueType", "Boolean");
    expect_invalid_enum(AttributeValueType::from_str(""), "valueType", "");
}

#[test]
fn quantity_specification_table() {
    assert_eq!(
        QuantitySpecification::from_str("angularVelocity").unwrap(),
        QuantitySpecification::AngularVelocity
    );
    assert_eq!(QuantitySpecification::from_str("area").unwrap(), QuantitySpecification::Area);
    assert_eq!(
        QuantitySpecification::from_str("density").unwrap(),
        QuantitySpecification::Density
    );
    assert_eq!(
        QuantitySpecification::from_str("duration").unwrap(),
        QuantitySpecification::Duration
    );
    assert_eq!(
        QuantitySpecification::from_str("frequency").unwrap(),
        QuantitySpecification::Frequency
    );
    assert_eq!(QuantitySpecification::from_str("length").unwrap(), QuantitySpecification::Length);
    assert_eq!(QuantitySpecification::from_str("mass").unwrap(), QuantitySpecification::Mass);
    assert_eq!(
        QuantitySpecification::from_str("planeAngle").unwrap(),
        QuantitySpecification::PlaneAngle
    );
    assert_eq!(QuantitySpecification::from_str("power").unwrap(), QuantitySpecification::Power);
    assert_eq!(
        QuantitySpecification::from_str("pressure").unwrap(),
        QuantitySpecification::Pressure
    );
    assert_eq!(
        QuantitySpecification::from_str("salinity").unwrap(),
        QuantitySpecification::Salinity
    );
    assert_eq!(QuantitySpecification::from_str("speed").unwrap(), QuantitySpecification::Speed);
    assert_eq!(
        QuantitySpecification::from_str("temperature").unwrap(),
        QuantitySpecification::Temperature
    );
    assert_eq!(QuantitySpecification::from_str("volume").unwrap(), QuantitySpecification::Volume);
    assert_eq!(QuantitySpecification::from_str("weight").unwrap(), QuantitySpecification::Weight);
    assert_eq!(
        QuantitySpecification::from_str("otherQuantity").unwrap(),
        QuantitySpecification::OtherQuantity
    );
}

#[test]
fn quantity_specification_rejects_unknown() {
    expect_invalid_enum(
        QuantitySpecification::from_str("Length"),
        "quantitySpecification",
        "Length",
    );
}

#[test]
fn data_format_table() {
    assert_eq!(DataFormat::from_str("ISO/IEC 8211").unwrap(), DataFormat::ISO8211);
    assert_eq!(DataFormat::from_str("GML").unwrap(), DataFormat::GML);
    assert_eq!(DataFormat::from_str("HDF5").unwrap(), DataFormat::HDF5);
    assert_eq!(DataFormat::from_str("undefined").unwrap(), DataFormat::Undefined);
}

#[test]
fn data_format_rejects_unknown() {
    expect_invalid_enum(DataFormat::from_str("gml"), "dataFormat", "gml");
}

#[test]
fn file_type_table() {
    assert_eq!(FileType::from_str("Font").unwrap(), FileType::Font);
    assert_eq!(FileType::from_str("AlertCatalog").unwrap(), FileType::AlertCatalog);
    assert_eq!(FileType::from_str("AreaFill").unwrap(), FileType::AreaFill);
    assert_eq!(FileType::from_str("LineStyle").unwrap(), FileType::LineStyle);
    assert_eq!(FileType::from_str("Symbol").unwrap(), FileType::Symbol);
    assert_eq!(FileType::from_str("ColorProfile").unwrap(), FileType::ColorProfile);
    assert_eq!(FileType::from_str("Pixmap").unwrap(), FileType::Pixmap);
    assert_eq!(FileType::from_str("Rule").unwrap(), FileType::Rule);
    assert_eq!(FileType::from_str("StyleSheet").unwrap(), FileType::StyleSheet);
}

#[test]
fn file_type_rejects_unknown() {
    expect_invalid_enum(FileType::from_str("symbol"), "fileType", "symbol");
}

#[test]
fn file_format_table() {
    assert_eq!(FileFormat::from_str("XML").unwrap(), FileFormat::Xml);
    assert_eq!(FileFormat::from_str("SVG").unwrap(), FileFormat::Svg);
    assert_eq!(FileFormat::from_str("XSLT").unwrap(), FileFormat::Xslt);
    assert_eq!(FileFormat::from_str("TTF").unwrap(), FileFormat::Ttf);
    assert_eq!(FileFormat::from_str("LUA").unwrap(), FileFormat::Lua);
}

#[test]
fn file_format_rejects_unknown() {
    expect_invalid_enum(FileFormat::from_str("xml"), "fileFormat", "xml");
}

#[test]
fn rule_type_table() {
    assert_eq!(RuleType::from_str("SubTemplate").unwrap(), RuleType::SubTemplate);
    assert_eq!(RuleType::from_str("TopLevelTemplate").unwrap(), RuleType::TopLevelTemplate);
}

#[test]
fn rule_type_rejects_unknown() {
    expect_invalid_enum(RuleType::from_str("Template"), "ruleType", "Template");
}

#[test]
fn parameter_type_table() {
    assert_eq!(ParameterType::from_str("Boolean").unwrap(), ParameterType::Boolean);
    assert_eq!(ParameterType::from_str("Integer").unwrap(), ParameterType::Integer);
    assert_eq!(ParameterType::from_str("Double").unwrap(), ParameterType::Double);
    assert_eq!(ParameterType::from_str("String").unwrap(), ParameterType::Text);
    assert_eq!(ParameterType::from_str("Date").unwrap(), ParameterType::Date);
}

#[test]
fn parameter_type_rejects_unknown() {
    expect_invalid_enum(ParameterType::from_str("double"), "type", "double");
}
