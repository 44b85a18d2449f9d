//! Each entity parser read against a real XML document, end to end: the
//! document is tokenized by libxml, converted into the library's element
//! tree, and handed to the parser under test.

use libxml::parser::Parser;
use libxml::tree::Node;

use s100::feature::attribute_value_type::AttributeValueType;
use s100::feature::definition_reference::DefinitionReference;
use s100::feature::feature_catalog::FeatureCatalog;
use s100::feature::item::Item;
use s100::feature::listed_value::ListedValue;
use s100::feature::simple_attribute::SimpleAttribute;
use s100::metadata::data_format::DataFormat;
use s100::metadata::dataset_discovery_metadata::DatasetDiscoveryMetadata;
use s100::metadata::exchange_catalog::ExchangeCatalog;
use s100::portrayal::catalog_item::{CatalogItem, ExternalFile};
use s100::portrayal::color_profile::ColorProfile;
use s100::portrayal::description::Description;
use s100::portrayal::display_mode::DisplayMode;
use s100::portrayal::display_plane::DisplayPlane;
use s100::portrayal::error_message::ErrorMessage;
use s100::portrayal::file_format::FileFormat;
use s100::portrayal::file_type::FileType;
use s100::portrayal::line_style::LineStyle;
use s100::portrayal::parameter::Parameter;
use s100::portrayal::parameter_type::ParameterType;
use s100::portrayal::rule_file::RuleFile;
use s100::portrayal::style_sheet::StyleSheet;
use s100::portrayal::symbol::Symbol;
use s100::portrayal::validate::Validate;
use s100::portrayal::viewing_group::ViewingGroup;
use s100::portrayal::viewing_group_layer::ViewingGroupLayer;
use s100::xml::{Attribute, Element};

/// Converts one libxml node (and its subtree) into the library's element
/// tree.
fn element_of(node: &Node) -> Element {
    let mut attributes = Vec::new();
    for (name, value) in node.get_attributes() {
        attributes.push(Attribute { name, value });
    }
    let mut children = Vec::new();
    for child in node.get_child_elements() {
        children.push(element_of(&child));
    }
    Element {
        tag: node.get_name(),
        attributes,
        children,
        text: node.get_content(),
    }
}

/// Tokenizes an XML document and converts its root element.
fn parse_root(xml: &str) -> Element {
    let parser = Parser::default();
    let document = parser.parse_string(xml).unwrap();
    let node = document.get_root_element().unwrap();
    element_of(&node)
}


const XML_DEFINITION_REFERENCE: &str = r#"
            <S100FC:definitionReference xmlns:S100FC="http://www.iho.int/S100FC">
                <S100FC:sourceIdentifier>1</S100FC:sourceIdentifier>
                <S100FC:definitionSource ref="IHOREG"/>
            </S100FC:definitionReference>"#;

const XML_FEATURE_CATALOG: &str = r#"
        <?xml version="1.0" encoding="utf-8"?>
        <S100FC:S100_FC_FeatureCatalogue xmlns:S100FC="http://www.iho.int/S100FC" xmlns:S100Base="http://www.iho.int/S100Base" xmlns:S100CI="http://www.iho.int/S100CI" xmlns:xlink="http://www.w3.org/1999/xlink" xmlns:S100FD="http://www.iho.int/S100FD" xmlns:xsi="http://www.w3.org/2001/XMLSchema-instance" xsi:schemaLocation="http://www.iho.int/S100FC S100FC.xsd">
            <S100FC:S100_FC_SimpleAttributes>

            <S100FC:S100_FC_SimpleAttribute>
			<S100FC:name>Call sign</S100FC:name>
			<S100FC:definition>The designated call-sign of a radio station.</S100FC:definition>
			<S100FC:code>callSign</S100FC:code>
			<S100FC:alias>CALSGN</S100FC:alias>
			<S100FC:valueType>text</S100FC:valueType>
		</S100FC:S100_FC_SimpleAttribute>

            </S100FC:S100_FC_SimpleAttributes>
        </S100FC:S100_FC_FeatureCatalogue>"#;

const XML_LISTED_VALUE: &str = r#"
            <S100FC:listedValue xmlns:S100FC="http://www.iho.int/S100FC">
                <S100FC:label>north cardinal mark</S100FC:label>
                <S100FC:definition>Quadrant bounded by the true bearing NW-NE taken from the point of interest it should be passed to the north side of the mark.</S100FC:definition>
                <S100FC:code>1</S100FC:code>
            </S100FC:listedValue>"#;

const XML_SIMPLE_ATTRIBUTE: &str = r#"
            <S100FC:S100_FC_SimpleAttribute xmlns:S100FC="http://www.iho.int/S100FC">
                <S100FC:name>Category of checkpoint</S100FC:name>
                <S100FC:definition>Classification of a place where vehicles or travellers are stopped for identification or inspection</S100FC:definition>
                <S100FC:code>categoryOfCheckpoint</S100FC:code>
                <S100FC:alias>CATCHP</S100FC:alias>
                <S100FC:valueType>enumeration</S100FC:valueType>
                <S100FC:listedValues>
                    <S100FC:listedValue>
                        <S100FC:label>custom</S100FC:label>
                        <S100FC:definition>an office, especially in ports, at which customs dues are collected or administrated.</S100FC:definition>
                        <S100FC:code>1</S100FC:code>
                    </S100FC:listedValue>
                    <S100FC:listedValue>
                        <S100FC:label>border</S100FC:label>
                        <S100FC:definition>an office, at which immigration control takes place</S100FC:definition>
                        <S100FC:code>2</S100FC:code>
                    </S100FC:listedValue>
                </S100FC:listedValues>
            </S100FC:S100_FC_SimpleAttribute>"#;

const XML_DATASET_DISCOVERY_METADATA: &str = r#"
            <S100XC:S100_DatasetDiscoveryMetadata xmlns:S100XC="http://www.iho.int/s100/xc">
                <S100XC:fileName>101AA00AA1NPOL3.000</S100XC:fileName>
                <S100XC:filePath>101AA00AA1NPOL3</S100XC:filePath>
                <S100XC:description>AA1NPOL3V41</S100XC:description>
                <S100XC:dataProtection>false</S100XC:dataProtection>
                <S100XC:protectionScheme>S100p154.0.0</S100XC:protectionScheme>
                <S100XC:digitalSignatureReference>dsa</S100XC:digitalSignatureReference>
                <S100XC:digitalSignatureValue>
                    <S100XC:signedPublicKey id="caris">PubKey00</S100XC:signedPublicKey>
                    <S100XC:digitalSignature>12345678</S100XC:digitalSignature>
                </S100XC:digitalSignatureValue>
                <S100XC:classification gco:isoType="mco:MD_ClassificationCode">
                    <mco:MD_ClassificationCode codeList="http://standards.iso.org/iso/19115/resources/Codelists/cat/codelists.xml#MD_ClassificationCode" codeListValue="unclassified">unclassified</mco:MD_ClassificationCode>
                </S100XC:classification>
                <S100XC:purpose>new edition</S100XC:purpose>
                <S100XC:specificUsage>
                    <mri:MD_Usage>
                    <mri:specificUsage>
                        <gco:CharacterString>Overview</gco:CharacterString>
                    </mri:specificUsage>
                    </mri:MD_Usage>
                </S100XC:specificUsage>
                <S100XC:editionNumber>1</S100XC:editionNumber>
                <S100XC:updateNumber>0</S100XC:updateNumber>
                <S100XC:updateApplicationDate>2020-07-28</S100XC:updateApplicationDate>
                <S100XC:issueDate>2020-07-28</S100XC:issueDate>
                <S100XC:productSpecification>
                    <S100XC:name>S-101</S100XC:name>
                    <S100XC:version>010000</S100XC:version>
                    <S100XC:date>2018-12-01</S100XC:date>
                    <S100XC:number>101</S100XC:number>
                </S100XC:productSpecification>
                <S100XC:producingAgency>
                    <cit:CI_Responsibility>
                    <cit:role>
                        <cit:CI_RoleCode codeList="http://standards.iso.org/iso/19115/resources/Codelists/cat/codelists.xml#CI_RoleCode" codeListValue="owner">owner</cit:CI_RoleCode>
                    </cit:role>
                    <cit:party>
                        <cit:CI_Organisation>
                        <cit:name>
                            <gco:CharacterString>IHO</gco:CharacterString>
                        </cit:name>
                        </cit:CI_Organisation>
                    </cit:party>
                    </cit:CI_Responsibility>
                </S100XC:producingAgency>
                <S100XC:maximumDisplayScale>1500000</S100XC:maximumDisplayScale>
                <S100XC:horizontalDatumReference>EPSG</S100XC:horizontalDatumReference>
                <S100XC:horizontalDatumValue>4326</S100XC:horizontalDatumValue>
                <S100XC:verticalDatum>meanLowWaterSprings</S100XC:verticalDatum>
                <S100XC:soundingDatum>meanLowWaterSprings</S100XC:soundingDatum>
                <S100XC:dataType>ISO/IEC 8211</S100XC:dataType>
                <S100XC:dataTypeVersion>1.0.0</S100XC:dataTypeVersion>
                <S100XC:dataCoverage>
                    <S100XC:ID>1</S100XC:ID>
                    <S100XC:boundingBox gco:isoType="gex:EX_GeographicBoundingBox">
                    <gex:westBoundLongitude>
                        <gco:Decimal>5</gco:Decimal>
                    </gex:westBoundLongitude>
                    <gex:eastBoundLongitude>
                        <gco:Decimal>40</gco:Decimal>
                    </gex:eastBoundLongitude>
                    <gex:southBoundLatitude>
                        <gco:Decimal>76</gco:Decimal>
                    </gex:southBoundLatitude>
                    <gex:northBoundLatitude>
                        <gco:Decimal>85</gco:Decimal>
                    </gex:northBoundLatitude>
                    </S100XC:boundingBox>
                    <S100XC:boundingPolygon gco:isoType="gex:EX_BoundingPolygon">
                    <gex:polygon>
                        <gml:LineString gml:id="DC1_101AA00AA1NPOL3" srsName="urn:ogc:def:crs:EPSG::4326">
                        <gml:posList> 5.0000000 84.7566760 5.0000000 84.8649784 5.0000000 84.8649784 5.0000000 85.0000000 7.3484559 85.0000000 7.3484559 85.0000000 8.9880969 85.0000000 8.9880969 85.0000000 13.9837828 85.0000000 13.9837828 85.0000000 14.9054455 85.0000000 14.9054455 85.0000000 19.3402594 85.0000000 19.3402594 85.0000000 22.5000000 85.0000000 22.5000000 85.0000000 27.5000000 85.0000000 27.5000000 85.0000000 40.0000000 85.0000000 40.0000000 84.3488248 40.0000000 84.3488248 40.0000000 82.9752603 40.0000000 82.9752603 40.0000000 82.4249223 40.0000000 82.4249223 40.0000000 82.2098799 40.0000000 82.2098799 40.0000000 80.6946136 40.0000000 80.6946136 40.0000000 80.2669705 40.0000000 80.2669705 40.0000000 79.0649133 40.0000000 79.0649133 40.0000000 78.7213208 40.0000000 78.7213208 40.0000000 77.2716163 40.0000000 77.2716163 40.0000000 76.6815898 40.0000000 76.6815898 40.0000000 76.0000000 27.0302371 76.0000000 27.0302371 76.0000000 22.0871830 76.0000000 22.0871830 76.0000000 21.5537455 76.0000000 21.5537455 76.0000000 18.3999960 76.0000000 18.3999960 76.0000000 15.7344751 76.0000000 15.7344751 76.0000000 13.9048495 76.0000000 13.9048495 76.0000000 11.9500009 76.0000000 11.9500009 76.0000000 7.5059340 76.0000000 7.5059340 76.0000000 7.2577263 76.0000000 7.2577263 76.0000000 6.8400693 76.0000000 6.8400693 76.0000000 6.4873666 76.0000000 6.4873666 76.0000000 5.4165291 76.0000000 5.4165291 76.0000000 5.0000000 76.0000000 5.0000000 77.1025106 5.0000000 77.1025106 5.0000000 78.8023089 5.0000000 78.8023089 5.0000000 79.1915145 5.0000000 79.1915145 5.0000000 79.3204194 5.0000000 79.3204194 5.0000000 79.3600832 5.0000000 79.3600832 5.0000000 79.5311215 5.0000000 79.5311215 5.0000000 79.7835393 5.0000000 79.7835393 5.0000000 79.8956829 5.0000000 79.8956829 5.0000000 80.2580592 5.0000000 80.2580592 5.0000000 80.4491770 5.0000000 80.4491770 5.0000000 80.5422964 5.0000000 80.5422964 5.0000000 82.0327324 5.0000000 82.0327324 5.0000000 82.2727813 5.0000000 82.2727813 5.0000000 82.4530831 5.0000000 82.4530831 5.0000000 83.5606851 5.0000000 83.5606851 5.0000000 83.7246049 5.0000000 83.7246049 5.0000000 84.2107955 5.0000000 84.2107955 5.0000000 84.6203741 5.0000000 84.6203741 5.0000000 84.6505357 5.0000000 84.6505357 5.0000000 84.7566760</gml:posList>
                        </gml:LineString>
                    </gex:polygon>
                    </S100XC:boundingPolygon>
                    <S100XC:maximumDisplayScale>1500000</S100XC:maximumDisplayScale>
                    <S100XC:minimumDisplayScale>3500000</S100XC:minimumDisplayScale>
                </S100XC:dataCoverage>
                <S100XC:defaultLocale>
                    <lan:PT_Locale>
                    <lan:language>
                        <lan:LanguageCode codeList="http://www.iho.int/S100/4.0.0/resources/Codelists/cat/codelists.xml#S100_MD_LanguageCode" codeListValue="ENGLISH">ENGLISH</lan:LanguageCode>
                    </lan:language>
                    <lan:characterEncoding>
                        <lan:MD_CharacterSetCode codeList="http://www.iho.int/S100/4.0.0/resources/Codelists/cat/codelists.xml#S100_MD_CharacterSetCode" codeListValue="UTF-8">UTF-8</lan:MD_CharacterSetCode>
                    </lan:characterEncoding>
                    </lan:PT_Locale>
                </S100XC:defaultLocale>
                <S100XC:metadataFileIdentifier>CATALOG.XML</S100XC:metadataFileIdentifier>
                <S100XC:metadataPointOfContact>
                    <cit:CI_Responsibility>
                    <cit:role>
                        <cit:CI_RoleCode codeList="http://standards.iso.org/iso/19115/resources/Codelists/cat/codelists.xml#CI_RoleCode" codeListValue="owner">owner</cit:CI_RoleCode>
                    </cit:role>
                    <cit:party>
                        <cit:CI_Organisation>
                        <cit:name>
                            <gco:CharacterString>IHO</gco:CharacterString>
                        </cit:name>
                        </cit:CI_Organisation>
                    </cit:party>
                    </cit:CI_Responsibility>
                </S100XC:metadataPointOfContact>
                <S100XC:metadataDateStamp>2020-07-10</S100XC:metadataDateStamp>
                <S100XC:metadataLanguage>ENGLISH</S100XC:metadataLanguage>
                <S100XC:supportFileDiscoveryMetadataReference/>
                <S100XC:S100_19115DatasetMetadata/>
            </S100XC:S100_DatasetDiscoveryMetadata>"#;

const XML_EXCHANGE_CATALOG: &str = r#"
            <?xml version="1.0" encoding="UTF-8"?>
            <?xml-model href="file:./S101_XC.sch" type="application/xml" schematypens="http://purl.oclc.org/dsdl/schematron"?>
            <S100XC:S100_ExchangeCatalogue xmlns:xsi="http://www.w3.org/2001/XMLSchema-instance" xmlns:S100XC="http://www.iho.int/s100/xc" xmlns:cit="http://standards.iso.org/iso/19115/-3/cit/2.0" xmlns:gco="http://standards.iso.org/iso/19115/-3/gco/1.0" xmlns:gcx="http://standards.iso.org/iso/19115/-3/gcx/1.0" xmlns:gex="http://standards.iso.org/iso/19115/-3/gex/1.0" xmlns:gml="http://www.opengis.net/gml/3.2" xmlns:lan="http://standards.iso.org/iso/19115/-3/lan/1.0" xmlns:mcc="http://standards.iso.org/iso/19115/-3/mcc/1.0" xmlns:mco="http://standards.iso.org/iso/19115/-3/mco/1.0" xmlns:mri="http://standards.iso.org/iso/19115/-3/mri/1.0" xmlns:xlink="http://www.w3.org/1999/xlink">
            <S100XC:identifier>
                <S100XC:identifier>101AA00AA1NPOL3</S100XC:identifier>
                <S100XC:editionNumber>1</S100XC:editionNumber>
                <S100XC:date>2020-07-28</S100XC:date>
            </S100XC:identifier>
            <S100XC:contact>
                <S100XC:organization>IHO</S100XC:organization>
            </S100XC:contact>
            <S100XC:productSpecification>
                <S100XC:name>S-101</S100XC:name>
                <S100XC:version>010000</S100XC:version>
                <S100XC:date>2018-12-01</S100XC:date>
                <S100XC:number>101</S100XC:number>
            </S100XC:productSpecification>
            <S100XC:metadataLanguage>English</S100XC:metadataLanguage>
            <S100XC:exchangeCatalogueName>CATALOG.XML</S100XC:exchangeCatalogueName>
            <S100XC:exchangeCatalogueDescription>S-101</S100XC:exchangeCatalogueDescription>
            <S100XC:sourceMedia>AA1NPOL3</S100XC:sourceMedia>
            <S100XC:replacedData>false</S100XC:replacedData>
            <S100XC:datasetDiscoveryMetadata>
                <S100XC:S100_DatasetDiscoveryMetadata>
                <S100XC:fileName>101AA00AA1NPOL3.000</S100XC:fileName>
                <S100XC:filePath>101AA00AA1NPOL3</S100XC:filePath>
                <S100XC:description>AA1NPOL3V41</S100XC:description>
                <S100XC:dataProtection>false</S100XC:dataProtection>
                <S100XC:protectionScheme>S100p154.0.0</S100XC:protectionScheme>
                <S100XC:digitalSignatureReference>dsa</S100XC:digitalSignatureReference>
                <S100XC:digitalSignatureValue>
                    <S100XC:signedPublicKey id="caris">PubKey00</S100XC:signedPublicKey>
                    <S100XC:digitalSignature>12345678</S100XC:digitalSignature>
                </S100XC:digitalSignatureValue>
                <S100XC:classification gco:isoType="mco:MD_ClassificationCode">
                    <mco:MD_ClassificationCode codeList="http://standards.iso.org/iso/19115/resources/Codelists/cat/codelists.xml#MD_ClassificationCode" codeListValue="unclassified">unclassified</mco:MD_ClassificationCode>
                </S100XC:classification>
                <S100XC:purpose>new edition</S100XC:purpose>
                <S100XC:specificUsage>
                    <mri:MD_Usage>
                    <mri:specificUsage>
                        <gco:CharacterString>Overview</gco:CharacterString>
                    </mri:specificUsage>
                    </mri:MD_Usage>
                </S100XC:specificUsage>
                <S100XC:editionNumber>1</S100XC:editionNumber>
                <S100XC:updateNumber>0</S100XC:updateNumber>
                <S100XC:updateApplicationDate>2020-07-28</S100XC:updateApplicationDate>
                <S100XC:issueDate>2020-07-28</S100XC:issueDate>
                <S100XC:productSpecification>
                    <S100XC:name>S-101</S100XC:name>
                    <S100XC:version>010000</S100XC:version>
                    <S100XC:date>2018-12-01</S100XC:date>
                    <S100XC:number>101</S100XC:number>
                </S100XC:productSpecification>
                <S100XC:producingAgency>
                    <cit:CI_Responsibility>
                    <cit:role>
                        <cit:CI_RoleCode codeList="http://standards.iso.org/iso/19115/resources/Codelists/cat/codelists.xml#CI_RoleCode" codeListValue="owner">owner</cit:CI_RoleCode>
                    </cit:role>
                    <cit:party>
                        <cit:CI_Organisation>
                        <cit:name>
                            <gco:CharacterString>IHO</gco:CharacterString>
                        </cit:name>
                        </cit:CI_Organisation>
                    </cit:party>
                    </cit:CI_Responsibility>
                </S100XC:producingAgency>
                <S100XC:maximumDisplayScale>1500000</S100XC:maximumDisplayScale>
                <S100XC:horizontalDatumReference>EPSG</S100XC:horizontalDatumReference>
                <S100XC:horizontalDatumValue>4326</S100XC:horizontalDatumValue>
                <S100XC:verticalDatum>meanLowWaterSprings</S100XC:verticalDatum>
                <S100XC:soundingDatum>meanLowWaterSprings</S100XC:soundingDatum>
                <S100XC:dataType>ISO/IEC 8211</S100XC:dataType>
                <S100XC:dataTypeVersion>1.0.0</S100XC:dataTypeVersion>
                <S100XC:dataCoverage>
                    <S100XC:ID>1</S100XC:ID>
                    <S100XC:boundingBox gco:isoType="gex:EX_GeographicBoundingBox">
                    <gex:westBoundLongitude>
                        <gco:Decimal>5</gco:Decimal>
                    </gex:westBoundLongitude>
                    <gex:eastBoundLongitude>
                        <gco:Decimal>40</gco:Decimal>
                    </gex:eastBoundLongitude>
                    <gex:southBoundLatitude>
                        <gco:Decimal>76</gco:Decimal>
                    </gex:southBoundLatitude>
                    <gex:northBoundLatitude>
                        <gco:Decimal>85</gco:Decimal>
                    </gex:northBoundLatitude>
                    </S100XC:boundingBox>
                    <S100XC:boundingPolygon gco:isoType="gex:EX_BoundingPolygon">
                    <gex:polygon>
                        <gml:LineString gml:id="DC1_101AA00AA1NPOL3" srsName="urn:ogc:def:crs:EPSG::4326">
                        <gml:posList> 5.0000000 84.7566760 5.0000000 84.8649784 5.0000000 84.8649784 5.0000000 85.0000000 7.3484559 85.0000000 7.3484559 85.0000000 8.9880969 85.0000000 8.9880969 85.0000000 13.9837828 85.0000000 13.9837828 85.0000000 14.9054455 85.0000000 14.9054455 85.0000000 19.3402594 85.0000000 19.3402594 85.0000000 22.5000000 85.0000000 22.5000000 85.0000000 27.5000000 85.0000000 27.5000000 85.0000000 40.0000000 85.0000000 40.0000000 84.3488248 40.0000000 84.3488248 40.0000000 82.9752603 40.0000000 82.9752603 40.0000000 82.4249223 40.0000000 82.4249223 40.0000000 82.2098799 40.0000000 82.2098799 40.0000000 80.6946136 40.0000000 80.6946136 40.0000000 80.2669705 40.0000000 80.2669705 40.0000000 79.0649133 40.0000000 79.0649133 40.0000000 78.7213208 40.0000000 78.7213208 40.0000000 77.2716163 40.0000000 77.2716163 40.0000000 76.6815898 40.0000000 76.6815898 40.0000000 76.0000000 27.0302371 76.0000000 27.0302371 76.0000000 22.0871830 76.0000000 22.0871830 76.0000000 21.5537455 76.0000000 21.5537455 76.0000000 18.3999960 76.0000000 18.3999960 76.0000000 15.7344751 76.0000000 15.7344751 76.0000000 13.9048495 76.0000000 13.9048495 76.0000000 11.9500009 76.0000000 11.9500009 76.0000000 7.5059340 76.0000000 7.5059340 76.0000000 7.2577263 76.0000000 7.2577263 76.0000000 6.8400693 76.0000000 6.8400693 76.0000000 6.4873666 76.0000000 6.4873666 76.0000000 5.4165291 76.0000000 5.4165291 76.0000000 5.0000000 76.0000000 5.0000000 77.1025106 5.0000000 77.1025106 5.0000000 78.8023089 5.0000000 78.8023089 5.0000000 79.1915145 5.0000000 79.1915145 5.0000000 79.3204194 5.0000000 79.3204194 5.0000000 79.3600832 5.0000000 79.3600832 5.0000000 79.5311215 5.0000000 79.5311215 5.0000000 79.7835393 5.0000000 79.7835393 5.0000000 79.8956829 5.0000000 79.8956829 5.0000000 80.2580592 5.0000000 80.2580592 5.0000000 80.4491770 5.0000000 80.4491770 5.0000000 80.5422964 5.0000000 80.5422964 5.0000000 82.0327324 5.0000000 82.0327324 5.0000000 82.2727813 5.0000000 82.2727813 5.0000000 82.4530831 5.0000000 82.4530831 5.0000000 83.5606851 5.0000000 83.5606851 5.0000000 83.7246049 5.0000000 83.7246049 5.0000000 84.2107955 5.0000000 84.2107955 5.0000000 84.6203741 5.0000000 84.6203741 5.0000000 84.6505357 5.0000000 84.6505357 5.0000000 84.7566760</gml:posList>
                        </gml:LineString>
                    </gex:polygon>
                    </S100XC:boundingPolygon>
                    <S100XC:maximumDisplayScale>1500000</S100XC:maximumDisplayScale>
                    <S100XC:minimumDisplayScale>3500000</S100XC:minimumDisplayScale>
                </S100XC:dataCoverage>
                <S100XC:defaultLocale>
                    <lan:PT_Locale>
                    <lan:language>
                        <lan:LanguageCode codeList="http://www.iho.int/S100/4.0.0/resources/Codelists/cat/codelists.xml#S100_MD_LanguageCode" codeListValue="ENGLISH">ENGLISH</lan:LanguageCode>
                    </lan:language>
                    <lan:characterEncoding>
                        <lan:MD_CharacterSetCode codeList="http://www.iho.int/S100/4.0.0/resources/Codelists/cat/codelists.xml#S100_MD_CharacterSetCode" codeListValue="UTF-8">UTF-8</lan:MD_CharacterSetCode>
                    </lan:characterEncoding>
                    </lan:PT_Locale>
                </S100XC:defaultLocale>
                <S100XC:metadataFileIdentifier>CATALOG.XML</S100XC:metadataFileIdentifier>
                <S100XC:metadataPointOfContact>
                    <cit:CI_Responsibility>
                    <cit:role>
                        <cit:CI_RoleCode codeList="http://standards.iso.org/iso/19115/resources/Codelists/cat/codelists.xml#CI_RoleCode" codeListValue="owner">owner</cit:CI_RoleCode>
                    </cit:role>
                    <cit:party>
                        <cit:CI_Organisation>
                        <cit:name>
                            <gco:CharacterString>IHO</gco:CharacterString>
                        </cit:name>
                        </cit:CI_Organisation>
                    </cit:party>
                    </cit:CI_Responsibility>
                </S100XC:metadataPointOfContact>
                <S100XC:metadataDateStamp>2020-07-10</S100XC:metadataDateStamp>
                <S100XC:metadataLanguage>ENGLISH</S100XC:metadataLanguage>
                <S100XC:supportFileDiscoveryMetadataReference/>
                <S100XC:S100_19115DatasetMetadata/>
                </S100XC:S100_DatasetDiscoveryMetadata>
            </S100XC:datasetDiscoveryMetadata>
            </S100XC:S100_ExchangeCatalogue>"#;

const XML_COLOR_PROFILE: &str = r#"
            <colorProfile id="1">
                <description>
                    <name>Color Profile</name>
                    <description>Color profile with day, dusk, and night color palettes</description>
                    <language>eng</language>
                </description>
                <fileName>colorProfile.xml</fileName>
                <fileType>ColorProfile</fileType>
                <fileFormat>XML</fileFormat>
            </colorProfile>"#;

const XML_DESCRIPTION: &str = r#"
            <description>
                <name>BOYCON01</name>
                <description>conical buoy, paper-chart</description>
                <language>eng</language>
            </description>"#;

const XML_DISPLAY_MODE: &str = r#"
            <displayMode id="1">
                <description>
                    <name>Base</name>
                    <description>Always on display</description>
                    <language>eng</language>
                </description>
                <viewingGroupLayer>1</viewingGroupLayer>
            </displayMode>"#;

const XML_DISPLAY_PLANE: &str = r#"
            <displayPlane id="1">
                <description>
                    <name>OVERRADAR</name>
                    <description>Content displayed on top of Radar image</description>
                    <language>eng</language>
                </description>
            </displayPlane>"#;

const XML_ERROR_MESSAGE: &str = r#"
            <errorMessage>
                <text>Must be &lt;= safety contour value</text>
                <text language="kor">안전 윤곽 값보다 작거나 같아야 합니다</text>
            </errorMessage>"#;

const XML_LINE_STYLE: &str = r#"
            <lineStyle id="testPCB">
                <description>
                    <name>testPCB</name>
                    <description>new or adjusted feature objects not covered in S-52</description>
                    <language>eng</language>
                </description>
                <fileName>testPCB.xml</fileName>
                <fileType>LineStyle</fileType>
                <fileFormat>XML</fileFormat>
            </lineStyle>"#;

const XML_PARAMETER: &str = r#"
            <parameter id="SafetyDepth">
                <description>
                    <name>SAFETY_DEPTH</name>
                    <description>selected safety depth (meters)</description>
                    <language>eng</language>
                </description>
                <type>Double</type>
                <default>30</default>
            </parameter>"#;

const XML_RULE_FILE: &str = r#"
            <ruleFile id="1">
                <description>
                    <name>AdministrationArea</name>
                    <description>AdministrationArea_Plain</description>
                    <language>eng</language>
                </description>
                <fileName>AdministrationArea_Plain.xsl</fileName>
                <fileType>Rule</fileType>
                <fileFormat>XSLT</fileFormat>
                <ruleType>SubTemplate</ruleType>
            </ruleFile>"#;

const XML_STYLE_SHEET: &str = r#"
            <styleSheet id="daySvgStyle">
                <description>
                    <name>Day</name>
                    <description>CSS file for day palette</description>
                    <language>eng</language>
                </description>
                <fileName>daySvgStyle.css</fileName>
                <fileType>StyleSheet</fileType>
                <fileFormat>XML</fileFormat> <!-- fileFormat will need to be updated when Part 9 is updated to include CSS file format. -->
            </styleSheet>"#;

const XML_SYMBOL: &str = r#"
            <symbol id="BOYCON01">
                <description>
                    <name>BOYCON01</name>
                    <description>conical buoy, paper-chart</description>
                    <language>eng</language>
                </description>
                <fileName>BOYCON01.svg</fileName>
                <fileType>Symbol</fileType>
                <fileFormat>SVG</fileFormat>
            </symbol>"#;

const XML_VALIDATE: &str = r#"
            <validate>
                <xpath>//ShallowContour &lt;= //SafetyContour</xpath>
                <errorMessage>
                    <text>Must be &lt;= safety contour value</text>
                    <text language="kor">안전 윤곽 값보다 작거나 같아야 합니다</text>
                </errorMessage>
            </validate>"#;

const XML_VIEWING_GROUP: &str = r#"
            <viewingGroup id="2">
                <description>
                    <name>26220</name>
                    <description/>
                    <language>eng</language>
                </description>
            </viewingGroup>"#;

const XML_VIEWING_GROUP_LAYER: &str = r#"
            <viewingGroupLayer id="2">
                <description>
                    <name>Drying Line</name>
                    <description>Standard Display elements</description>
                    <language>eng</language>
                </description>
                <viewingGroup>22010</viewingGroup>
            </viewingGroupLayer>"#;

#[test]
fn definition_reference_deserialize() {
    let root = parse_root(XML_DEFINITION_REFERENCE);
    let target = DefinitionReference::parse(&root).unwrap();

    assert_eq!(target.source_identifier(), "1");
    assert_eq!(target.definition_source(), "IHOREG");
}

#[test]
fn feature_catalog_deserialize() {
    let root = parse_root(XML_FEATURE_CATALOG);
    match FeatureCatalog::parse(&root) {
        Err(e) => {
            panic!("unable to parse feature catalog: {:?}", e)
        }
        Ok(target) => {
            assert_eq!(target.simple_attributes().len(), 1);
        }
    }
}

#[test]
fn listed_value_deserialize() {
    let root = parse_root(XML_LISTED_VALUE);
    let target = ListedValue::parse(&root).unwrap();

    assert_eq!(target.label(), "north cardinal mark");
    assert_eq!(target.definition(), "Quadrant bounded by the true bearing NW-NE taken from the point of interest it should be passed to the north side of the mark.");
    assert_eq!(target.code(), 1);
}

#[test]
fn simple_attribute_deserialize() {
    let root = parse_root(XML_SIMPLE_ATTRIBUTE);
    let target = SimpleAttribute::parse(&root).unwrap();

    assert_eq!(target.name(), "Category of checkpoint");
    assert_eq!(target.definition(), "Classification of a place where vehicles or travellers are stopped for identification or inspection");
    assert_eq!(target.code(), "categoryOfCheckpoint");
    assert_eq!(target.remarks(), None);
    assert_eq!(target.alias(), Some("CATCHP"));
    assert_eq!(target.value_type(), AttributeValueType::Enumeration);
}

#[test]
fn dataset_discovery_metadata_deserialize() {
    let root = parse_root(XML_DATASET_DISCOVERY_METADATA);
    let target = DatasetDiscoveryMetadata::parse(&root).unwrap();

    assert_eq!(target.file_name(), "101AA00AA1NPOL3.000");
    assert_eq!(target.file_path(), "101AA00AA1NPOL3");
    assert_eq!(target.description(), "AA1NPOL3V41");
    assert_eq!(target.data_type(), DataFormat::ISO8211);
    assert_eq!(target.data_type_version(), "1.0.0");
}

#[test]
fn exchange_catalog_deserialize() {
    let root = parse_root(XML_EXCHANGE_CATALOG);
    match ExchangeCatalog::parse(&root) {
        Err(e) => {
            panic!("unable to parse exchange catalog: {:?}", e)
        }
        Ok(target) => {
            assert_eq!(target.dataset_discovery_metadata().len(), 1);
        }
    }
}

#[test]
fn color_profile_deserialize() {
    let root = parse_root(XML_COLOR_PROFILE);
    let target = ColorProfile::parse(&root).unwrap();
    assert_eq!(target.id(), "1");

    let descriptions = target.descriptions();
    assert_eq!(descriptions.len(), 1);

    let description = &descriptions[0];
    assert_eq!(description.name(), "Color Profile");
    assert_eq!(
        description.description(),
        "Color profile with day, dusk, and night color palettes"
    );
    assert_eq!(description.language(), "eng");

    assert_eq!(target.file_name(), "colorProfile.xml");
    assert_eq!(target.file_type(), FileType::ColorProfile);
    assert_eq!(target.file_format(), FileFormat::Xml);
}

#[test]
fn description_deserialize() {
    let root = parse_root(XML_DESCRIPTION);
    let target = Description::parse(&root).unwrap();

    assert_eq!(target.name(), "BOYCON01");
    assert_eq!(target.description(), "conical buoy, paper-chart");
    assert_eq!(target.language(), "eng");
}

#[test]
fn display_mode_deserialize() {
    let root = parse_root(XML_DISPLAY_MODE);
    let target = DisplayMode::parse(&root).unwrap();
    assert_eq!(target.id(), "1");

    let descriptions = target.descriptions();
    assert_eq!(descriptions.len(), 1);

    let description = &descriptions[0];
    assert_eq!(description.name(), "Base");
    assert_eq!(description.description(), "Always on display");
    assert_eq!(description.language(), "eng");

    let viewing_groups = target.viewing_group_layers();
    assert_eq!(viewing_groups.len(), 1);
    assert_eq!(viewing_groups[0], "1");
}

#[test]
fn display_plane_deserialize() {
    let root = parse_root(XML_DISPLAY_PLANE);
    let target = DisplayPlane::parse(&root).unwrap();
    assert_eq!(target.id(), "1");

    let descriptions = target.descriptions();
    assert_eq!(descriptions.len(), 1);

    let description = &descriptions[0];
    assert_eq!(description.name(), "OVERRADAR");
    assert_eq!(
        description.description(),
        "Content displayed on top of Radar image"
    );
    assert_eq!(description.language(), "eng");
}

#[test]
fn error_message_deserialize() {
    let root = parse_root(XML_ERROR_MESSAGE);
    let target = ErrorMessage::parse(&root).unwrap();

    let texts = target.texts();
    assert_eq!(texts[0].text(), "Must be <= safety contour value");
    assert_eq!(texts[0].language(), None);
    assert_eq!(texts[1].text(), "안전 윤곽 값보다 작거나 같아야 합니다");
    assert_eq!(texts[1].language(), Some("kor"));
}

#[test]
fn line_style_deserialize() {
    let root = parse_root(XML_LINE_STYLE);
    let target = LineStyle::parse(&root).unwrap();
    assert_eq!(target.id(), "testPCB");

    let descriptions = target.descriptions();
    assert_eq!(descriptions.len(), 1);

    let description = &descriptions[0];
    assert_eq!(description.name(), "testPCB");
    assert_eq!(
        description.description(),
        "new or adjusted feature objects not covered in S-52"
    );
    assert_eq!(description.language(), "eng");

    assert_eq!(target.file_name(), "testPCB.xml");
    assert_eq!(target.file_type(), FileType::LineStyle);
    assert_eq!(target.file_format(), FileFormat::Xml);
}

#[test]
fn parameter_deserialize() {
    let root = parse_root(XML_PARAMETER);
    let target = Parameter::parse(&root).unwrap();
    assert_eq!(target.id(), "SafetyDepth");

    let descriptions = target.descriptions();
    assert_eq!(descriptions.len(), 1);

    let description = &descriptions[0];
    assert_eq!(description.name(), "SAFETY_DEPTH");
    assert_eq!(description.description(), "selected safety depth (meters)");
    assert_eq!(description.language(), "eng");

    assert_eq!(target.parameter_type(), ParameterType::Double);
    assert_eq!(target.default(), "30");
}

#[test]
fn rule_file_deserialize() {
    let root = parse_root(XML_RULE_FILE);
    let target = RuleFile::parse(&root).unwrap();
    assert_eq!(target.id(), "1");

    let descriptions = target.descriptions();
    assert_eq!(descriptions.len(), 1);

    let description = &descriptions[0];
    assert_eq!(description.name(), "AdministrationArea");
    assert_eq!(description.description(), "AdministrationArea_Plain");
    assert_eq!(description.language(), "eng");

    assert_eq!(target.file_name(), "AdministrationArea_Plain.xsl");
    assert_eq!(target.file_type(), FileType::Rule);
    assert_eq!(target.file_format(), FileFormat::Xslt);
}

#[test]
fn style_sheet_deserialize() {
    let root = parse_root(XML_STYLE_SHEET);
    let target = StyleSheet::parse(&root).unwrap();
    assert_eq!(target.id(), "daySvgStyle");

    let descriptions = target.descriptions();
    assert_eq!(descriptions.len(), 1);

    let description = &descriptions[0];
    assert_eq!(description.name(), "Day");
    assert_eq!(description.description(), "CSS file for day palette");
    assert_eq!(description.language(), "eng");

    assert_eq!(target.file_name(), "daySvgStyle.css");
    assert_eq!(target.file_type(), FileType::StyleSheet);
    assert_eq!(target.file_format(), FileFormat::Xml);
}

#[test]
fn symbol_deserialize() {
    let root = parse_root(XML_SYMBOL);
    let target = Symbol::parse(&root).unwrap();
    assert_eq!(target.id(), "BOYCON01");

    let descriptions = target.descriptions();
    assert_eq!(descriptions.len(), 1);

    let description = &descriptions[0];
    assert_eq!(description.name(), "BOYCON01");
    assert_eq!(description.description(), "conical buoy, paper-chart");
    assert_eq!(description.language(), "eng");

    assert_eq!(target.file_name(), "BOYCON01.svg");
    assert_eq!(target.file_type(), FileType::Symbol);
    assert_eq!(target.file_format(), FileFormat::Svg);
}

#[test]
fn validate_deserialize() {
    let root = parse_root(XML_VALIDATE);
    let target = Validate::parse(&root).unwrap();

    assert_eq!(target.regex(), None);

    let texts = target.error_message().texts();
    assert_eq!(texts[0].text(), "Must be <= safety contour value");
    assert_eq!(texts[0].language(), None);
    assert_eq!(texts[1].text(), "안전 윤곽 값보다 작거나 같아야 합니다");
    assert_eq!(texts[1].language(), Some("kor"));
}

#[test]
fn viewing_group_deserialize() {
    let root = parse_root(XML_VIEWING_GROUP);
    let target = ViewingGroup::parse(&root).unwrap();
    assert_eq!(target.id(), "2");

    let descriptions = target.descriptions();
    assert_eq!(descriptions.len(), 1);

    let description = &descriptions[0];
    assert_eq!(description.name(), "26220");
    assert_eq!(description.description(), "");
    assert_eq!(description.language(), "eng");
}

#[test]
fn viewing_group_layer_deserialize() {
    let root = parse_root(XML_VIEWING_GROUP_LAYER);
    let target = ViewingGroupLayer::parse(&root).unwrap();
    assert_eq!(target.id(), "2");

    let descriptions = target.descriptions();
    assert_eq!(descriptions.len(), 1);

    let description = &descriptions[0];
    assert_eq!(description.name(), "Drying Line");
    assert_eq!(description.description(), "Standard Display elements");
    assert_eq!(description.language(), "eng");

    let viewing_groups = target.viewing_groups();
    assert_eq!(viewing_groups.len(), 1);
    assert_eq!(viewing_groups[0], "22010");
}
