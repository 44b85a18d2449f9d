//! The error vocabulary shared by every parser in the crate.
//!
//! Parsing is strictly fail-fast: the first structural defect found anywhere
//! in a document's tree is returned unchanged to the caller, and no partial
//! catalogue is ever produced. Each variant carries enough context (the
//! offending node's tag and the expected or received identifier) to pinpoint
//! the failure without re-parsing.

use vstd::prelude::*;

verus! {

/// An error raised while reading an S-100 catalogue document.
///
/// `Io` and `XmlSyntax` are reserved for the byte-level reader that sits in
/// front of the library; the parsers themselves only ever produce the six
/// structural variants.
#[derive(Clone, Debug)]
pub enum S100Error {
    /// The underlying file or stream could not be read.
    Io { message: String },
    /// The document is not well-formed XML.
    XmlSyntax { message: String },
    /// A parser was handed an element whose tag is not the one it expects.
    UnexpectedNodeName { expected: String, actual: String },
    /// A strict parser met a child tag it does not recognize.
    InvalidChild { parent: String, child: String },
    /// A closed code-list field received a string outside its table.
    InvalidEnum { field: String, value: String },
    /// A numeric field received text that does not denote a value.
    InvalidValue { node: String, content: String },
    /// A required attribute is absent from an element.
    MissingAttribute { node: String, attribute: String },
    /// A required child element is absent.
    MissingChild { node: String, child: String },
}

/// The mathematical value of an [`S100Error`].
pub ghost enum ErrorView {
    Io { message: Seq<char> },
    XmlSyntax { message: Seq<char> },
    UnexpectedNodeName { expected: Seq<char>, actual: Seq<char> },
    InvalidChild { parent: Seq<char>, child: Seq<char> },
    InvalidEnum { field: Seq<char>, value: Seq<char> },
    InvalidValue { node: Seq<char>, content: Seq<char> },
    MissingAttribute { node: Seq<char>, attribute: Seq<char> },
    MissingChild { node: Seq<char>, child: Seq<char> },
}

impl View for S100Error {
    type V = ErrorView;

    open spec fn view(&self) -> ErrorView {
        match self {
            S100Error::Io { message } => ErrorView::Io { message: message@ },
            S100Error::XmlSyntax { message } => ErrorView::XmlSyntax { message: message@ },
            S100Error::UnexpectedNodeName { expected, actual } => ErrorView::UnexpectedNodeName {
                expected: expected@,
                actual: actual@,
            },
            S100Error::InvalidChild { parent, child } => ErrorView::InvalidChild {
                parent: parent@,
                child: child@,
            },
            S100Error::InvalidEnum { field, value } => ErrorView::InvalidEnum {
                field: field@,
                value: value@,
            },
            S100Error::InvalidValue { node, content } => ErrorView::InvalidValue {
                node: node@,
                content: content@,
            },
            S100Error::MissingAttribute { node, attribute } => ErrorView::MissingAttribute {
                node: node@,
                attribute: attribute@,
            },
            S100Error::MissingChild { node, child } => ErrorView::MissingChild {
                node: node@,
                child: child@,
            },
        }
    }
}

impl S100Error {
    /// A parser expected an element tagged `expected` and found `actual`.
    pub fn unexpected_node_name(expected: &str, actual: &String) -> (e: S100Error)
        ensures
            e@ == (ErrorView::UnexpectedNodeName { expected: expected@, actual: actual@ }),
    {
        S100Error::UnexpectedNodeName { expected: expected.to_owned(), actual: actual.clone() }
    }

    /// A strict parser of the element tagged `parent` met the child tag `child`.
    pub fn invalid_child(parent: &String, child: &String) -> (e: S100Error)
        ensures
            e@ == (ErrorView::InvalidChild { parent: parent@, child: child@ }),
    {
        S100Error::InvalidChild { parent: parent.clone(), child: child.clone() }
    }

    /// The code-list field `field` received the string `value`.
    pub fn invalid_enum(field: &str, value: &String) -> (e: S100Error)
        ensures
            e@ == (ErrorView::InvalidEnum { field: field@, value: value@ }),
    {
        S100Error::InvalidEnum { field: field.to_owned(), value: value.clone() }
    }

    /// The element tagged `node` holds text `content` that is not a value.
    pub fn invalid_value(node: &String, content: &String) -> (e: S100Error)
        ensures
            e@ == (ErrorView::InvalidValue { node: node@, content: content@ }),
    {
        S100Error::InvalidValue { node: node.clone(), content: content.clone() }
    }

    /// The element tagged `node` lacks the required attribute `attribute`.
    pub fn missing_attribute(node: &String, attribute: &str) -> (e: S100Error)
        ensures
            e@ == (ErrorView::MissingAttribute { node: node@, attribute: attribute@ }),
    {
        S100Error::MissingAttribute { node: node.clone(), attribute: attribute.to_owned() }
    }

    /// The element tagged `node` lacks the required child tag `child`.
    pub fn missing_child(node: &String, child: &str) -> (e: S100Error)
        ensures
            e@ == (ErrorView::MissingChild { node: node@, child: child@ }),
    {
        S100Error::MissingChild { node: node.clone(), child: child.to_owned() }
    }
}

/// Relates an executable parse result to its specification-level value.
pub open spec fn reflects<T: View>(r: Result<T, S100Error>, s: Result<T::V, ErrorView>) -> bool {
    match r {
        Ok(v) => s == Ok::<T::V, ErrorView>(v@),
        Err(e) => s == Err::<T::V, ErrorView>(e@),
    }
}

} // verus!
