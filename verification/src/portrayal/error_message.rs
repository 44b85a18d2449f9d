//! The message a validation rule reports: a list of language-tagged texts.

use crate::error::{reflects, ErrorView, S100Error};
use crate::xml::{attr_of, err_from, first_err, list_from, seq_deep_view, tagged_list, Element};
use vstd::prelude::*;

verus! {

broadcast use {
    crate::xml::lemma_acc_step,
    crate::xml::lemma_acc_done,
    crate::xml::lemma_seq_deep_view_push,
};

/// One language-tagged text of an error message. The language is the `text`
/// child's `language` attribute, absent when the text is untagged.
#[derive(Clone, Debug)]
pub struct Text {
    text: String,
    language: Option<String>,
}

/// The mathematical value of a [`Text`].
pub ghost struct TextView {
    pub text: Seq<char>,
    pub language: Option<Seq<char>>,
}

impl View for Text {
    type V = TextView;

    closed spec fn view(&self) -> TextView {
        TextView { text: self.text@, language: self.language.deep_view() }
    }
}

impl DeepView for Text {
    type V = TextView;

    open spec fn deep_view(&self) -> TextView {
        self.view()
    }
}

impl Text {
    /// The text itself.
    pub fn text(&self) -> (r: &str)
        ensures
            r@ == self@.text,
    {
        self.text.as_str()
    }

    /// The language the text is written in, if tagged.
    pub fn language(&self) -> (r: Option<&str>)
        ensures
            match r {
                Some(v) => self@.language == Some(v@),
                None => self@.language is None,
            },
    {
        match self.language.as_ref() {
            Some(val) => Some(val.as_str()),
            None => None,
        }
    }
}

/// An `errorMessage` child of a validation rule.
#[derive(Clone, Debug)]
pub struct ErrorMessage {
    texts: Vec<Text>,
}

/// The mathematical value of an [`ErrorMessage`].
pub ghost struct ErrorMessageView {
    pub texts: Seq<TextView>,
}

impl View for ErrorMessage {
    type V = ErrorMessageView;

    closed spec fn view(&self) -> ErrorMessageView {
        ErrorMessageView { texts: seq_deep_view(self.texts@) }
    }
}

impl DeepView for ErrorMessage {
    type V = ErrorMessageView;

    open spec fn deep_view(&self) -> ErrorMessageView {
        self.view()
    }
}

/// The text one `text` child contributes: its content and its `language`
/// attribute.
pub open spec fn text_val_fn() -> spec_fn(Element) -> TextView {
    |c: Element| TextView { text: c.text@, language: attr_of(c.attributes@, "language"@) }
}

/// Classifies one child of an `errorMessage` element. The parser is strict.
pub open spec fn error_message_child_err(c: Element) -> Option<ErrorView> {
    if c.tag@ == "text"@ {
        None
    } else {
        Some(ErrorView::InvalidChild { parent: "errorMessage"@, child: c.tag@ })
    }
}

/// The child classification of `errorMessage`, as one reusable value.
pub open spec fn error_message_child_fn() -> spec_fn(Element) -> Option<ErrorView> {
    |c: Element| error_message_child_err(c)
}

/// What parsing an `errorMessage` element yields: its `text` children in
/// document order, each with its optional language attribute; an empty list
/// is allowed.
pub open spec fn spec_parse_error_message(e: Element) -> Result<ErrorMessageView, ErrorView> {
    let cs = e.children@;
    if e.tag@ != "errorMessage"@ {
        Err(ErrorView::UnexpectedNodeName { expected: "errorMessage"@, actual: e.tag@ })
    } else if first_err(cs, error_message_child_fn()) is Some {
        Err(first_err(cs, error_message_child_fn())->Some_0)
    } else {
        Ok(ErrorMessageView { texts: tagged_list(cs, "text"@, text_val_fn()) })
    }
}

impl ErrorMessage {
    /// Parses one `errorMessage` element in a single pass over its children.
    #[verifier::loop_isolation(false)]
    pub fn parse(node: &Element) -> (r: Result<ErrorMessage, S100Error>)
        ensures
            reflects::<ErrorMessage>(r, spec_parse_error_message(*node)),
    {
        if !crate::str_eq(node.tag.as_str(), "errorMessage") {
            return Err(S100Error::unexpected_node_name("errorMessage", &node.tag));
        }
        let ghost cs = node.children@;
        let mut texts: Vec<Text> = Vec::new();
        let mut i: usize = 0;
        while i < node.children.len()
            invariant
                0 <= i <= cs.len(),
                first_err(cs, error_message_child_fn()) == err_from(
                    cs,
                    error_message_child_fn(),
                    i as int,
                ),
                tagged_list(cs, "text"@, text_val_fn()) == seq_deep_view(texts@) + list_from(
                    cs,
                    "text"@,
                    text_val_fn(),
                    i as int,
                ),
            decreases cs.len() - i,
        {
            let c = &node.children[i];
            if crate::str_eq(c.tag.as_str(), "text") {
                let text = c.text.clone();
                let language = match c.attribute("language") {
                    Some(v) => Some(v.clone()),
                    None => None,
                };
                texts.push(Text { text, language });
            } else {
                return Err(S100Error::invalid_child(&node.tag, &c.tag));
            }
            i = i + 1;
        }
        Ok(ErrorMessage { texts })
    }

    /// The texts of the message, in document order.
    pub fn texts(&self) -> (r: &[Text])
        ensures
            seq_deep_view(r@) == self@.texts,
    {
        self.texts.as_slice()
    }
}


/// An unrecognized child tag under this strict parser is rejected, naming
/// both the parent tag and the offending child tag: the first child outside
/// the table decides the outcome.
pub proof fn lemma_error_message_rejects_unknown_child(e: Element, j: int)
    requires
        e.tag@ == "errorMessage"@,
        0 <= j < e.children@.len(),
        !(e.children@[j].tag@ == "text"@),
        forall|k: int| 0 <= k < j ==> error_message_child_err(#[trigger] e.children@[k]) is None,
    ensures
        spec_parse_error_message(e) == Err::<ErrorMessageView, ErrorView>(
            ErrorView::InvalidChild { parent: "errorMessage"@, child: e.children@[j].tag@ },
        ),
{
    crate::xml::lemma_err_from_at(e.children@, error_message_child_fn(), 0, j);
}

} // verus!
