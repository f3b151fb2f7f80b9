//! Attributes of a field, and the documentation comments among them.

use vstd::prelude::*;
use crate::derive::DeriveError;
use crate::text::same_text;

verus! {

/// An attribute on a field, as far as deriving reads it.
#[derive(Debug, Clone)]
pub struct Attribute {
    /// The attribute's path, such as `doc`. A path of several segments is
    /// written with `::` between them.
    pub path: String,
    /// The text that the attribute is set to, where it has the form
    /// `path = "text"`.
    pub value: Option<String>,
}

impl Attribute {
    /// Whether this is a documentation attribute.
    pub open spec fn is_doc(self) -> bool {
        self.path@ == "doc"@
    }
}

/// A documentation comment: one line of a field's documentation.
#[derive(Debug, Clone)]
pub struct DocComment(pub String);

/// The lines that documentation comments hold.
pub open spec fn lines(comments: Seq<DocComment>) -> Seq<Seq<char>> {
    comments.map_values(|comment: DocComment| comment.0@)
}

/// The lines of documentation among `attributes`, in their order, or `None`
/// where one of the documentation attributes is not set to a text.
pub open spec fn doc_lines(attributes: Seq<Attribute>) -> Option<Seq<Seq<char>>>
    decreases attributes.len(),
{
    if attributes.len() == 0 {
        Some(Seq::empty())
    } else {
        let last = attributes.last();
        match doc_lines(attributes.drop_last()) {
            None => None,
            Some(before) => if !last.is_doc() {
                Some(before)
            } else {
                match last.value {
                    Some(text) => Some(before.push(text@)),
                    None => None,
                }
            },
        }
    }
}

impl DocComment {
    /// Extracts the documentation comments from a list of attributes, such
    /// as those of a field. Attributes with another path are passed over; a
    /// documentation attribute that is not set to a text is an error.
    pub fn from_attributes(attributes: &[Attribute]) -> (result: Result<Vec<Self>, DeriveError>)
        ensures
            match result {
                Ok(comments) => doc_lines(attributes@) == Some(lines(comments@)),
                Err(error) => doc_lines(attributes@) is None && error == DeriveError::DocComment,
            },
    {
        let mut comments: Vec<DocComment> = Vec::new();
        for n in 0..attributes.len()
            invariant
                doc_lines(attributes@.take(n as int)) == Some(lines(comments@)),
        {
            let ghost before = lines(comments@);
            assert(attributes@.take(n + 1).drop_last() =~= attributes@.take(n as int));
            let attribute = &attributes[n];
            if same_text(attribute.path.as_str(), "doc") {
                match &attribute.value {
                    Some(text) => {
                        comments.push(DocComment(text.clone()));
                        assert(lines(comments@) =~= before.push(text@));
                    },
                    None => {
                        proof {
                            lemma_doc_lines_fail(attributes@, n + 1);
                        }
                        return Err(DeriveError::DocComment);
                    },
                }
            }
        }
        assert(attributes@.take(attributes@.len() as int) =~= attributes@);
        Ok(comments)
    }
}

/// Once a documentation attribute without a text has been met, the attributes
/// that follow it do not mend it.
pub proof fn lemma_doc_lines_fail(attributes: Seq<Attribute>, n: int)
    requires
        0 <= n <= attributes.len(),
        doc_lines(attributes.take(n)) is None,
    ensures
        doc_lines(attributes) is None,
    decreases attributes.len() - n,
{
    if n == attributes.len() {
        assert(attributes.take(n) =~= attributes);
    } else {
        assert(attributes.take(n + 1).drop_last() =~= attributes.take(n));
        lemma_doc_lines_fail(attributes, n + 1);
    }
}

} // verus!
