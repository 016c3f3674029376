//! The two roles of a tag wrapper, as types without values of interest.

mod inner;

use vstd::prelude::*;

verus! {

/// The role of a wrapper that renders `<` before its content.
pub struct OpeningTag;

/// The role of a wrapper that renders `</` before its content.
pub struct ClosingTag;

/// The roles a tag wrapper can have. The set is closed: the trait that this
/// one rests on cannot be named outside this module.
pub trait HtmlTagType: inner::HtmlTagType {

}

impl<Tag> HtmlTagType for Tag where Tag: inner::HtmlTagType {

}

} // verus!
