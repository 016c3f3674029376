//! The seal of the tag roles.

use vstd::prelude::*;

verus! {

pub trait HtmlTagType {

}

impl HtmlTagType for super::OpeningTag {

}

impl HtmlTagType for super::ClosingTag {

}

} // verus!
