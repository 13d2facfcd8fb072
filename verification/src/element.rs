//! The handle a server assigns to a located DOM element.

use vstd::prelude::*;

verus! {

/// An opaque, server-assigned identifier for a DOM element located by a
/// session.  A handle is an immutable value object: it carries no
/// transport of its own, and every element-scoped operation goes back
/// through the session that produced it.  Its view is the identifier's
/// characters.
#[derive(Debug, PartialEq, Eq)]
pub struct Element {
    element_id: String,
}

impl View for Element {
    type V = Seq<char>;

    closed spec fn view(&self) -> Seq<char> {
        self.element_id@
    }
}

impl Element {
    /// Wraps a server-assigned element identifier.
    pub(crate) fn from_id(id: String) -> (r: Element)
        ensures
            r@ == id@,
    {
        Element { element_id: id }
    }

    /// The server-assigned identifier of this element.
    pub fn id(&self) -> (r: &str)
        ensures
            r@ == self@,
    {
        self.element_id.as_str()
    }
}

} // verus!
