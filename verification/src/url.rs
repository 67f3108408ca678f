//! URLs read off a pasteboard.

use vstd::prelude::*;

verus! {

/// A URL as it stood on a pasteboard when it was read. It is a copy: what
/// happens to the pasteboard afterwards does not reach it.
#[derive(Debug, PartialEq, Eq)]
pub struct Url {
    text: String,
}

impl Clone for Url {
    fn clone(&self) -> (url: Url)
        ensures
            url@ == self@,
    {
        Url { text: self.text.clone() }
    }
}

impl View for Url {
    type V = Seq<char>;

    /// The text of the URL.
    closed spec fn view(&self) -> Seq<char> {
        self.text@
    }
}

impl Url {
    /// The URL with the given text.
    pub fn new(text: String) -> (url: Url)
        ensures
            url@ == text@,
    {
        Url { text }
    }

    /// The text of the URL.
    pub fn as_str(&self) -> (text: &str)
        ensures
            text@ == self@,
    {
        self.text.as_str()
    }
}

/// The texts of a sequence of URLs, in order.
pub open spec fn url_texts(urls: Seq<Url>) -> Seq<Seq<char>> {
    Seq::new(urls.len(), |i: int| urls[i]@)
}

} // verus!
