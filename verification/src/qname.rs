use vstd::prelude::*;
use crate::xqts::model::{clone_opt, opt_view};

verus! {

/// A qualified name as written: an optional prefix, an optional namespace
/// URI, and a local part.
#[derive(Debug)]
pub struct QName {
    pub prefix: Option<String>,
    pub url: Option<String>,
    pub local_part: String,
}

pub struct QNameView {
    pub prefix: Option<Seq<char>>,
    pub url: Option<Seq<char>>,
    pub local_part: Seq<char>,
}

impl View for QName {
    type V = QNameView;

    open spec fn view(&self) -> QNameView {
        QNameView { prefix: opt_view(self.prefix), url: opt_view(self.url), local_part: self.local_part@ }
    }
}

impl QName {
    pub fn duplicate(&self) -> (r: QName)
        ensures
            r@ == self@,
    {
        QName {
            prefix: clone_opt(&self.prefix),
            url: clone_opt(&self.url),
            local_part: self.local_part.clone(),
        }
    }

    /// Whether two names are written alike: same prefix, URI and local part.
    pub fn same(&self, other: &QName) -> (r: bool)
        ensures
            r == (self@ == other@),
    {
        opt_str_eq(&self.prefix, &other.prefix) && opt_str_eq(&self.url, &other.url)
            && crate::xqts::text::str_eq(self.local_part.as_str(), other.local_part.as_str())
    }
}

/// Whether two optional strings are both absent or equal.
pub fn opt_str_eq(a: &Option<String>, b: &Option<String>) -> (r: bool)
    ensures
        r == (opt_view(*a) == opt_view(*b)),
{
    match (a, b) {
        (None, None) => true,
        (Some(x), Some(y)) => crate::xqts::text::str_eq(x.as_str(), y.as_str()),
        _ => false,
    }
}

/// A qualified name with its namespace resolved: a namespace URI (empty
/// for none) and a local part.
#[derive(Debug)]
pub struct QNameResolved {
    pub url: String,
    pub local_part: String,
}

impl View for QNameResolved {
    type V = (Seq<char>, Seq<char>);

    open spec fn view(&self) -> (Seq<char>, Seq<char>) {
        (self.url@, self.local_part@)
    }
}

impl QNameResolved {
    pub fn duplicate(&self) -> (r: QNameResolved)
        ensures
            r@ == self@,
    {
        QNameResolved { url: self.url.clone(), local_part: self.local_part.clone() }
    }

    /// Whether two resolved names are the same name.
    pub fn same(&self, other: &QNameResolved) -> (r: bool)
        ensures
            r == (self@ == other@),
    {
        crate::xqts::text::str_eq(self.url.as_str(), other.url.as_str())
            && crate::xqts::text::str_eq(self.local_part.as_str(), other.local_part.as_str())
    }
}

} // verus!
