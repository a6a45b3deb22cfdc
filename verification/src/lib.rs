pub mod xqts;
pub mod qname;
pub mod namespaces;
pub mod errors;
pub mod value;
pub mod eval;
pub mod fns;
