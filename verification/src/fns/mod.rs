use vstd::prelude::*;
use crate::eval::sequence_type::SequenceType;
use crate::qname::QName;

pub mod datetime;
pub mod duration;
pub mod url;
pub mod decimal;
pub mod sequences;
pub mod boolean;
pub mod context;
pub mod aggregates;
pub mod array;
pub mod comparison;
pub mod register;

verus! {

/// A parameter of a declared function: its name and, if declared, its type.
pub struct Param {
    pub name: QName,
    pub sequence_type: Option<SequenceType>,
}

/// How many arguments a function takes.
#[derive(PartialEq, Eq, Structural, Clone, Copy, Debug)]
pub enum Occurrence {
    Arity(usize),
    ZeroOrOne,
    ZeroOrMore,
    OneOrMore,
}

} // verus!
