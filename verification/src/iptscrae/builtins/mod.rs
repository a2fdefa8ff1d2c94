//! The built-in functions of Iptscrae, by category.
//!
//! Each category runs the functions it knows and answers
//! `UndefinedFunction` for any other name, leaving the machine as it was.
//! What a function does is stated as the stack it leaves and the error it
//! stops with, if any.
use vstd::prelude::*;
use crate::iptscrae::value::ValueModel;
use crate::iptscrae::vm::{VmError, VmErrorKind};

pub mod array;
pub mod logic;
pub mod math;
pub mod palace;
pub mod stack;
pub mod string;

pub use array::execute_array_builtin;
pub use logic::execute_logic_builtin;
pub use math::execute_math_builtin;
pub use palace::execute_palace_builtin;
pub use stack::execute_stack_builtin;
pub use string::execute_string_builtin;

verus! {

/// What a built-in function leaves: the stack, and the error it stopped
/// with, if any.
pub struct Outcome {
    pub stack: Seq<ValueModel>,
    pub err: Option<VmErrorKind>,
}

/// A successful run that leaves the given stack.
pub open spec fn done(stack: Seq<ValueModel>) -> Outcome {
    Outcome { stack, err: None }
}

/// A run that stops with the given error, leaving the given stack.
pub open spec fn fail(stack: Seq<ValueModel>, k: VmErrorKind) -> Outcome {
    Outcome { stack, err: Some(k) }
}

/// A run that pops more values than the stack holds: it empties the stack
/// and stops with a stack underflow.
pub open spec fn short() -> Outcome {
    fail(Seq::empty(), VmErrorKind::StackUnderflow)
}

/// Whether a call's result and the stack it left are the outcome
/// `spec` describes for the function `name`; no outcome means that the
/// function is unknown here.
pub open spec fn follows(spec: Option<Outcome>, name: Seq<char>, r: Result<(), VmError>, before: Seq<ValueModel>, after: Seq<ValueModel>) -> bool {
    match spec {
        None => (r matches Err(VmError::UndefinedFunction { name: n }) && n@ == name) && after == before,
        Some(o) => after == o.stack && match o.err {
            None => r is Ok,
            Some(k) => r matches Err(e) && e.kind() == k,
        },
    }
}

/// A count as an `i32`, wrapping around as `as` does.
pub fn usize_to_i32(n: usize) -> (r: i32)
    ensures
        r == (n as int) as i32,
{
    n as i32
}

/// The integer value.
pub open spec fn int_v(n: i32) -> ValueModel {
    ValueModel::Integer(n)
}

/// 1 for true, 0 for false.
pub open spec fn flag_v(b: bool) -> ValueModel {
    if b { ValueModel::Integer(1) } else { ValueModel::Integer(0) }
}

} // verus!
