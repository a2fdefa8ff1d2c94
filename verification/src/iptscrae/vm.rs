//! The Iptscrae virtual machine: a stack-based interpreter of the syntax
//! tree.
//!
//! It keeps a value stack, named variables and an output buffer, and runs
//! the handlers of a script for an event. Integer arithmetic wraps around
//! on overflow, as Rust's release builds do.
use vstd::prelude::*;
use std::time::{Duration, Instant};
use crate::iptscrae::ast::{BinOp, Block, Expr, Script, Statement, UnaryOp};
use crate::iptscrae::context::{allowed, ScriptActions, ScriptContext, ValueMap};
use crate::iptscrae::events::EventType;
use crate::iptscrae::value::{
    display, int_of, lemma_models, lemma_models_drop_last, lemma_models_push, models, truthy, Value,
    ValueModel,
};
use crate::text::{copy_string, push_str, string_from};

verus! {

broadcast use vstd::seq_lib::group_seq_properties;

// ---------------------------------------------------------------------------
// Errors
// ---------------------------------------------------------------------------

/// VM error types.
#[derive(Debug, Clone, PartialEq, Eq)]
pub enum VmError {
    /// Stack underflow: tried to pop from an empty stack.
    StackUnderflow { operation: String },
    /// Variable not found.
    UndefinedVariable { name: String },
    /// Unknown function call.
    UndefinedFunction { name: String },
    /// Type error (an index out of bounds, a value of the wrong type, ...).
    TypeError { message: String },
    /// Division by zero.
    DivisionByZero,
    /// Break statement outside of loop.
    BreakOutsideLoop,
    /// Execution timeout (sandboxed scripts).
    Timeout,
    /// Instruction limit exceeded (sandboxed scripts).
    InstructionLimitExceeded,
    /// A function not allowed at the current security level.
    SecurityViolation { function: String },
}

/// The kind of a VM error, without what it carries.
#[derive(Debug, Clone, Copy, PartialEq, Eq)]
pub enum VmErrorKind {
    StackUnderflow,
    UndefinedVariable,
    UndefinedFunction,
    TypeError,
    DivisionByZero,
    BreakOutsideLoop,
    Timeout,
    InstructionLimitExceeded,
    SecurityViolation,
}

impl VmError {
    /// The kind of this error.
    pub open spec fn kind(&self) -> VmErrorKind {
        match self {
            VmError::StackUnderflow { .. } => VmErrorKind::StackUnderflow,
            VmError::UndefinedVariable { .. } => VmErrorKind::UndefinedVariable,
            VmError::UndefinedFunction { .. } => VmErrorKind::UndefinedFunction,
            VmError::TypeError { .. } => VmErrorKind::TypeError,
            VmError::DivisionByZero => VmErrorKind::DivisionByZero,
            VmError::BreakOutsideLoop => VmErrorKind::BreakOutsideLoop,
            VmError::Timeout => VmErrorKind::Timeout,
            VmError::InstructionLimitExceeded => VmErrorKind::InstructionLimitExceeded,
            VmError::SecurityViolation { .. } => VmErrorKind::SecurityViolation,
        }
    }

    /// An underflow error in the named operation.
    pub fn underflow(operation: &str) -> (e: VmError)
        ensures
            e.kind() == VmErrorKind::StackUnderflow,
    {
        VmError::StackUnderflow { operation: string_from(operation) }
    }

    /// A type error with the given message.
    pub fn type_error(message: &str) -> (e: VmError)
        ensures
            e.kind() == VmErrorKind::TypeError,
    {
        VmError::TypeError { message: string_from(message) }
    }

    /// The error for a call of an unknown function.
    pub fn undefined_function(name: &str) -> (e: VmError)
        ensures
            e matches VmError::UndefinedFunction { name: n } && n@ == name@,
    {
        VmError::UndefinedFunction { name: string_from(name) }
    }
}

// ---------------------------------------------------------------------------
// Time
// ---------------------------------------------------------------------------

/// `std::time::Instant`, held opaque.
#[verifier::external_type_specification]
#[verifier::external_body]
pub struct ExInstant(Instant);

/// `Instant::now`: the current time. Nothing is stated of it.
#[verifier::external_body]
fn now() -> Instant {
    Instant::now()
}

/// `Instant::elapsed`: the time since `start`. Nothing is stated of it: it
/// depends on the clock.
#[verifier::external_body]
fn elapsed_since(start: &Instant) -> Duration {
    start.elapsed()
}

/// `Duration >= Duration`. Durations are held opaque here, so nothing is
/// stated of the result.
#[verifier::external_body]
fn duration_at_least(a: &Duration, b: &Duration) -> bool {
    *a >= *b
}

/// `Duration::from_secs`. Durations are held opaque here, so nothing is
/// stated of the result.
#[verifier::external_body]
fn duration_from_secs(secs: u64) -> Duration {
    Duration::from_secs(secs)
}

// ---------------------------------------------------------------------------
// Limits
// ---------------------------------------------------------------------------

/// Execution limits for sandboxing.
#[derive(Debug, Clone)]
pub struct ExecutionLimits {
    max_instructions: Option<usize>,
    max_duration: Option<Duration>,
}

impl ExecutionLimits {
    /// The instruction limit, if any.
    pub closed spec fn instruction_limit(&self) -> Option<usize> {
        self.max_instructions
    }

    /// Whether there is a time limit.
    pub closed spec fn has_time_limit(&self) -> bool {
        self.max_duration is Some
    }

    /// Limits for server scripts: none.
    pub fn server() -> (l: ExecutionLimits)
        ensures
            l.instruction_limit() is None,
            !l.has_time_limit(),
    {
        ExecutionLimits { max_instructions: None, max_duration: None }
    }

    /// Limits for cyborg scripts: 100,000 instructions and 5 seconds.
    pub fn cyborg() -> (l: ExecutionLimits)
        ensures
            l.instruction_limit() == Some(100_000usize),
            l.has_time_limit(),
    {
        ExecutionLimits { max_instructions: Some(100_000), max_duration: Some(duration_from_secs(5)) }
    }

    /// No limits, to be set with the builder methods.
    pub fn custom() -> (l: ExecutionLimits)
        ensures
            l.instruction_limit() is None,
            !l.has_time_limit(),
    {
        ExecutionLimits { max_instructions: None, max_duration: None }
    }

    /// These limits with at most `max` instructions.
    pub fn with_max_instructions(self, max: usize) -> (l: ExecutionLimits)
        ensures
            l.instruction_limit() == Some(max),
            l.has_time_limit() == self.has_time_limit(),
    {
        ExecutionLimits { max_instructions: Some(max), max_duration: self.max_duration }
    }

    /// These limits with at most `duration` of execution time.
    pub fn with_max_duration(self, duration: Duration) -> (l: ExecutionLimits)
        ensures
            l.instruction_limit() == self.instruction_limit(),
            l.has_time_limit(),
    {
        ExecutionLimits { max_instructions: self.max_instructions, max_duration: Some(duration) }
    }
}

impl Default for ExecutionLimits {
    fn default() -> (l: ExecutionLimits)
        ensures
            l.instruction_limit() is None,
            !l.has_time_limit(),
    {
        ExecutionLimits::custom()
    }
}

// ---------------------------------------------------------------------------
// Arithmetic
// ---------------------------------------------------------------------------

/// Division truncated toward zero, as Rust divides integers.
pub open spec fn tdiv(a: int, b: int) -> int {
    let q = (if a < 0 { -a } else { a }) / (if b < 0 { -b } else { b });
    if (a < 0) != (b < 0) {
        -q
    } else {
        q
    }
}

/// The remainder of division truncated toward zero: it has the sign of `a`.
pub open spec fn trem(a: int, b: int) -> int {
    a - b * tdiv(a, b)
}

/// An integer taken into the range of `i32` by wrapping around.
pub open spec fn wrap_i32(x: int) -> i32 {
    x as i32
}

/// The value of a binary operation on two values, or why it fails.
pub open spec fn binop_result(op: BinOp, l: ValueModel, r: ValueModel) -> Result<ValueModel, VmErrorKind> {
    let a = int_of(l) as int;
    let b = int_of(r) as int;
    let flag = |c: bool| if c { ValueModel::Integer(1) } else { ValueModel::Integer(0) };
    match op {
        BinOp::Add => Ok(ValueModel::Integer(int_of(l).wrapping_add(int_of(r)))),
        BinOp::Sub => Ok(ValueModel::Integer(int_of(l).wrapping_sub(int_of(r)))),
        BinOp::Mul => Ok(ValueModel::Integer(int_of(l).wrapping_mul(int_of(r)))),
        BinOp::Div => if b == 0 { Err(VmErrorKind::DivisionByZero) } else { Ok(ValueModel::Integer(wrap_i32(tdiv(a, b)))) },
        BinOp::Mod => if b == 0 { Err(VmErrorKind::DivisionByZero) } else { Ok(ValueModel::Integer(wrap_i32(trem(a, b)))) },
        BinOp::Concat => Ok(ValueModel::Str(display(l) + display(r))),
        BinOp::Eq => Ok(flag(a == b)),
        BinOp::NotEq => Ok(flag(a != b)),
        BinOp::Less => Ok(flag(a < b)),
        BinOp::Greater => Ok(flag(a > b)),
        BinOp::LessEq => Ok(flag(a <= b)),
        BinOp::GreaterEq => Ok(flag(a >= b)),
        BinOp::And => Ok(flag(truthy(l) && truthy(r))),
        BinOp::Or => Ok(flag(truthy(l) || truthy(r))),
        BinOp::Xor => Ok(flag(truthy(l) != truthy(r))),
    }
}

/// Whether a result is the integer 1 (true).
pub open spec fn yields_true(r: Result<ValueModel, VmErrorKind>) -> bool {
    r == Ok::<ValueModel, VmErrorKind>(ValueModel::Integer(1))
}

/// Whether a result is the integer 0 (false).
pub open spec fn yields_false(r: Result<ValueModel, VmErrorKind>) -> bool {
    r == Ok::<ValueModel, VmErrorKind>(ValueModel::Integer(0))
}

/// The comparison operators follow the order of the operands' integers:
/// each gives 1 or 0; `<` gives 1 exactly when the left integer is the
/// smaller and `=` exactly when they are equal; `<=` is `<` or `=`, `>`
/// and `>=` are `<` and `<=` with the operands swapped, and `!=` is the
/// negation of `=`. In particular a value is `<=` and `>=` itself, and not
/// `<` or `>` itself.
pub proof fn lemma_comparisons(l: ValueModel, r: ValueModel)
    ensures
        ({
            let a = int_of(l) as int;
            let b = int_of(r) as int;
            &&& yields_true(binop_result(BinOp::Less, l, r)) <==> a < b
            &&& yields_false(binop_result(BinOp::Less, l, r)) <==> !(a < b)
            &&& yields_true(binop_result(BinOp::Eq, l, r)) <==> a == b
            &&& yields_false(binop_result(BinOp::Eq, l, r)) <==> a != b
            &&& yields_true(binop_result(BinOp::LessEq, l, r)) <==> (yields_true(binop_result(BinOp::Less, l, r))
                || yields_true(binop_result(BinOp::Eq, l, r)))
            &&& yields_false(binop_result(BinOp::LessEq, l, r)) <==> !yields_true(binop_result(BinOp::LessEq, l, r))
            &&& binop_result(BinOp::Greater, l, r) == binop_result(BinOp::Less, r, l)
            &&& binop_result(BinOp::GreaterEq, l, r) == binop_result(BinOp::LessEq, r, l)
            &&& yields_true(binop_result(BinOp::NotEq, l, r)) <==> yields_false(binop_result(BinOp::Eq, l, r))
            &&& yields_false(binop_result(BinOp::NotEq, l, r)) <==> yields_true(binop_result(BinOp::Eq, l, r))
        }),
        yields_true(binop_result(BinOp::LessEq, l, l)),
        yields_true(binop_result(BinOp::GreaterEq, l, l)),
        yields_true(binop_result(BinOp::Eq, l, l)),
        yields_false(binop_result(BinOp::Less, l, l)),
        yields_false(binop_result(BinOp::Greater, l, l)),
        yields_false(binop_result(BinOp::NotEq, l, l)),
{
}

/// The logical operators give 1 or 0 by the operands' truth: `AND` when
/// both are true, `OR` when either is, `XOR` when exactly one is.
pub proof fn lemma_logic(l: ValueModel, r: ValueModel)
    ensures
        yields_true(binop_result(BinOp::And, l, r)) <==> (truthy(l) && truthy(r)),
        yields_false(binop_result(BinOp::And, l, r)) <==> !(truthy(l) && truthy(r)),
        yields_true(binop_result(BinOp::Or, l, r)) <==> (truthy(l) || truthy(r)),
        yields_false(binop_result(BinOp::Or, l, r)) <==> !(truthy(l) || truthy(r)),
        yields_true(binop_result(BinOp::Xor, l, r)) <==> (truthy(l) != truthy(r)),
        yields_false(binop_result(BinOp::Xor, l, r)) <==> (truthy(l) == truthy(r)),
{
}

/// Addition, subtraction and multiplication give the exact integer where
/// it fits in an `i32`, and never fail; `&` joins the operands' texts.
pub proof fn lemma_arithmetic(l: ValueModel, r: ValueModel)
    ensures
        ({
            let a = int_of(l) as int;
            let b = int_of(r) as int;
            &&& binop_result(BinOp::Add, l, r) matches Ok(ValueModel::Integer(n))
                && (i32::MIN <= a + b <= i32::MAX ==> n == a + b)
            &&& binop_result(BinOp::Sub, l, r) matches Ok(ValueModel::Integer(n))
                && (i32::MIN <= a - b <= i32::MAX ==> n == a - b)
            &&& binop_result(BinOp::Mul, l, r) matches Ok(ValueModel::Integer(n))
                && (i32::MIN <= a * b <= i32::MAX ==> n == a * b)
        }),
        binop_result(BinOp::Concat, l, r) == Ok::<ValueModel, VmErrorKind>(ValueModel::Str(display(l) + display(r))),
{
    let a = int_of(l);
    let b = int_of(r);
    assert(i32::MIN <= a + b <= i32::MAX ==> a.wrapping_add(b) == a + b);
    assert(i32::MIN <= a - b <= i32::MAX ==> a.wrapping_sub(b) == a - b);
    assert(i32::MIN <= a * b <= i32::MAX ==> a.wrapping_mul(b) == a * b);
}

/// Division and remainder truncate toward zero: by zero both fail with
/// `DivisionByZero`; otherwise, where the quotient fits, the quotient `q`
/// and remainder `m` satisfy `a == b * q + m`, the remainder is smaller
/// than the divisor in size and has the sign of `a` (or is 0).
pub proof fn lemma_division(l: ValueModel, r: ValueModel)
    ensures
        ({
            let a = int_of(l) as int;
            let b = int_of(r) as int;
            &&& b == 0 ==> binop_result(BinOp::Div, l, r) == Err::<ValueModel, VmErrorKind>(VmErrorKind::DivisionByZero)
            &&& b == 0 ==> binop_result(BinOp::Mod, l, r) == Err::<ValueModel, VmErrorKind>(VmErrorKind::DivisionByZero)
            &&& (b != 0 && !(a == i32::MIN && b == -1)) ==> (binop_result(BinOp::Div, l, r) matches Ok(ValueModel::Integer(q))
                && binop_result(BinOp::Mod, l, r) matches Ok(ValueModel::Integer(m))
                && a == b * q + m
                && (if m < 0 { -(m as int) } else { m as int }) < (if b < 0 { -b } else { b })
                && (m == 0 || ((m < 0) == (a < 0))))
        }),
{
    let a = int_of(l) as int;
    let b = int_of(r) as int;
    if b != 0 && !(a == i32::MIN && b == -1) {
        let aa = if a < 0 { -a } else { a };
        let bb = if b < 0 { -b } else { b };
        let q0 = aa / bb;
        let r0 = aa % bb;
        assert(aa == bb * q0 + r0 && 0 <= r0 < bb) by (nonlinear_arith)
            requires
                bb > 0,
                aa >= 0,
                q0 == aa / bb,
                r0 == aa % bb;
        assert(0 <= q0 <= aa) by (nonlinear_arith)
            requires
                bb >= 1,
                aa >= 0,
                q0 == aa / bb;
        let q = tdiv(a, b);
        let m = trem(a, b);
        assert(q == (if (a < 0) != (b < 0) { -q0 } else { q0 }));
        assert(m == (if a < 0 { -r0 } else { r0 })) by (nonlinear_arith)
            requires
                m == a - b * q,
                q == (if (a < 0) != (b < 0) { -q0 } else { q0 }),
                aa == bb * q0 + r0,
                aa == (if a < 0 { -a } else { a }),
                bb == (if b < 0 { -b } else { b });
        assert(bb >= 2 ==> q0 * 2 <= aa) by (nonlinear_arith)
            requires
                aa == bb * q0 + r0,
                0 <= r0,
                q0 >= 0;
        assert(bb == 1 ==> q0 == aa) by (nonlinear_arith)
            requires
                aa == bb * q0 + r0,
                0 <= r0 < bb;
        assert(i32::MIN <= q <= i32::MAX);
        assert(i32::MIN <= m <= i32::MAX);
        assert(wrap_i32(q) == q);
        assert(wrap_i32(m) == m);
    }
}

/// The value of a unary operation.
pub open spec fn unary_result(op: UnaryOp, v: ValueModel) -> ValueModel {
    match op {
        UnaryOp::Neg => ValueModel::Integer(0i32.wrapping_sub(int_of(v))),
        UnaryOp::Not => if truthy(v) { ValueModel::Integer(0) } else { ValueModel::Integer(1) },
    }
}

fn wrapping_i64_to_i32(x: i64) -> (r: i32)
    ensures
        r == wrap_i32(x as int),
{
    x as i32
}

fn int_flag(c: bool) -> (v: Value)
    ensures
        v.model() == (if c { ValueModel::Integer(1) } else { ValueModel::Integer(0) }),
{
    if c {
        Value::Integer(1)
    } else {
        Value::Integer(0)
    }
}

/// The quotient of `a / b` truncated toward zero, wrapping `i32::MIN / -1`.
pub fn div_wrapping(a: i32, b: i32) -> (q: i32)
    requires
        b != 0,
    ensures
        q == wrap_i32(tdiv(a as int, b as int)),
{
    let x = a as i64;
    let y = b as i64;
    let ax = if x < 0 { -x } else { x };
    let ay = if y < 0 { -y } else { y };
    let m = ax / ay;
    let q = if (x < 0) != (y < 0) { -m } else { m };
    wrapping_i64_to_i32(q)
}

/// The remainder of `a / b` with the sign of `a`, wrapping `i32::MIN % -1`.
pub fn rem_wrapping(a: i32, b: i32) -> (r: i32)
    requires
        b != 0,
    ensures
        r == wrap_i32(trem(a as int, b as int)),
{
    let x = a as i64;
    let y = b as i64;
    let ax = if x < 0 { -x } else { x };
    let ay = if y < 0 { -y } else { y };
    let m = ax / ay;
    let q = if (x < 0) != (y < 0) { -m } else { m };
    assert(0 <= m <= ax) by (nonlinear_arith)
        requires
            m == ax / ay,
            ay >= 1,
            ax >= 0,
    ;
    assert(ay * m <= ax) by (nonlinear_arith)
        requires
            m == ax / ay,
            ay >= 1,
            ax >= 0,
    ;
    assert(-0x1_0000_0000 <= y * q <= 0x1_0000_0000) by (nonlinear_arith)
        requires
            ay * m <= ax,
            ax <= 0x8000_0000,
            ay == (if y < 0 { -(y as int) } else { y as int }),
            q == m || q == -m,
            m >= 0,
    ;
    wrapping_i64_to_i32(x - y * q)
}

// ---------------------------------------------------------------------------
// The machine
// ---------------------------------------------------------------------------

/// Virtual machine for executing Iptscrae scripts.
pub struct Vm {
    stack: Vec<Value>,
    variables: ValueMap,
    limits: ExecutionLimits,
    instruction_count: usize,
    start_time: Option<Instant>,
    output: Vec<String>,
}

/// The texts of a sequence of strings.
pub open spec fn texts(v: Seq<String>) -> Seq<Seq<char>> {
    v.map_values(|s: String| s@)
}

impl Vm {
    /// The models of the values on the stack, bottom first.
    pub closed spec fn stack_model(&self) -> Seq<ValueModel> {
        models(self.stack@)
    }

    /// The model of the variable named `k`.
    pub open spec fn var(&self, k: Seq<char>) -> Option<ValueModel> {
        self.inner_frame().0.lookup(k)
    }

    /// The output buffer's texts.
    pub open spec fn output_model(&self) -> Seq<Seq<char>> {
        texts(self.raw_output())
    }

    /// The number of instructions run since the last start.
    pub open spec fn count(&self) -> int {
        self.inner_frame().2 as int
    }

    /// The execution limits.
    pub open spec fn limits(&self) -> ExecutionLimits {
        self.inner_frame().1
    }

    /// Whether the clock is running and a time limit is set, so that a step
    /// may stop with a timeout.
    pub open spec fn may_time_out(&self) -> bool {
        self.inner_frame().1.has_time_limit() && self.inner_frame().3 is Some
    }

    /// The output buffer's strings.
    pub closed spec fn raw_output(&self) -> Seq<String> {
        self.output@
    }

    /// Everything but the stack: variables, limits, count and clock, and
    /// the output.
    pub open spec fn frame(&self) -> ((ValueMap, ExecutionLimits, usize, Option<Instant>), Seq<String>) {
        (self.inner_frame(), self.raw_output())
    }

    /// Everything but the stack and the output.
    pub closed spec fn inner_frame(&self) -> (ValueMap, ExecutionLimits, usize, Option<Instant>) {
        (self.variables, self.limits, self.instruction_count, self.start_time)
    }

    /// Whether `other` holds the same variables, output, count, limits and
    /// clock as this machine; its stack may differ.
    pub open spec fn same_but_stack(&self, other: &Vm) -> bool {
        self.frame() == other.frame()
    }

    /// Whether `other` holds the same variables, count, limits and clock
    /// as this machine; its stack and output may differ.
    pub open spec fn same_but_stack_output(&self, other: &Vm) -> bool {
        self.inner_frame() == other.inner_frame()
    }

    /// One instruction counted and the limits checked: `b` is `a` with the
    /// count one higher (unless it is the largest `usize`), and `err` is
    /// the error, if any: the instruction limit when the count reaches it
    /// (or the largest `usize`), else possibly a timeout when the clock
    /// runs under a time limit.
    pub open spec fn ticked(a: Vm, b: Vm, err: Option<VmErrorKind>) -> bool {
        &&& b.stack_model() == a.stack_model()
        &&& b.raw_output() == a.raw_output()
        &&& b.inner_frame().0 == a.inner_frame().0
        &&& b.inner_frame().1 == a.inner_frame().1
        &&& b.inner_frame().3 == a.inner_frame().3
        &&& b.count() == (if a.count() < usize::MAX { a.count() + 1 } else { a.count() })
        &&& (err == Some(VmErrorKind::InstructionLimitExceeded)) == (a.count() == usize::MAX
            || (a.limits().instruction_limit() matches Some(m) && a.count() + 1 >= m))
        &&& (err matches Some(k) ==> k == VmErrorKind::InstructionLimitExceeded || (k == VmErrorKind::Timeout && a.may_time_out()))
    }

    /// `b` is `a` with the clock started anew: the count is 0, and a
    /// timeout is possible exactly when a time limit is set.
    pub open spec fn restarted(a: Vm, b: Vm) -> bool {
        &&& b.stack_model() == a.stack_model()
        &&& b.raw_output() == a.raw_output()
        &&& b.inner_frame().0 == a.inner_frame().0
        &&& b.inner_frame().1 == a.inner_frame().1
        &&& b.count() == 0
        &&& b.may_time_out() == a.limits().has_time_limit()
    }

    /// `b` is `a` with the variable `name` set to `v`.
    pub open spec fn assigned(a: Vm, b: Vm, name: Seq<char>, v: ValueModel) -> bool {
        &&& b.stack_model() == a.stack_model()
        &&& b.raw_output() == a.raw_output()
        &&& b.inner_frame().1 == a.inner_frame().1
        &&& b.inner_frame().2 == a.inner_frame().2
        &&& b.inner_frame().3 == a.inner_frame().3
        &&& b.var(name) == Some(v)
        &&& forall|k: Seq<char>| k != name ==> #[trigger] b.var(k) == a.var(k)
    }

    /// Equal frames give equal inner frames.
    pub proof fn lemma_frame_inner(&self, other: &Vm)
        requires
            self.same_but_stack(other),
        ensures
            self.same_but_stack_output(other),
            self.output_model() == other.output_model(),
            self.count() == other.count(),
            self.limits() == other.limits(),
            self.may_time_out() == other.may_time_out(),
            forall|k: Seq<char>| #[trigger] self.var(k) == other.var(k),
    {
        assert(self.output@ == other.output@);
    }

    /// A machine with no limits.
    pub fn new() -> (vm: Vm)
        ensures
            vm.stack_model() == Seq::<ValueModel>::empty(),
            forall|k: Seq<char>| #[trigger] vm.var(k) is None,
            vm.output_model() == Seq::<Seq<char>>::empty(),
            vm.count() == 0,
            vm.limits().instruction_limit() is None,
            !vm.limits().has_time_limit(),
            !vm.may_time_out(),
    {
        Self::with_limits(ExecutionLimits::custom())
    }

    /// A machine with the given limits.
    pub fn with_limits(limits: ExecutionLimits) -> (vm: Vm)
        ensures
            vm.stack_model() == Seq::<ValueModel>::empty(),
            forall|k: Seq<char>| #[trigger] vm.var(k) is None,
            vm.output_model() == Seq::<Seq<char>>::empty(),
            vm.count() == 0,
            vm.limits() == limits,
            !vm.may_time_out(),
    {
        let vm = Vm {
            stack: Vec::new(),
            variables: ValueMap::new(),
            limits,
            instruction_count: 0,
            start_time: None,
            output: Vec::new(),
        };
        assert(vm.output_model() =~= Seq::<Seq<char>>::empty());
        vm
    }

    /// Pushes a value.
    pub fn push(&mut self, value: Value)
        ensures
            final(self).stack_model() == old(self).stack_model().push(value.model()),
            final(self).same_but_stack(old(self)),
    {
        proof {
            lemma_models_push(self.stack@, value);
        }
        self.stack.push(value);
    }

    /// Pops the top value; on an empty stack fails with a stack underflow
    /// in the named operation.
    pub fn pop(&mut self, operation: &str) -> (r: Result<Value, VmError>)
        ensures
            final(self).same_but_stack(old(self)),
            old(self).stack_model().len() == 0 ==> (r matches Err(e) && e.kind() == VmErrorKind::StackUnderflow
                && final(self).stack_model() == old(self).stack_model()
                && final(self).stack_model() == Seq::<ValueModel>::empty()),
            old(self).stack_model().len() > 0 ==> (r matches Ok(v) && v.model() == old(self).stack_model().last()
                && final(self).stack_model() == old(self).stack_model().drop_last()),
    {
        proof {
            lemma_models(self.stack@);
        }
        if self.stack.len() == 0 {
            assert(self.stack_model() =~= Seq::<ValueModel>::empty());
            return Err(VmError::underflow(operation));
        }
        proof {
            lemma_models_drop_last(self.stack@);
        }
        let v = self.stack.pop().unwrap();
        Ok(v)
    }

    /// A copy of the top value; on an empty stack fails with a stack
    /// underflow in the named operation.
    pub fn peek(&self, operation: &str) -> (r: Result<Value, VmError>)
        ensures
            self.stack_model().len() == 0 ==> (r matches Err(e) && e.kind() == VmErrorKind::StackUnderflow
                && self.stack_model() == Seq::<ValueModel>::empty()),
            self.stack_model().len() > 0 ==> (r matches Ok(v) && v.model() == self.stack_model().last()),
    {
        proof {
            lemma_models(self.stack@);
        }
        if self.stack.len() == 0 {
            assert(self.stack_model() =~= Seq::<ValueModel>::empty());
            return Err(VmError::underflow(operation));
        }
        Ok(self.stack[self.stack.len() - 1].duplicate())
    }

    /// The number of values on the stack.
    pub fn stack_len(&self) -> (n: usize)
        ensures
            n == self.stack_model().len(),
    {
        proof {
            lemma_models(self.stack@);
        }
        self.stack.len()
    }

    /// The value at `index` of the stack, counted from the bottom.
    pub fn stack_get(&self, index: usize) -> (v: &Value)
        requires
            index < self.stack_model().len(),
        ensures
            v.model() == self.stack_model()[index as int],
    {
        proof {
            lemma_models(self.stack@);
        }
        &self.stack[index]
    }

    /// The number of instructions run since the last start.
    pub fn instruction_count(&self) -> (n: usize)
        ensures
            n == self.count(),
    {
        self.instruction_count
    }

    /// The stack, bottom first.
    pub fn stack(&self) -> (s: &[Value])
        ensures
            models(s@) == self.stack_model(),
    {
        self.stack.as_slice()
    }

    /// The value of a variable.
    pub fn get_variable(&self, name: &str) -> (r: Option<&Value>)
        ensures
            match self.var(name@) {
                Some(m) => r matches Some(v) && v.model() == m,
                None => r is None,
            },
    {
        self.variables.get(name)
    }

    /// Sets a variable.
    pub fn set_variable(&mut self, name: String, value: Value)
        ensures
            Vm::assigned(*old(self), *final(self), name@, value.model()),
    {
        let _ = self.variables.insert(name, value);
    }

    /// The output buffer (what SAY and CHAT wrote without a host).
    pub fn output(&self) -> (o: &[String])
        ensures
            texts(o@) == self.output_model(),
    {
        self.output.as_slice()
    }

    /// Appends a message to the output buffer.
    pub fn push_output(&mut self, message: String)
        ensures
            final(self).output_model() == old(self).output_model().push(message@),
            final(self).stack_model() == old(self).stack_model(),
            final(self).same_but_stack_output(old(self)),
    {
        self.output.push(message);
        assert(texts(self.output@) =~= texts(old(self).output@).push(message@));
    }

    /// Empties the output buffer.
    pub fn clear_output(&mut self)
        ensures
            final(self).output_model() == Seq::<Seq<char>>::empty(),
            final(self).stack_model() == old(self).stack_model(),
            final(self).same_but_stack_output(old(self)),
    {
        self.output.clear();
        assert(texts(self.output@) =~= Seq::<Seq<char>>::empty());
    }

    /// Starts the clock and the instruction count anew.
    pub fn start_clock(&mut self)
        ensures
            Vm::restarted(*old(self), *final(self)),
    {
        self.start_time = Some(now());
        self.instruction_count = 0;
    }

    /// Counts one instruction and checks the limits.
    ///
    /// The count goes up by one; it fails with `InstructionLimitExceeded`
    /// when the count reaches the instruction limit (or the largest
    /// `usize`), and otherwise may fail with `Timeout` only when a time
    /// limit is set and the clock runs.
    pub fn check_limits(&mut self) -> (r: Result<(), VmError>)
        ensures
            Vm::ticked(*old(self), *final(self), match r {
                Ok(_) => None,
                Err(e) => Some(e.kind()),
            }),
    {
        if self.instruction_count == usize::MAX {
            return Err(VmError::InstructionLimitExceeded);
        }
        self.instruction_count = self.instruction_count + 1;
        if let Some(max) = self.limits.max_instructions {
            if self.instruction_count >= max {
                return Err(VmError::InstructionLimitExceeded);
            }
        }
        if let Some(max_duration) = &self.limits.max_duration {
            if let Some(start) = &self.start_time {
                let spent = elapsed_since(start);
                if duration_at_least(&spent, max_duration) {
                    return Err(VmError::Timeout);
                }
            }
        }
        Ok(())
    }

    /// Runs a binary operation: pops the right operand, then the left one,
    /// and pushes the result (see `binop_result`).
    pub fn execute_binop(&mut self, op: BinOp) -> (r: Result<(), VmError>)
        ensures
            final(self).same_but_stack(old(self)),
            ({
                let s = old(self).stack_model();
                if s.len() < 2 {
                    r matches Err(e) && e.kind() == VmErrorKind::StackUnderflow
                        && final(self).stack_model() == Seq::<ValueModel>::empty()
                } else {
                    let rest = s.drop_last().drop_last();
                    match binop_result(op, s[s.len() - 2], s.last()) {
                        Ok(v) => r is Ok && final(self).stack_model() == rest.push(v),
                        Err(k) => r matches Err(e) && e.kind() == k && final(self).stack_model() == rest,
                    }
                }
            }),
    {
        let right = self.pop("binary operation right operand")?;
        let left = match self.pop("binary operation left operand") {
            Ok(v) => v,
            Err(e) => {
                return Err(e);
            },
        };
        let result = match op {
            BinOp::Add => Value::Integer(left.to_integer().wrapping_add(right.to_integer())),
            BinOp::Sub => Value::Integer(left.to_integer().wrapping_sub(right.to_integer())),
            BinOp::Mul => Value::Integer(left.to_integer().wrapping_mul(right.to_integer())),
            BinOp::Div => {
                let divisor = right.to_integer();
                if divisor == 0 {
                    return Err(VmError::DivisionByZero);
                }
                Value::Integer(div_wrapping(left.to_integer(), divisor))
            },
            BinOp::Mod => {
                let divisor = right.to_integer();
                if divisor == 0 {
                    return Err(VmError::DivisionByZero);
                }
                Value::Integer(rem_wrapping(left.to_integer(), divisor))
            },
            BinOp::Concat => {
                let mut s = left.to_string();
                right.write_text(&mut s);
                Value::String(s)
            },
            BinOp::Eq => int_flag(left.to_integer() == right.to_integer()),
            BinOp::NotEq => int_flag(left.to_integer() != right.to_integer()),
            BinOp::Less => int_flag(left.to_integer() < right.to_integer()),
            BinOp::Greater => int_flag(left.to_integer() > right.to_integer()),
            BinOp::LessEq => int_flag(left.to_integer() <= right.to_integer()),
            BinOp::GreaterEq => int_flag(left.to_integer() >= right.to_integer()),
            BinOp::And => int_flag(left.to_bool() && right.to_bool()),
            BinOp::Or => int_flag(left.to_bool() || right.to_bool()),
            BinOp::Xor => int_flag(left.to_bool() != right.to_bool()),
        };
        self.push(result);
        Ok(())
    }

    /// Runs a unary operation on the top value (see `unary_result`).
    pub fn execute_unaryop(&mut self, op: UnaryOp) -> (r: Result<(), VmError>)
        ensures
            final(self).same_but_stack(old(self)),
            ({
                let s = old(self).stack_model();
                if s.len() == 0 {
                    r matches Err(e) && e.kind() == VmErrorKind::StackUnderflow && final(self).stack_model() == s
                } else {
                    r is Ok && final(self).stack_model() == s.drop_last().push(unary_result(op, s.last()))
                }
            }),
    {
        let operand = self.pop("unary operation")?;
        let result = match op {
            UnaryOp::Neg => Value::Integer(0i32.wrapping_sub(operand.to_integer())),
            UnaryOp::Not => int_flag(!operand.to_bool()),
        };
        self.push(result);
        Ok(())
    }
}

} // verus!
