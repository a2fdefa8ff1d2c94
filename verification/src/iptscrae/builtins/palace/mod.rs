//! Palace built-ins, by category: messaging, props, user, navigation,
//! room, graphics and system.
//!
//! Without a context (a script run alone) SAY and CHAT write to the
//! machine's output buffer, and the built-ins that read the context push
//! neutral values; with one, they read it and call its host.
use vstd::prelude::*;
use crate::iptscrae::builtins::{done, follows, short, Outcome};
use crate::iptscrae::context::{CtxView, ScriptActions, ScriptContext};
use crate::iptscrae::value::{display, int_of, Value, ValueModel};
use crate::iptscrae::vm::{Vm, VmError, VmErrorKind};

pub mod graphics;
pub mod messaging;
pub mod navigation;
pub mod props;
pub mod room;
pub mod system;
pub mod user;

verus! {

/// Popping `n` values: the stack without them, or an underflow with an
/// empty stack when it holds fewer.
pub open spec fn pop_n(s: Seq<ValueModel>, n: int) -> Outcome {
    if s.len() < n { short() } else { done(s.subrange(0, s.len() - n)) }
}

/// Popping `n` values and pushing `v`.
pub open spec fn pop_push(s: Seq<ValueModel>, n: int, v: ValueModel) -> Outcome {
    if s.len() < n { short() } else { done(s.subrange(0, s.len() - n).push(v)) }
}

/// The `i`-th value from the top (0 for the top).
pub open spec fn top(s: Seq<ValueModel>, i: int) -> ValueModel {
    s[s.len() - 1 - i]
}

/// The integer of the `i`-th value from the top.
pub open spec fn top_int(s: Seq<ValueModel>, i: int) -> i32 {
    int_of(top(s, i))
}

/// An integer value from event data: the integer, or `default` when the
/// value is missing or not an integer.
pub open spec fn data_int(v: Option<ValueModel>, default: i32) -> i32 {
    match v {
        Some(ValueModel::Integer(n)) => n,
        _ => default,
    }
}

impl CtxView {
    /// This view with the user at (`x`, `y`).
    pub open spec fn at(self, x: i16, y: i16) -> CtxView {
        CtxView { pos_x: x, pos_y: y, ..self }
    }
}

/// The view of an optional context.
pub open spec fn view_of<A: ScriptActions + ?Sized>(c: Option<&mut ScriptContext<A>>) -> Option<CtxView> {
    match c {
        Some(x) => Some(x.view()),
        None => None,
    }
}

/// Pops `n` values and drops them.
pub fn discard(vm: &mut Vm, n: usize) -> (r: Result<(), VmError>)
    ensures
        final(vm).same_but_stack(old(vm)),
        ({
            let o = pop_n(old(vm).stack_model(), n as int);
            final(vm).stack_model() == o.stack && match o.err {
                None => r is Ok,
                Some(k) => r matches Err(e) && e.kind() == k,
            }
        }),
{
    let ghost s = vm.stack_model();
    let mut i: usize = 0;
    while i < n
        invariant
            i <= n,
            s == old(vm).stack_model(),
            vm.same_but_stack(old(vm)),
            i <= s.len(),
            vm.stack_model() == s.subrange(0, s.len() - i),
        decreases n - i,
    {
        let ghost before = vm.stack_model();
        match vm.pop("argument") {
            Ok(_) => {},
            Err(e) => {
                return Err(e);
            },
        }
        assert(vm.stack_model() =~= s.subrange(0, s.len() - (i + 1)));
        i = i + 1;
    }
    Ok(())
}

/// Pops a value and gives its integer.
pub fn pop_int(vm: &mut Vm) -> (r: Result<i32, VmError>)
    ensures
        final(vm).same_but_stack(old(vm)),
        old(vm).stack_model().len() == 0 ==> (r matches Err(e) && e.kind() == VmErrorKind::StackUnderflow
            && final(vm).stack_model() == Seq::<ValueModel>::empty()),
        old(vm).stack_model().len() > 0 ==> (r == Ok::<i32, VmError>(int_of(old(vm).stack_model().last()))
            && final(vm).stack_model() == old(vm).stack_model().drop_last()),
{
    let v = vm.pop("argument")?;
    Ok(v.to_integer())
}

/// Pops a value and gives its text.
pub fn pop_text(vm: &mut Vm) -> (r: Result<String, VmError>)
    ensures
        final(vm).same_but_stack(old(vm)),
        old(vm).stack_model().len() == 0 ==> (r matches Err(e) && e.kind() == VmErrorKind::StackUnderflow
            && final(vm).stack_model() == Seq::<ValueModel>::empty()),
        old(vm).stack_model().len() > 0 ==> (r matches Ok(t) && t@ == display(old(vm).stack_model().last())
            && final(vm).stack_model() == old(vm).stack_model().drop_last()),
{
    let v = vm.pop("argument")?;
    Ok(v.to_string())
}

/// What a Palace built-in does to the stack: the first category that
/// knows the name decides (messaging, props, user, navigation, room,
/// graphics, system); the clock readers are stated apart.
pub open spec fn palace_spec(name: Seq<char>, vm: Vm, c: Option<CtxView>) -> Option<Outcome> {
    if messaging::messaging_spec(name, vm, c) is Some {
        messaging::messaging_spec(name, vm, c)
    } else if props::props_spec(name, vm, c) is Some {
        props::props_spec(name, vm, c)
    } else if user::user_spec(name, vm, c) is Some {
        user::user_spec(name, vm, c)
    } else if navigation::navigation_spec(name, vm, c) is Some {
        navigation::navigation_spec(name, vm, c)
    } else if room::room_spec(name, vm, c) is Some {
        room::room_spec(name, vm, c)
    } else if graphics::graphics_spec(name, vm, c) is Some {
        graphics::graphics_spec(name, vm, c)
    } else {
        system::system_spec(name, vm, c)
    }
}

/// Whether the name is one of the clock readers of the system category
/// and no earlier category knows it.
pub open spec fn palace_reads_clock(name: Seq<char>, vm: Vm, c: Option<CtxView>) -> bool {
    &&& messaging::messaging_spec(name, vm, c) is None
    &&& props::props_spec(name, vm, c) is None
    &&& user::user_spec(name, vm, c) is None
    &&& navigation::navigation_spec(name, vm, c) is None
    &&& room::room_spec(name, vm, c) is None
    &&& graphics::graphics_spec(name, vm, c) is None
    &&& system::reads_clock(name)
}

/// The output after a Palace built-in: only SAY and CHAT without a context
/// write to it.
pub open spec fn palace_output(name: Seq<char>, vm: Vm, c: Option<CtxView>) -> Seq<Seq<char>> {
    if messaging::messaging_spec(name, vm, c) is Some {
        messaging::messaging_output(name, vm, c)
    } else {
        vm.output_model()
    }
}

/// The context after a Palace built-in: MOVE, SETLOC and SETPOS move the
/// user, and the host is called as the category that knows the name says
/// (`messaging_calls`, `props_calls`, ...).
#[verifier::opaque]
pub open spec fn palace_ctx(name: Seq<char>, vm: Vm, v: CtxView) -> CtxView {
    let c = Some(v);
    if messaging::messaging_spec(name, vm, c) is Some {
        v.called(messaging::messaging_calls(name, vm, v))
    } else if props::props_spec(name, vm, c) is Some {
        v.called(props::props_calls(name, vm, v))
    } else if user::user_spec(name, vm, c) is Some {
        v.called(user::user_calls(name, vm, v))
    } else if navigation::navigation_spec(name, vm, c) is Some {
        navigation::navigation_ctx(name, vm, v)
    } else if room::room_spec(name, vm, c) is Some {
        v.called(room::room_calls(name, vm, v))
    } else if graphics::graphics_spec(name, vm, c) is Some {
        graphics::graphics_ctx(name, vm, v)
    } else {
        v.called(system::system_calls(name, vm))
    }
}

/// The context after a Palace built-in depends on the machine only
/// through its stack.
pub proof fn lemma_palace_ctx_stack(name: Seq<char>, a: Vm, b: Vm)
    requires
        a.stack_model() == b.stack_model(),
    ensures
        forall|v: CtxView| #[trigger] palace_ctx(name, a, v) == palace_ctx(name, b, v),
{
    reveal(palace_ctx);
}

fn undefined(r: &Result<(), VmError>) -> (b: bool)
    ensures
        b == (r matches Err(VmError::UndefinedFunction { .. })),
{
    match r {
        Err(VmError::UndefinedFunction { .. }) => true,
        _ => false,
    }
}

/// Runs a Palace built-in: the first category that knows the name runs it
/// (see `palace_spec`), and any other name is an undefined function.
#[verifier::rlimit(40)]
pub fn execute_palace_builtin<A: ScriptActions + ?Sized>(
    vm: &mut Vm,
    name: &str,
    context: Option<&mut ScriptContext<A>>,
) -> (r: Result<(), VmError>)
    ensures
        final(vm).same_but_stack_output(old(vm)),
        final(vm).output_model() == palace_output(name@, *old(vm), view_of(context)),
        palace_reads_clock(name@, *old(vm), view_of(context)) ==> (r is Ok
            && final(vm).stack_model().drop_last() == old(vm).stack_model()
            && final(vm).stack_model().len() == old(vm).stack_model().len() + 1
            && (if name@ == "DATETIME"@ { final(vm).stack_model().last() is Str } else {
                final(vm).stack_model().last() is Integer
            })),
        r matches Err(VmError::SecurityViolation { function }) ==> function@ == name@,
        !palace_reads_clock(name@, *old(vm), view_of(context)) ==> follows(palace_spec(name@, *old(vm), view_of(context)), name@, r, old(vm).stack_model(), final(vm).stack_model()),
        match context {
            Some(c) => final(c).view() == palace_ctx(name@, *old(vm), c.view()),
            None => true,
        },
{
    proof {
        reveal(palace_ctx);
    }
    match context {
        Some(ctx) => {
            let r = messaging::execute_messaging_builtin(vm, name, Some(&mut *ctx));
            if !undefined(&r) {
                return r;
            }
            let r = props::execute_props_builtin(vm, name, Some(&mut *ctx));
            if !undefined(&r) {
                return r;
            }
            let r = user::execute_user_builtin(vm, name, Some(&mut *ctx));
            if !undefined(&r) {
                return r;
            }
            let r = navigation::execute_navigation_builtin(vm, name, Some(&mut *ctx));
            if !undefined(&r) {
                return r;
            }
            let r = room::execute_room_builtin(vm, name, Some(&mut *ctx));
            if !undefined(&r) {
                return r;
            }
            let r = graphics::execute_graphics_builtin(vm, name, Some(&mut *ctx));
            if !undefined(&r) {
                return r;
            }
            system::execute_system_builtin(vm, name, Some(ctx))
        },
        None => {
            let r = messaging::execute_messaging_builtin::<A>(vm, name, None);
            if !undefined(&r) {
                return r;
            }
            let r = props::execute_props_builtin::<A>(vm, name, None);
            if !undefined(&r) {
                return r;
            }
            let r = user::execute_user_builtin::<A>(vm, name, None);
            if !undefined(&r) {
                return r;
            }
            let r = navigation::execute_navigation_builtin::<A>(vm, name, None);
            if !undefined(&r) {
                return r;
            }
            let r = room::execute_room_builtin::<A>(vm, name, None);
            if !undefined(&r) {
                return r;
            }
            let r = graphics::execute_graphics_builtin::<A>(vm, name, None);
            if !undefined(&r) {
                return r;
            }
            system::execute_system_builtin::<A>(vm, name, None)
        },
    }
}

/// Pushes two integers, `a` then `b`.
pub fn push_pair(vm: &mut Vm, a: i32, b: i32)
    ensures
        final(vm).same_but_stack(old(vm)),
        final(vm).stack_model() == old(vm).stack_model().push(ValueModel::Integer(a)).push(ValueModel::Integer(b)),
{
    vm.push(Value::Integer(a));
    vm.push(Value::Integer(b));
}

} // verus!
