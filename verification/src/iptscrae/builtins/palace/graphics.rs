//! Graphics built-ins.
use vstd::prelude::*;
use crate::iptscrae::builtins::{done, follows, int_v, Outcome};
use crate::iptscrae::builtins::palace::{discard, pop_int, pop_n, push_pair, top_int, view_of};
use crate::iptscrae::context::{CtxView, HostCall, ScriptActions, ScriptContext};
use crate::iptscrae::value::{Value, ValueModel};
use crate::iptscrae::vm::{Vm, VmError};
use crate::text::str_eq;

verus! {

/// What the graphics built-ins do to the stack.
pub open spec fn graphics_spec(name: Seq<char>, vm: Vm, c: Option<CtxView>) -> Option<Outcome> {
    let s = vm.stack_model();
    if name == "SETPOS"@ {
        Some(pop_n(s, 2))
    } else if name == "POSX"@ {
        Some(done(s.push(int_v(match c { Some(v) => v.pos_x as i32, None => 0 }))))
    } else if name == "POSY"@ {
        Some(done(s.push(int_v(match c { Some(v) => v.pos_y as i32, None => 0 }))))
    } else if name == "LINE"@ {
        Some(pop_n(s, 4))
    } else if name == "LINETO"@ || name == "PENTO"@ {
        Some(pop_n(s, 2))
    } else if name == "PENPOS"@ {
        Some(done(s.push(int_v(0)).push(int_v(0))))
    } else if name == "PENSIZE"@ || name == "PENCOLOR"@ {
        Some(pop_n(s, 1))
    } else if name == "PENFRONT"@ || name == "PENBACK"@ || name == "PAINTCLEAR"@ || name == "PAINTUNDO"@ {
        Some(done(s))
    } else {
        None
    }
}

/// The context after a graphics built-in: SETPOS puts the user at (x, y),
/// taken from the stack (y on top), and hands the place to the host's
/// `set_pos`; the others leave it as it was.
pub open spec fn graphics_ctx(name: Seq<char>, vm: Vm, v: CtxView) -> CtxView {
    let s = vm.stack_model();
    if s.len() >= 2 && name == "SETPOS"@ {
        let (x, y) = (top_int(s, 1) as i16, top_int(s, 0) as i16);
        v.at(x, y).called(seq![HostCall::SetPos(x, y)])
    } else {
        v
    }
}

/// Runs a graphics built-in: SETPOS (pop y and x and go there), POSX and
/// POSY (push the user's position), LINE (pop four), LINETO and PENTO (pop
/// two), PENPOS (push 0 0), PENSIZE and PENCOLOR (pop one), PENFRONT,
/// PENBACK, PAINTCLEAR, PAINTUNDO (nothing).
pub fn execute_graphics_builtin<A: ScriptActions + ?Sized>(
    vm: &mut Vm,
    name: &str,
    context: Option<&mut ScriptContext<A>>,
) -> (r: Result<(), VmError>)
    ensures
        follows(graphics_spec(name@, *old(vm), view_of(context)), name@, r, old(vm).stack_model(), final(vm).stack_model()),
        final(vm).same_but_stack(old(vm)),
        match context {
            Some(c) => final(c).view() == graphics_ctx(name@, *old(vm), c.view()),
            None => true,
        },
{
    let ghost s = vm.stack_model();
    if str_eq(name, "SETPOS") {
        let y = pop_int(vm)?;
        let x = match pop_int(vm) {
            Ok(v) => v,
            Err(e) => {
                return Err(e);
            },
        };
        if let Some(ctx) = context {
            ctx.host_set_pos(x as i16, y as i16);
            ctx.user_pos_x = x as i16;
            ctx.user_pos_y = y as i16;
        }
        assert(s.drop_last().drop_last() =~= s.subrange(0, s.len() - 2));
        Ok(())
    } else if str_eq(name, "POSX") {
        let v = match context { Some(ctx) => ctx.user_pos_x as i32, None => 0 };
        vm.push(Value::Integer(v));
        Ok(())
    } else if str_eq(name, "POSY") {
        let v = match context { Some(ctx) => ctx.user_pos_y as i32, None => 0 };
        vm.push(Value::Integer(v));
        Ok(())
    } else if str_eq(name, "LINE") {
        discard(vm, 4)
    } else if str_eq(name, "LINETO") || str_eq(name, "PENTO") {
        discard(vm, 2)
    } else if str_eq(name, "PENPOS") {
        push_pair(vm, 0, 0);
        Ok(())
    } else if str_eq(name, "PENSIZE") || str_eq(name, "PENCOLOR") {
        discard(vm, 1)
    } else if str_eq(name, "PENFRONT") || str_eq(name, "PENBACK") || str_eq(name, "PAINTCLEAR") || str_eq(name, "PAINTUNDO") {
        Ok(())
    } else {
        Err(VmError::undefined_function(name))
    }
}

} // verus!
