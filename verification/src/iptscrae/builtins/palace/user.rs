//! User built-ins.
use vstd::prelude::*;
use crate::iptscrae::builtins::{done, flag_v, follows, int_v, short, Outcome};
use crate::iptscrae::builtins::palace::{data_int, pop_int, pop_n, pop_push, push_pair, top_int, view_of};
use crate::iptscrae::context::{call_if, CtxView, HostCall, ScriptActions, ScriptContext, SecurityLevel};
use crate::iptscrae::value::{int_of, Value, ValueModel};
use crate::iptscrae::vm::{Vm, VmError};
use crate::text::{copy_string, decimal, i32_chars, push_char, str_eq, string_from};

verus! {

/// What the user built-ins do to the stack.
pub open spec fn user_spec(name: Seq<char>, vm: Vm, c: Option<CtxView>) -> Option<Outcome> {
    let s = vm.stack_model();
    if name == "USERNAME"@ {
        Some(done(s.push(ValueModel::Str(match c {
            Some(v) => v.user_name,
            None => "Guest"@,
        }))))
    } else if name == "WHOME"@ {
        Some(done(s.push(int_v(match c { Some(v) => v.user_id, None => 0 }))))
    } else if name == "WHONAME"@ {
        Some(if s.len() == 0 { short() } else {
            let uid = int_of(s.last());
            pop_push(s, 1, ValueModel::Str(match c {
                Some(v) => if uid == v.user_id { v.user_name } else { "User"@ + decimal(uid as int) },
                None => "Guest"@,
            }))
        })
    } else if name == "SETFACE"@ || name == "SETCOLOR"@ {
        Some(pop_n(s, 1))
    } else if name == "WHOPOS"@ {
        Some(if s.len() == 0 { short() } else {
            let t = s.drop_last();
            match c {
                Some(v) => if int_of(s.last()) == v.user_id {
                    done(t.push(int_v(v.pos_x as i32)).push(int_v(v.pos_y as i32)))
                } else {
                    done(t.push(int_v(0)).push(int_v(0)))
                },
                None => done(t.push(int_v(0)).push(int_v(0))),
            }
        })
    } else if name == "USERID"@ {
        Some(done(s.push(int_v(match c { Some(v) => v.user_id, None => 0 }))))
    } else if name == "WHOTARGET"@ {
        Some(done(s.push(int_v(match c { Some(v) => data_int(v.target_user, 0), None => 0 }))))
    } else if name == "ISGOD"@ || name == "ISWIZARD"@ {
        Some(done(s.push(flag_v(c matches Some(v) && v.level == SecurityLevel::Admin))))
    } else if name == "ISGUEST"@ {
        Some(done(s.push(int_v(0))))
    } else if name == "MOUSEPOS"@ {
        Some(done(s.push(int_v(0)).push(int_v(0))))
    } else if name == "ME"@ {
        Some(done(s.push(int_v(match c { Some(v) => v.user_id, None => 0 }))))
    } else {
        None
    }
}

/// The calls of the host that a user built-in makes with a context:
/// SETFACE and SETCOLOR pass the popped value on (as an `i16`); the
/// others call nothing.
pub open spec fn user_calls(name: Seq<char>, vm: Vm, v: CtxView) -> Seq<HostCall> {
    let s = vm.stack_model();
    if name == "USERNAME"@ || name == "WHOME"@ || name == "WHONAME"@ {
        Seq::empty()
    } else if name == "SETFACE"@ {
        call_if(s.len() >= 1, HostCall::SetFace(top_int(s, 0) as i16))
    } else if name == "SETCOLOR"@ {
        call_if(s.len() >= 1, HostCall::SetColor(top_int(s, 0) as i16))
    } else {
        Seq::empty()
    }
}

/// Runs a user built-in: USERNAME, WHOME, USERID and ME (push the user's
/// name or ID), WHONAME (pop an ID, push that user's name), SETFACE and
/// SETCOLOR (pop and set), WHOPOS (pop an ID, push that user's position),
/// WHOTARGET (push the targeted user from the event data), ISGOD and
/// ISWIZARD (push 1 for an admin), ISGUEST (push 0), MOUSEPOS (push 0 0).
pub fn execute_user_builtin<A: ScriptActions + ?Sized>(
    vm: &mut Vm,
    name: &str,
    context: Option<&mut ScriptContext<A>>,
) -> (r: Result<(), VmError>)
    ensures
        follows(user_spec(name@, *old(vm), view_of(context)), name@, r, old(vm).stack_model(), final(vm).stack_model()),
        final(vm).same_but_stack(old(vm)),
        match context {
            Some(c) => final(c).view() == c.view().called(user_calls(name@, *old(vm), c.view())),
            None => true,
        },
{
    let ghost s = vm.stack_model();
    if str_eq(name, "USERNAME") {
        let v = match context {
            Some(ctx) => copy_string(&ctx.user_name),
            None => string_from("Guest"),
        };
        vm.push(Value::String(v));
        Ok(())
    } else if str_eq(name, "WHOME") {
        let id = match context { Some(ctx) => ctx.user_id, None => 0 };
        vm.push(Value::Integer(id));
        Ok(())
    } else if str_eq(name, "WHONAME") {
        let uid = pop_int(vm)?;
        let v = match context {
            Some(ctx) => if uid == ctx.user_id {
                copy_string(&ctx.user_name)
            } else {
                let mut t = string_from("User");
                let cs = i32_chars(uid);
                let mut i: usize = 0;
                while i < cs.len()
                    invariant
                        i <= cs@.len(),
                        t@ == "User"@ + cs@.subrange(0, i as int),
                    decreases cs@.len() - i,
                {
                    push_char(&mut t, cs[i]);
                    i = i + 1;
                }
                assert(cs@.subrange(0, cs@.len() as int) == cs@);
                t
            },
            None => string_from("Guest"),
        };
        vm.push(Value::String(v));
        assert(s.drop_last() =~= s.subrange(0, s.len() - 1));
        Ok(())
    } else if str_eq(name, "SETFACE") || str_eq(name, "SETCOLOR") {
        let v = pop_int(vm)? as i16;
        if let Some(ctx) = context {
            if str_eq(name, "SETFACE") {
                ctx.host_set_face(v);
            } else {
                ctx.host_set_color(v);
            }
        }
        assert(s.drop_last() =~= s.subrange(0, s.len() - 1));
        Ok(())
    } else if str_eq(name, "WHOPOS") {
        let uid = pop_int(vm)?;
        match context {
            Some(ctx) => if uid == ctx.user_id {
                push_pair(vm, ctx.user_pos_x as i32, ctx.user_pos_y as i32);
            } else {
                push_pair(vm, 0, 0);
            },
            None => {
                push_pair(vm, 0, 0);
            },
        }
        Ok(())
    } else if str_eq(name, "USERID") {
        let id = match context { Some(ctx) => ctx.user_id, None => 0 };
        vm.push(Value::Integer(id));
        Ok(())
    } else if str_eq(name, "WHOTARGET") {
        let id = match context {
            Some(ctx) => match ctx.event_data.get("target_user_id") {
                Some(Value::Integer(n)) => *n,
                _ => 0,
            },
            None => 0,
        };
        vm.push(Value::Integer(id));
        Ok(())
    } else if str_eq(name, "ISGOD") || str_eq(name, "ISWIZARD") {
        let god = match context {
            Some(ctx) => match ctx.security_level {
                SecurityLevel::Admin => true,
                _ => false,
            },
            None => false,
        };
        vm.push(if god { Value::Integer(1) } else { Value::Integer(0) });
        Ok(())
    } else if str_eq(name, "ISGUEST") {
        vm.push(Value::Integer(0));
        Ok(())
    } else if str_eq(name, "MOUSEPOS") {
        push_pair(vm, 0, 0);
        Ok(())
    } else if str_eq(name, "ME") {
        let id = match context { Some(ctx) => ctx.user_id, None => 0 };
        vm.push(Value::Integer(id));
        Ok(())
    } else {
        Err(VmError::undefined_function(name))
    }
}

} // verus!
