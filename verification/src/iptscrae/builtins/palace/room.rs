//! Room built-ins.
use vstd::prelude::*;
use crate::iptscrae::builtins::{done, fail, follows, int_v, short, Outcome};
use crate::iptscrae::builtins::palace::{data_int, discard, pop_int, pop_n, pop_push, top_int, view_of};
use crate::iptscrae::context::{allowed, call_if, CtxView, HostCall, ScriptActions, ScriptContext};
use crate::iptscrae::value::{int_of, Value, ValueModel};
use crate::iptscrae::vm::{Vm, VmError, VmErrorKind};
use crate::text::{copy_string, str_eq, string_from};

verus! {

/// What the room built-ins do to the stack.
pub open spec fn room_spec(name: Seq<char>, vm: Vm, c: Option<CtxView>) -> Option<Outcome> {
    let s = vm.stack_model();
    if name == "ROOMNAME"@ {
        Some(done(s.push(ValueModel::Str(match c { Some(v) => v.room_name, None => Seq::empty() }))))
    } else if name == "ROOMID"@ {
        Some(done(s.push(int_v(match c { Some(v) => v.room_id as i32, None => 0 }))))
    } else if name == "LOCK"@ || name == "UNLOCK"@ {
        Some(if c matches Some(v) && !allowed(v.level, name) {
            fail(s, VmErrorKind::SecurityViolation)
        } else {
            pop_n(s, 1)
        })
    } else if name == "NBRROOMUSERS"@ {
        Some(done(s.push(int_v(1))))
    } else if name == "ROOMUSER"@ {
        Some(if s.len() == 0 { short() } else {
            pop_push(s, 1, int_v(match c {
                Some(v) => if int_of(s.last()) == 0 { v.user_id } else { 0 },
                None => 0,
            }))
        })
    } else if name == "DOORIDX"@ {
        Some(done(s.push(int_v(match c { Some(v) => data_int(v.door, -1i32), None => -1i32 }))))
    } else if name == "NBRDOORS"@ {
        Some(done(s.push(int_v(0))))
    } else if name == "ISLOCKED"@ {
        Some(pop_push(s, 1, int_v(0)))
    } else if name == "SPOTIDX"@ {
        Some(done(s.push(int_v(match c { Some(v) => data_int(v.spot, -1i32), None => -1i32 }))))
    } else if name == "NBRSPOTS"@ {
        Some(done(s.push(int_v(0))))
    } else if name == "SPOTNAME"@ {
        Some(pop_push(s, 1, ValueModel::Str(Seq::empty())))
    } else if name == "SPOTDEST"@ || name == "INSPOT"@ || name == "GETSPOTSTATE"@ {
        Some(pop_push(s, 1, int_v(0)))
    } else if name == "SETSPOTSTATE"@ || name == "SETSPOTSTATELOCAL"@ || name == "SETPICLOC"@ {
        Some(pop_n(s, 2))
    } else if name == "DIMROOM"@ {
        Some(pop_n(s, 1))
    } else {
        None
    }
}

/// The calls of the host that a room built-in makes with a context: LOCK
/// and UNLOCK pass the popped door on where the level allows them,
/// SETSPOTSTATE the popped spot and state; the others call nothing.
pub open spec fn room_calls(name: Seq<char>, vm: Vm, v: CtxView) -> Seq<HostCall> {
    let s = vm.stack_model();
    if name == "ROOMNAME"@ || name == "ROOMID"@ {
        Seq::empty()
    } else if name == "LOCK"@ {
        call_if(allowed(v.level, name) && s.len() >= 1, HostCall::LockDoor(top_int(s, 0)))
    } else if name == "UNLOCK"@ {
        call_if(allowed(v.level, name) && s.len() >= 1, HostCall::UnlockDoor(top_int(s, 0)))
    } else if name == "NBRROOMUSERS"@ || name == "ROOMUSER"@ || name == "DOORIDX"@ || name == "NBRDOORS"@
        || name == "ISLOCKED"@ || name == "SPOTIDX"@ || name == "NBRSPOTS"@ || name == "SPOTNAME"@
        || name == "SPOTDEST"@ || name == "INSPOT"@ || name == "GETSPOTSTATE"@ {
        Seq::empty()
    } else if name == "SETSPOTSTATE"@ {
        call_if(s.len() >= 2, HostCall::SetSpotState(top_int(s, 1), top_int(s, 0)))
    } else {
        Seq::empty()
    }
}

/// Runs a room built-in: ROOMNAME, ROOMID, LOCK and UNLOCK (pop a door;
/// not for cyborgs), NBRROOMUSERS (push 1), ROOMUSER (pop an index, push
/// the user for index 0), DOORIDX and SPOTIDX (push the door or spot of
/// the event data, or -1), NBRDOORS and NBRSPOTS (push 0), ISLOCKED,
/// SPOTDEST, INSPOT, GETSPOTSTATE (pop, push 0), SPOTNAME (pop, push an
/// empty text), SETSPOTSTATE (pop a state and a spot and set it),
/// SETSPOTSTATELOCAL, SETPICLOC (pop two), DIMROOM (pop one).
#[verifier::rlimit(30)]
pub fn execute_room_builtin<A: ScriptActions + ?Sized>(
    vm: &mut Vm,
    name: &str,
    context: Option<&mut ScriptContext<A>>,
) -> (r: Result<(), VmError>)
    ensures
        follows(room_spec(name@, *old(vm), view_of(context)), name@, r, old(vm).stack_model(), final(vm).stack_model()),
        final(vm).same_but_stack(old(vm)),
        r matches Err(VmError::SecurityViolation { function }) ==> function@ == name@,
        match context {
            Some(c) => final(c).view() == c.view().called(room_calls(name@, *old(vm), c.view())),
            None => true,
        },
{
    let ghost s = vm.stack_model();
    if str_eq(name, "ROOMNAME") {
        let v = match context { Some(ctx) => copy_string(&ctx.room_name), None => String::new() };
        vm.push(Value::String(v));
        Ok(())
    } else if str_eq(name, "ROOMID") {
        let v = match context { Some(ctx) => ctx.room_id as i32, None => 0 };
        vm.push(Value::Integer(v));
        Ok(())
    } else if str_eq(name, "LOCK") || str_eq(name, "UNLOCK") {
        let denied = match &context {
            Some(ctx) => !ctx.is_function_allowed(name),
            None => false,
        };
        if denied {
            return Err(VmError::SecurityViolation { function: string_from(name) });
        }
        let door = pop_int(vm)?;
        if let Some(ctx) = context {
            if str_eq(name, "LOCK") {
                ctx.host_lock_door(door);
            } else {
                ctx.host_unlock_door(door);
            }
        }
        assert(s.drop_last() =~= s.subrange(0, s.len() - 1));
        Ok(())
    } else if str_eq(name, "NBRROOMUSERS") {
        vm.push(Value::Integer(1));
        Ok(())
    } else if str_eq(name, "ROOMUSER") {
        let index = pop_int(vm)?;
        let v = match context {
            Some(ctx) => if index == 0 { ctx.user_id } else { 0 },
            None => 0,
        };
        vm.push(Value::Integer(v));
        assert(s.drop_last() =~= s.subrange(0, s.len() - 1));
        Ok(())
    } else if str_eq(name, "DOORIDX") {
        let v = match context {
            Some(ctx) => match ctx.event_data.get("door_id") {
                Some(Value::Integer(n)) => *n,
                _ => -1,
            },
            None => -1,
        };
        vm.push(Value::Integer(v));
        Ok(())
    } else if str_eq(name, "NBRDOORS") {
        vm.push(Value::Integer(0));
        Ok(())
    } else if str_eq(name, "ISLOCKED") {
        pop_int(vm)?;
        vm.push(Value::Integer(0));
        assert(s.drop_last() =~= s.subrange(0, s.len() - 1));
        Ok(())
    } else if str_eq(name, "SPOTIDX") {
        let v = match context {
            Some(ctx) => match ctx.event_data.get("spot_id") {
                Some(Value::Integer(n)) => *n,
                _ => -1,
            },
            None => -1,
        };
        vm.push(Value::Integer(v));
        Ok(())
    } else if str_eq(name, "NBRSPOTS") {
        vm.push(Value::Integer(0));
        Ok(())
    } else if str_eq(name, "SPOTNAME") {
        pop_int(vm)?;
        vm.push(Value::String(String::new()));
        assert(s.drop_last() =~= s.subrange(0, s.len() - 1));
        Ok(())
    } else if str_eq(name, "SPOTDEST") || str_eq(name, "INSPOT") || str_eq(name, "GETSPOTSTATE") {
        pop_int(vm)?;
        vm.push(Value::Integer(0));
        assert(s.drop_last() =~= s.subrange(0, s.len() - 1));
        Ok(())
    } else if str_eq(name, "SETSPOTSTATE") || str_eq(name, "SETSPOTSTATELOCAL") || str_eq(name, "SETPICLOC") {
        let state = pop_int(vm)?;
        let spot = match pop_int(vm) {
            Ok(v) => v,
            Err(e) => {
                return Err(e);
            },
        };
        if str_eq(name, "SETSPOTSTATE") {
            if let Some(ctx) = context {
                ctx.host_set_spot_state(spot, state);
            }
        }
        assert(s.drop_last().drop_last() =~= s.subrange(0, s.len() - 2));
        Ok(())
    } else if str_eq(name, "DIMROOM") {
        discard(vm, 1)
    } else {
        Err(VmError::undefined_function(name))
    }
}

} // verus!
