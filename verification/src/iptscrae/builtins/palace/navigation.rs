//! Navigation built-ins.
use vstd::prelude::*;
use crate::iptscrae::builtins::{done, fail, follows, int_v, short, Outcome};
use crate::iptscrae::builtins::palace::{discard, pop_int, pop_n, pop_push, pop_text, top, top_int, view_of};
use crate::iptscrae::context::{allowed, call_if, CtxView, HostCall, ScriptActions, ScriptContext, SecurityLevel};
use crate::iptscrae::value::{display, int_of, Value, ValueModel};
use crate::iptscrae::vm::{Vm, VmError, VmErrorKind};
use crate::text::{i32_chars, push_char, push_str, str_eq, string_from};

verus! {

/// What the navigation built-ins do to the stack.
pub open spec fn navigation_spec(name: Seq<char>, vm: Vm, c: Option<CtxView>) -> Option<Outcome> {
    let s = vm.stack_model();
    if name == "MOVE"@ || name == "SETLOC"@ {
        Some(pop_n(s, 2))
    } else if name == "GOTOROOM"@ {
        Some(if c matches Some(v) && !allowed(v.level, "GOTOROOM"@) {
            fail(s, VmErrorKind::SecurityViolation)
        } else {
            pop_n(s, 1)
        })
    } else if name == "GOTOURL"@ {
        Some(pop_n(s, 1))
    } else if name == "GOTOURLFRAME"@ || name == "NETGOTO"@ {
        Some(pop_n(s, 2))
    } else if name == "KILLUSER"@ {
        Some(if s.len() == 0 { short() } else if c matches Some(v) && v.level != SecurityLevel::Admin {
            fail(s.drop_last(), VmErrorKind::TypeError)
        } else {
            done(s.drop_last())
        })
    } else if name == "DEST"@ {
        Some(pop_push(s, 1, int_v(0)))
    } else if name == "LAUNCHAPP"@ {
        Some(pop_n(s, 1))
    } else {
        None
    }
}

/// The address NETGOTO goes to: "palace://server?room=id".
pub open spec fn netgoto_url(server: Seq<char>, room: i32) -> Seq<char> {
    "palace://"@ + server + "?room="@ + crate::text::decimal(room as int)
}

/// The calls of the host that a navigation built-in makes with a context:
/// MOVE, SETLOC, GOTOROOM (where the level allows it), GOTOURL,
/// GOTOURLFRAME, NETGOTO and LAUNCHAPP pass what they pop on; KILLUSER and
/// DEST call nothing; none where the stack runs short.
pub open spec fn navigation_calls(name: Seq<char>, vm: Vm, v: CtxView) -> Seq<HostCall> {
    let s = vm.stack_model();
    if name == "MOVE"@ {
        call_if(s.len() >= 2, HostCall::MoveUser(top_int(s, 1) as i16, top_int(s, 0) as i16))
    } else if name == "SETLOC"@ {
        call_if(s.len() >= 2, HostCall::SetPos(top_int(s, 1) as i16, top_int(s, 0) as i16))
    } else if name == "GOTOROOM"@ {
        call_if(allowed(v.level, name) && s.len() >= 1, HostCall::GotoRoom(top_int(s, 0) as i16))
    } else if name == "GOTOURL"@ {
        call_if(s.len() >= 1, HostCall::GotoUrl(display(top(s, 0))))
    } else if name == "GOTOURLFRAME"@ {
        call_if(s.len() >= 2, HostCall::GotoUrlFrame(display(top(s, 1)), display(top(s, 0))))
    } else if name == "NETGOTO"@ {
        call_if(s.len() >= 2, HostCall::GotoUrl(netgoto_url(display(top(s, 1)), int_of(top(s, 0)))))
    } else if name == "KILLUSER"@ || name == "DEST"@ {
        Seq::empty()
    } else if name == "LAUNCHAPP"@ {
        call_if(s.len() >= 1, HostCall::LaunchApp(display(top(s, 0))))
    } else {
        Seq::empty()
    }
}

/// The context after a navigation built-in: MOVE moves the user by
/// (dx, dy), wrapping around, and SETLOC puts the user at (x, y), both
/// taken from the stack (y on top); the host is called as
/// `navigation_calls` says.
pub open spec fn navigation_ctx(name: Seq<char>, vm: Vm, v: CtxView) -> CtxView {
    let s = vm.stack_model();
    let w = if s.len() >= 2 && name == "MOVE"@ {
        v.at(v.pos_x.wrapping_add(top_int(s, 1) as i16), v.pos_y.wrapping_add(top_int(s, 0) as i16))
    } else if s.len() >= 2 && name == "SETLOC"@ {
        v.at(top_int(s, 1) as i16, top_int(s, 0) as i16)
    } else {
        v
    };
    w.called(navigation_calls(name, vm, v))
}

fn append_int(t: &mut String, n: i32)
    ensures
        final(t)@ == old(t)@ + crate::text::decimal(n as int),
{
    let cs = i32_chars(n);
    let mut i: usize = 0;
    while i < cs.len()
        invariant
            i <= cs@.len(),
            t@ == old(t)@ + cs@.subrange(0, i as int),
        decreases cs@.len() - i,
    {
        push_char(t, cs[i]);
        i = i + 1;
    }
    assert(cs@.subrange(0, cs@.len() as int) == cs@);
}

/// Runs a navigation built-in: GOTOROOM (pop a room and go there; not for
/// cyborgs), MOVE (pop dy and dx and move by them), GOTOURL, GOTOURLFRAME
/// (pop a frame and a URL), NETGOTO (pop a room and a server, and go to
/// "palace://server?room=id"), KILLUSER (pop a user; admins only), DEST
/// (pop a door, push 0), SETLOC (pop y and x and go there), LAUNCHAPP.
#[verifier::rlimit(30)]
pub fn execute_navigation_builtin<A: ScriptActions + ?Sized>(
    vm: &mut Vm,
    name: &str,
    context: Option<&mut ScriptContext<A>>,
) -> (r: Result<(), VmError>)
    ensures
        follows(navigation_spec(name@, *old(vm), view_of(context)), name@, r, old(vm).stack_model(), final(vm).stack_model()),
        final(vm).same_but_stack(old(vm)),
        r matches Err(VmError::SecurityViolation { function }) ==> function@ == name@,
        match context {
            Some(c) => final(c).view() == navigation_ctx(name@, *old(vm), c.view()),
            None => true,
        },
{
    let ghost s = vm.stack_model();
    if str_eq(name, "MOVE") {
        let dy = pop_int(vm)?;
        let dx = match pop_int(vm) {
            Ok(v) => v,
            Err(e) => {
                return Err(e);
            },
        };
        if let Some(ctx) = context {
            ctx.host_move_user(dx as i16, dy as i16);
            ctx.user_pos_x = ctx.user_pos_x.wrapping_add(dx as i16);
            ctx.user_pos_y = ctx.user_pos_y.wrapping_add(dy as i16);
        }
        assert(s.drop_last().drop_last() =~= s.subrange(0, s.len() - 2));
        Ok(())
    } else if str_eq(name, "SETLOC") {
        let y = pop_int(vm)?;
        let x = match pop_int(vm) {
            Ok(v) => v,
            Err(e) => {
                return Err(e);
            },
        };
        if let Some(ctx) = context {
            ctx.host_set_pos(x as i16, y as i16);
            ctx.user_pos_x = x as i16;
            ctx.user_pos_y = y as i16;
        }
        assert(s.drop_last().drop_last() =~= s.subrange(0, s.len() - 2));
        Ok(())
    } else if str_eq(name, "GOTOROOM") {
        let denied = match &context {
            Some(ctx) => !ctx.is_function_allowed("GOTOROOM"),
            None => false,
        };
        if denied {
            return Err(VmError::SecurityViolation { function: string_from("GOTOROOM") });
        }
        let room = pop_int(vm)?;
        if let Some(ctx) = context {
            ctx.host_goto_room(room as i16);
        }
        assert(s.drop_last() =~= s.subrange(0, s.len() - 1));
        Ok(())
    } else if str_eq(name, "GOTOURL") {
        let url = pop_text(vm)?;
        if let Some(ctx) = context {
            ctx.host_goto_url(url.as_str());
        }
        assert(s.drop_last() =~= s.subrange(0, s.len() - 1));
        Ok(())
    } else if str_eq(name, "GOTOURLFRAME") || str_eq(name, "NETGOTO") {
        let is_frame = str_eq(name, "GOTOURLFRAME");
        let first = vm.pop("argument")?;
        let url = match pop_text(vm) {
            Ok(t) => t,
            Err(e) => {
                return Err(e);
            },
        };
        if let Some(ctx) = context {
            if is_frame {
                let frame = first.to_string();
                ctx.host_goto_url_frame(url.as_str(), frame.as_str());
            } else {
                let mut target = string_from("palace://");
                push_str(&mut target, url.as_str());
                push_str(&mut target, "?room=");
                append_int(&mut target, first.to_integer());
                assert(target@ =~= netgoto_url(url@, int_of(first.model())));
                ctx.host_goto_url(target.as_str());
            }
        }
        assert(s.drop_last().drop_last() =~= s.subrange(0, s.len() - 2));
        Ok(())
    } else if str_eq(name, "KILLUSER") {
        let _user = pop_int(vm)?;
        let denied = match &context {
            Some(ctx) => match ctx.security_level {
                SecurityLevel::Admin => false,
                _ => true,
            },
            None => false,
        };
        if denied {
            return Err(VmError::type_error("KILLUSER requires admin privileges"));
        }
        Ok(())
    } else if str_eq(name, "DEST") {
        pop_int(vm)?;
        vm.push(Value::Integer(0));
        assert(s.drop_last() =~= s.subrange(0, s.len() - 1));
        Ok(())
    } else if str_eq(name, "LAUNCHAPP") {
        let url = pop_text(vm)?;
        if let Some(ctx) = context {
            ctx.host_launch_app(url.as_str());
        }
        assert(s.drop_last() =~= s.subrange(0, s.len() - 1));
        Ok(())
    } else {
        Err(VmError::undefined_function(name))
    }
}

} // verus!
