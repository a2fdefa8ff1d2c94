//! Messaging built-ins.
use vstd::prelude::*;
use crate::iptscrae::builtins::{done, fail, follows, int_v, short, Outcome};
use crate::iptscrae::builtins::palace::{data_int, pop_int, pop_n, pop_text, top, top_int, view_of};
use crate::iptscrae::context::{call_if, CtxView, HostCall, ScriptActions, ScriptContext, SecurityLevel};
use crate::iptscrae::value::{display, Value, ValueModel};
use crate::iptscrae::vm::{Vm, VmError, VmErrorKind};
use crate::text::{decimal, i32_chars, push_char, push_str, str_eq};

verus! {

/// What the messaging built-ins do to the stack.
pub open spec fn messaging_spec(name: Seq<char>, vm: Vm, c: Option<CtxView>) -> Option<Outcome> {
    let s = vm.stack_model();
    if name == "SAY"@ || name == "CHAT"@ || name == "LOCALMSG"@ || name == "ROOMMSG"@ {
        Some(pop_n(s, 1))
    } else if name == "PRIVATEMSG"@ {
        Some(pop_n(s, 2))
    } else if name == "WHOCHAT"@ {
        Some(done(s.push(int_v(match c {
            Some(v) => data_int(v.chat_user, v.user_id),
            None => 0,
        }))))
    } else if name == "SAYAT"@ {
        Some(pop_n(s, 3))
    } else if name == "GLOBALMSG"@ || name == "STATUSMSG"@ {
        Some(pop_n(s, 1))
    } else if name == "SUSRMSG"@ {
        Some(if s.len() == 0 {
            short()
        } else if c matches Some(v) && v.level != SecurityLevel::Admin {
            fail(s.drop_last(), VmErrorKind::TypeError)
        } else {
            done(s.drop_last())
        })
    } else if name == "LOGMSG"@ {
        Some(pop_n(s, 1))
    } else {
        None
    }
}

/// The output after a messaging built-in: without a context, SAY and CHAT
/// write their message's text to it.
pub open spec fn messaging_output(name: Seq<char>, vm: Vm, c: Option<CtxView>) -> Seq<Seq<char>> {
    if c is None && (name == "SAY"@ || name == "CHAT"@) && vm.stack_model().len() > 0 {
        vm.output_model().push(display(vm.stack_model().last()))
    } else {
        vm.output_model()
    }
}

/// What SAYAT says: "@x,y: message".
pub open spec fn sayat_text(x: i32, y: i32, message: Seq<char>) -> Seq<char> {
    seq!['@'] + decimal(x as int) + seq![','] + decimal(y as int) + ": "@ + message
}

/// The calls of the host that a messaging built-in makes with a context:
/// each passes its popped message (and user, or place) on; SUSRMSG only
/// for an admin; none where the stack runs short.
pub open spec fn messaging_calls(name: Seq<char>, vm: Vm, v: CtxView) -> Seq<HostCall> {
    let s = vm.stack_model();
    if name == "SAY"@ {
        call_if(s.len() >= 1, HostCall::Say(display(top(s, 0))))
    } else if name == "CHAT"@ {
        call_if(s.len() >= 1, HostCall::Chat(display(top(s, 0))))
    } else if name == "LOCALMSG"@ {
        call_if(s.len() >= 1, HostCall::LocalMsg(display(top(s, 0))))
    } else if name == "ROOMMSG"@ {
        call_if(s.len() >= 1, HostCall::RoomMsg(display(top(s, 0))))
    } else if name == "PRIVATEMSG"@ {
        call_if(s.len() >= 2, HostCall::PrivateMsg(top_int(s, 1), display(top(s, 0))))
    } else if name == "WHOCHAT"@ {
        Seq::empty()
    } else if name == "SAYAT"@ {
        call_if(s.len() >= 3, HostCall::Say(sayat_text(top_int(s, 1), top_int(s, 0), display(top(s, 2)))))
    } else if name == "GLOBALMSG"@ {
        call_if(s.len() >= 1, HostCall::GlobalMsg(display(top(s, 0))))
    } else if name == "STATUSMSG"@ {
        call_if(s.len() >= 1, HostCall::StatusMsg(display(top(s, 0))))
    } else if name == "SUSRMSG"@ {
        call_if(s.len() >= 1 && v.level == SecurityLevel::Admin, HostCall::SuperuserMsg(display(top(s, 0))))
    } else if name == "LOGMSG"@ {
        call_if(s.len() >= 1, HostCall::LogMsg(display(top(s, 0))))
    } else {
        Seq::empty()
    }
}

fn append_int(s: &mut String, n: i32)
    ensures
        final(s)@ == old(s)@ + crate::text::decimal(n as int),
{
    let cs = i32_chars(n);
    let mut i: usize = 0;
    while i < cs.len()
        invariant
            i <= cs@.len(),
            s@ == old(s)@ + cs@.subrange(0, i as int),
        decreases cs@.len() - i,
    {
        push_char(s, cs[i]);
        i = i + 1;
    }
    assert(cs@.subrange(0, cs@.len() as int) == cs@);
}

/// Runs a messaging built-in: SAY and CHAT (pop a message and say it, or
/// write it to the output without a context), LOCALMSG, ROOMMSG, GLOBALMSG,
/// STATUSMSG, LOGMSG (pop a message and pass it on), PRIVATEMSG (pop a
/// message and a user), SAYAT (pop y, x and a message, and say
/// "@x,y: message"), SUSRMSG (pop a message; only an admin may send it),
/// WHOCHAT (push the chatting user from the event data, else the user).
pub fn execute_messaging_builtin<A: ScriptActions + ?Sized>(
    vm: &mut Vm,
    name: &str,
    context: Option<&mut ScriptContext<A>>,
) -> (r: Result<(), VmError>)
    ensures
        follows(messaging_spec(name@, *old(vm), view_of(context)), name@, r, old(vm).stack_model(), final(vm).stack_model()),
        final(vm).same_but_stack_output(old(vm)),
        final(vm).output_model() == messaging_output(name@, *old(vm), view_of(context)),
        match context {
            Some(c) => final(c).view() == c.view().called(messaging_calls(name@, *old(vm), c.view())),
            None => true,
        },
{
    let ghost s = vm.stack_model();
    if str_eq(name, "SAY") || str_eq(name, "CHAT") || str_eq(name, "LOCALMSG") || str_eq(name, "ROOMMSG") {
        let message = pop_text(vm)?;
        match context {
            Some(ctx) => {
                if str_eq(name, "SAY") {
                    ctx.host_say(message.as_str());
                } else if str_eq(name, "CHAT") {
                    ctx.host_chat(message.as_str());
                } else if str_eq(name, "LOCALMSG") {
                    ctx.host_local_msg(message.as_str());
                } else {
                    ctx.host_room_msg(message.as_str());
                }
            },
            None => {
                if str_eq(name, "SAY") || str_eq(name, "CHAT") {
                    vm.push_output(message);
                }
            },
        }
        assert(s.drop_last() =~= s.subrange(0, s.len() - 1));
        Ok(())
    } else if str_eq(name, "PRIVATEMSG") {
        let message = pop_text(vm)?;
        let user_id = match pop_int(vm) {
            Ok(n) => n,
            Err(e) => {
                return Err(e);
            },
        };
        if let Some(ctx) = context {
            ctx.host_private_msg(user_id, message.as_str());
        }
        assert(s.drop_last().drop_last() =~= s.subrange(0, s.len() - 2));
        Ok(())
    } else if str_eq(name, "WHOCHAT") {
        let id = match context {
            Some(ctx) => match ctx.event_data.get("chat_user_id") {
                Some(Value::Integer(n)) => *n,
                _ => ctx.user_id,
            },
            None => 0,
        };
        vm.push(Value::Integer(id));
        Ok(())
    } else if str_eq(name, "SAYAT") {
        let y = pop_int(vm)?;
        let x = match pop_int(vm) {
            Ok(n) => n,
            Err(e) => {
                return Err(e);
            },
        };
        let message = match pop_text(vm) {
            Ok(t) => t,
            Err(e) => {
                return Err(e);
            },
        };
        if let Some(ctx) = context {
            let mut msg = String::new();
            push_char(&mut msg, '@');
            append_int(&mut msg, x);
            push_char(&mut msg, ',');
            append_int(&mut msg, y);
            push_str(&mut msg, ": ");
            push_str(&mut msg, message.as_str());
            assert(msg@ =~= sayat_text(x, y, message@));
            ctx.host_say(msg.as_str());
        }
        assert(s.drop_last().drop_last().drop_last() =~= s.subrange(0, s.len() - 3));
        Ok(())
    } else if str_eq(name, "GLOBALMSG") || str_eq(name, "STATUSMSG") {
        let message = pop_text(vm)?;
        if let Some(ctx) = context {
            if str_eq(name, "GLOBALMSG") {
                ctx.host_global_msg(message.as_str());
            } else {
                ctx.host_status_msg(message.as_str());
            }
        }
        assert(s.drop_last() =~= s.subrange(0, s.len() - 1));
        Ok(())
    } else if str_eq(name, "SUSRMSG") {
        let message = pop_text(vm)?;
        if let Some(ctx) = context {
            match ctx.security_level {
                SecurityLevel::Admin => {},
                _ => {
                    return Err(VmError::type_error("SUSRMSG requires admin privileges"));
                },
            }
            ctx.host_superuser_msg(message.as_str());
        }
        Ok(())
    } else if str_eq(name, "LOGMSG") {
        let message = pop_text(vm)?;
        if let Some(ctx) = context {
            ctx.host_log_msg(message.as_str());
        }
        assert(s.drop_last() =~= s.subrange(0, s.len() - 1));
        Ok(())
    } else {
        Err(VmError::undefined_function(name))
    }
}

} // verus!
