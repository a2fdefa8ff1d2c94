//! System built-ins.
use vstd::prelude::*;
use std::time::{Duration, SystemTime};
use crate::iptscrae::builtins::{done, follows, int_v, Outcome};
use crate::iptscrae::builtins::palace::{discard, pop_int, pop_n, pop_push, pop_text, top_int, view_of};
use crate::iptscrae::context::{call_if, CtxView, HostCall, ScriptActions, ScriptContext};
use crate::iptscrae::value::{display, Value, ValueModel};
use crate::iptscrae::vm::{Vm, VmError};
use crate::text::{copy_string, str_eq, string_from, u64_to_string};

verus! {

/// `std::time::SystemTime`, held opaque.
#[verifier::external_type_specification]
#[verifier::external_body]
pub struct ExSystemTime(SystemTime);

/// `SystemTime::now`: the current time of the system clock. Nothing is
/// stated of it.
#[verifier::external_body]
fn system_now() -> SystemTime {
    SystemTime::now()
}

/// `SystemTime::duration_since(UNIX_EPOCH)`: the time since the Unix
/// epoch, or `None` for a clock set before it. Nothing is stated of it.
#[verifier::external_body]
fn since_epoch(t: &SystemTime) -> Option<Duration> {
    t.duration_since(SystemTime::UNIX_EPOCH).ok()
}

/// `Duration::as_secs`. Durations are held opaque here, so nothing is
/// stated of the result.
#[verifier::external_body]
fn duration_secs(d: &Duration) -> u64 {
    d.as_secs()
}

/// `Duration::as_millis`. Durations are held opaque here, so nothing is
/// stated of the result.
#[verifier::external_body]
fn duration_millis(d: &Duration) -> u128 {
    d.as_millis()
}

/// Whether a built-in reads the clock (DATETIME pushes the seconds since
/// the Unix epoch as text, TICKS the milliseconds as an integer).
pub open spec fn reads_clock(name: Seq<char>) -> bool {
    name == "DATETIME"@ || name == "TICKS"@
}

/// What the system built-ins other than the clock readers do to the stack.
pub open spec fn system_spec(name: Seq<char>, vm: Vm, c: Option<CtxView>) -> Option<Outcome> {
    let s = vm.stack_model();
    if name == "MACRO"@ || name == "DELAY"@ || name == "SOUND"@ || name == "MIDIPLAY"@ {
        Some(pop_n(s, 1))
    } else if name == "SERVERNAME"@ {
        Some(done(s.push(ValueModel::Str(match c { Some(v) => v.server_name, None => "localhost"@ }))))
    } else if name == "CLIENTTYPE"@ {
        Some(done(s.push(ValueModel::Str("Palace"@))))
    } else if name == "IPTVERSION"@ {
        Some(done(s.push(int_v(1))))
    } else if name == "GLOBAL"@ {
        Some(if s.len() == 0 { pop_n(s, 1) } else {
            pop_push(s, 1, match vm.var(display(s.last())) {
                Some(v) => v,
                None => ValueModel::Integer(0),
            })
        })
    } else if name == "ID"@ {
        Some(done(s.push(int_v(match c { Some(v) => v.user_id, None => 0 }))))
    } else if name == "MIDISTOP"@ || name == "BEEP"@ {
        Some(done(s))
    } else {
        None
    }
}

/// The calls of the host that a system built-in makes with a context:
/// SOUND and MIDIPLAY pass the popped ID on, MIDISTOP and BEEP call the
/// host; the others call nothing.
pub open spec fn system_calls(name: Seq<char>, vm: Vm) -> Seq<HostCall> {
    let s = vm.stack_model();
    if name == "DATETIME"@ || name == "TICKS"@ || name == "MACRO"@ || name == "DELAY"@ {
        Seq::empty()
    } else if name == "SOUND"@ {
        call_if(s.len() >= 1, HostCall::PlaySound(top_int(s, 0)))
    } else if name == "MIDIPLAY"@ {
        call_if(s.len() >= 1, HostCall::PlayMidi(top_int(s, 0)))
    } else if name == "SERVERNAME"@ || name == "CLIENTTYPE"@ || name == "IPTVERSION"@ || name == "GLOBAL"@
        || name == "ID"@ {
        Seq::empty()
    } else if name == "MIDISTOP"@ {
        seq![HostCall::StopMidi]
    } else if name == "BEEP"@ {
        seq![HostCall::Beep]
    } else {
        Seq::empty()
    }
}

fn clock_secs() -> u64 {
    let now = system_now();
    match since_epoch(&now) {
        Some(d) => duration_secs(&d),
        None => 0,
    }
}

fn clock_millis() -> u128 {
    let now = system_now();
    match since_epoch(&now) {
        Some(d) => duration_millis(&d),
        None => 0,
    }
}

/// Runs a system built-in: MACRO, DELAY (pop one), SOUND and MIDIPLAY
/// (pop an ID and play it), SERVERNAME, CLIENTTYPE ("Palace"), IPTVERSION
/// (1), GLOBAL (pop a name, push that variable or 0), ID (the user), MIDISTOP,
/// BEEP; DATETIME and TICKS push a reading of the clock: a text, or an
/// integer.
pub fn execute_system_builtin<A: ScriptActions + ?Sized>(
    vm: &mut Vm,
    name: &str,
    context: Option<&mut ScriptContext<A>>,
) -> (r: Result<(), VmError>)
    ensures
        final(vm).same_but_stack(old(vm)),
        reads_clock(name@) ==> (r is Ok && final(vm).stack_model().drop_last() == old(vm).stack_model()
            && final(vm).stack_model().len() == old(vm).stack_model().len() + 1
            && (if name@ == "DATETIME"@ { final(vm).stack_model().last() is Str } else { final(vm).stack_model().last() is Integer })),
        !reads_clock(name@) ==> follows(system_spec(name@, *old(vm), view_of(context)), name@, r, old(vm).stack_model(), final(vm).stack_model()),
        match context {
            Some(c) => final(c).view() == c.view().called(system_calls(name@, *old(vm))),
            None => true,
        },
{
    let ghost s = vm.stack_model();
    if str_eq(name, "DATETIME") {
        let secs = clock_secs();
        vm.push(Value::String(u64_to_string(secs)));
        Ok(())
    } else if str_eq(name, "TICKS") {
        let millis = clock_millis();
        vm.push(Value::Integer(millis as i32));
        Ok(())
    } else if str_eq(name, "MACRO") || str_eq(name, "DELAY") {
        discard(vm, 1)
    } else if str_eq(name, "SOUND") || str_eq(name, "MIDIPLAY") {
        let id = pop_int(vm)?;
        if let Some(ctx) = context {
            if str_eq(name, "SOUND") {
                ctx.host_play_sound(id);
            } else if str_eq(name, "MIDIPLAY") {
                ctx.host_play_midi(id);
            }
        }
        assert(s.drop_last() =~= s.subrange(0, s.len() - 1));
        Ok(())
    } else if str_eq(name, "SERVERNAME") {
        let v = match context { Some(ctx) => copy_string(&ctx.server_name), None => string_from("localhost") };
        vm.push(Value::String(v));
        Ok(())
    } else if str_eq(name, "CLIENTTYPE") {
        vm.push(Value::String(string_from("Palace")));
        Ok(())
    } else if str_eq(name, "IPTVERSION") {
        vm.push(Value::Integer(1));
        Ok(())
    } else if str_eq(name, "GLOBAL") {
        let var_name = pop_text(vm)?;
        proof {
            vm.lemma_frame_inner(old(vm));
        }
        let v = match vm.get_variable(var_name.as_str()) {
            Some(value) => value.duplicate(),
            None => Value::Integer(0),
        };
        vm.push(v);
        assert(s.drop_last() =~= s.subrange(0, s.len() - 1));
        Ok(())
    } else if str_eq(name, "ID") {
        let v = match context { Some(ctx) => ctx.user_id, None => 0 };
        vm.push(Value::Integer(v));
        Ok(())
    } else if str_eq(name, "MIDISTOP") || str_eq(name, "BEEP") {
        if let Some(ctx) = context {
            if str_eq(name, "MIDISTOP") {
                ctx.host_stop_midi();
            } else {
                ctx.host_beep();
            }
        }
        Ok(())
    } else {
        Err(VmError::undefined_function(name))
    }
}

} // verus!
