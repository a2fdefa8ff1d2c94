//! Stack manipulation built-ins.
use vstd::prelude::*;
use crate::iptscrae::builtins::{done, fail, follows, int_v, short, Outcome};
use crate::iptscrae::value::{display, int_of, type_id, Value, ValueModel};
use crate::iptscrae::vm::{Vm, VmError, VmErrorKind};
use crate::text::str_eq;

verus! {

/// What the stack built-ins do to a stack (see the function docs).
pub open spec fn stack_spec(name: Seq<char>, vm: Vm) -> Option<Outcome> {
    let s = vm.stack_model();
    let k = s.len() as int;
    if name == "DUP"@ {
        Some(if k == 0 { short() } else { done(s.push(s.last())) })
    } else if name == "DROP"@ || name == "POP"@ {
        Some(if k == 0 { short() } else { done(s.drop_last()) })
    } else if name == "SWAP"@ {
        Some(if k < 2 { short() } else { done(s.subrange(0, k - 2).push(s[k - 1]).push(s[k - 2])) })
    } else if name == "OVER"@ {
        Some(if k < 2 { fail(s, VmErrorKind::StackUnderflow) } else { done(s.push(s[k - 2])) })
    } else if name == "ROT"@ {
        Some(if k < 3 { fail(s, VmErrorKind::StackUnderflow) } else {
            done(s.subrange(0, k - 3).push(s[k - 2]).push(s[k - 1]).push(s[k - 3]))
        })
    } else if name == "PICK"@ {
        Some(if k == 0 { short() } else {
            let t = s.drop_last();
            let n = int_of(s.last()) as int;
            if n < 0 {
                fail(t, VmErrorKind::TypeError)
            } else if n >= t.len() {
                fail(t, VmErrorKind::StackUnderflow)
            } else {
                done(t.push(t[t.len() - 1 - n]))
            }
        })
    } else if name == "STACKDEPTH"@ {
        Some(done(s.push(int_v(k as i32))))
    } else if name == "TOPTYPE"@ {
        Some(if k == 0 { short() } else { done(s.push(int_v(type_id(s.last())))) })
    } else if name == "VARTYPE"@ {
        Some(if k == 0 { short() } else {
            done(s.drop_last().push(int_v(match vm.var(display(s.last())) {
                Some(v) => type_id(v),
                None => 0,
            })))
        })
    } else {
        None
    }
}

/// The stack a stack built-in leaves when it is known.
pub open spec fn stack_after(name: Seq<char>, vm: Vm) -> Seq<ValueModel> {
    stack_spec(name, vm).unwrap().stack
}

/// Laws of the stack built-ins, for any machine `vm` and any machine `w`
/// whose stack is what an earlier built-in on `vm` left:
/// DUP leaves the old stack with its top twice on it; DROP and POP take
/// exactly the top off; STACKDEPTH pushes the number of values; SWAP done
/// twice and ROT done three times give back the stack they started from;
/// OVER is PICK with index 1 and DUP is PICK with index 0.
pub proof fn lemma_stack_laws(vm: Vm, w: Vm, u: Vm)
    ensures
        vm.stack_model().len() > 0 ==> {
            let s = vm.stack_model();
            let d = stack_after("DUP"@, vm);
            &&& stack_spec("DUP"@, vm).unwrap().err.is_none()
            &&& d.len() == s.len() + 1
            &&& d.subrange(0, s.len() as int) == s
            &&& d[s.len() as int] == s[s.len() - 1]
            &&& stack_after("DROP"@, vm).push(s[s.len() - 1]) == s
            &&& stack_after("POP"@, vm) == stack_after("DROP"@, vm)
        },
        vm.stack_model().len() <= i32::MAX ==> stack_after("STACKDEPTH"@, vm)
            == vm.stack_model().push(ValueModel::Integer(vm.stack_model().len() as i32)),
        vm.stack_model().len() >= 2 && w.stack_model() == stack_after("SWAP"@, vm) ==> {
            &&& stack_spec("SWAP"@, w).unwrap().err.is_none()
            &&& stack_after("SWAP"@, w) == vm.stack_model()
        },
        vm.stack_model().len() >= 3 && w.stack_model() == stack_after("ROT"@, vm)
            && u.stack_model() == stack_after("ROT"@, w) ==> stack_after("ROT"@, u) == vm.stack_model(),
        vm.stack_model().len() >= 2 && w.stack_model() == vm.stack_model().push(ValueModel::Integer(1))
            ==> stack_spec("PICK"@, w) == stack_spec("OVER"@, vm),
        vm.stack_model().len() >= 1 && w.stack_model() == vm.stack_model().push(ValueModel::Integer(0))
            ==> stack_spec("PICK"@, w) == stack_spec("DUP"@, vm),
{
    reveal_strlit("DUP");
    reveal_strlit("DROP");
    reveal_strlit("POP");
    reveal_strlit("SWAP");
    reveal_strlit("OVER");
    reveal_strlit("ROT");
    reveal_strlit("PICK");
    reveal_strlit("STACKDEPTH");
    assert("DROP"@[1] != "DUP"@[1]);
    assert("POP"@[0] != "DUP"@[0] && "POP"@[0] != "DROP"@[0]);
    assert("SWAP"@[0] != "DUP"@[0] && "SWAP"@[0] != "DROP"@[0] && "SWAP"@[0] != "POP"@[0]);
    assert("OVER"@[0] != "DUP"@[0] && "OVER"@[0] != "DROP"@[0] && "OVER"@[0] != "POP"@[0]);
    assert("OVER"@[0] != "SWAP"@[0]);
    assert("ROT"@[0] != "DUP"@[0] && "ROT"@[0] != "DROP"@[0] && "ROT"@[0] != "POP"@[0]);
    assert("ROT"@[0] != "SWAP"@[0] && "ROT"@[0] != "OVER"@[0]);
    assert("PICK"@[0] != "DUP"@[0] && "PICK"@[0] != "DROP"@[0] && "PICK"@[1] != "POP"@[1]);
    assert("PICK"@[0] != "SWAP"@[0] && "PICK"@[0] != "OVER"@[0] && "PICK"@[0] != "ROT"@[0]);
    assert("STACKDEPTH"@[0] != "DUP"@[0] && "STACKDEPTH"@[0] != "DROP"@[0]);
    assert("STACKDEPTH"@[0] != "POP"@[0] && "STACKDEPTH"@[1] != "SWAP"@[1]);
    assert("STACKDEPTH"@[0] != "OVER"@[0] && "STACKDEPTH"@[0] != "ROT"@[0]);
    assert("STACKDEPTH"@[0] != "PICK"@[0]);
    let s = vm.stack_model();
    let k = s.len() as int;
    if k > 0 {
        assert(stack_after("DROP"@, vm).push(s[k - 1]) =~= s);
        assert(stack_after("DUP"@, vm).subrange(0, k) =~= s);
    }
    if k >= 2 && w.stack_model() == stack_after("SWAP"@, vm) {
        assert(stack_after("SWAP"@, w) =~= s);
    }
    if k >= 3 && w.stack_model() == stack_after("ROT"@, vm) && u.stack_model() == stack_after("ROT"@, w) {
        assert(stack_after("ROT"@, u) =~= s);
    }
    if k >= 2 && w.stack_model() == s.push(ValueModel::Integer(1)) {
        assert(w.stack_model().drop_last() =~= s);
    }
    if k >= 1 && w.stack_model() == s.push(ValueModel::Integer(0)) {
        assert(w.stack_model().drop_last() =~= s);
    }
}

/// Runs a stack built-in:
/// DUP (copy the top), DROP and POP (remove the top), SWAP (exchange the
/// top two), OVER (copy the second to the top), ROT (a b c to b c a), PICK
/// (copy the value n below the top, n popped), STACKDEPTH (push the
/// depth), TOPTYPE (push the top's type number), VARTYPE (pop a name and
/// push the type number of that variable, 0 when it is not set).
pub fn execute_stack_builtin(vm: &mut Vm, name: &str) -> (r: Result<(), VmError>)
    ensures
        follows(stack_spec(name@, *old(vm)), name@, r, old(vm).stack_model(), final(vm).stack_model()),
        final(vm).same_but_stack(old(vm)),
{
    if str_eq(name, "DUP") {
        let value = vm.peek("DUP")?;
        vm.push(value);
        Ok(())
    } else if str_eq(name, "DROP") || str_eq(name, "POP") {
        vm.pop("DROP")?;
        Ok(())
    } else if str_eq(name, "SWAP") {
        let ghost s = vm.stack_model();
        let a = vm.pop("SWAP first")?;
        let b = match vm.pop("SWAP second") {
            Ok(b) => b,
            Err(e) => {
                return Err(e);
            },
        };
        vm.push(a);
        vm.push(b);
        assert(vm.stack_model() =~= s.subrange(0, s.len() - 2).push(s[s.len() - 1]).push(s[s.len() - 2]));
        Ok(())
    } else if str_eq(name, "OVER") {
        if vm.stack_len() < 2 {
            return Err(VmError::underflow("OVER"));
        }
        let value = vm.stack_get(vm.stack_len() - 2).duplicate();
        vm.push(value);
        Ok(())
    } else if str_eq(name, "ROT") {
        if vm.stack_len() < 3 {
            return Err(VmError::underflow("ROT"));
        }
        let ghost s = vm.stack_model();
        let c = vm.pop("ROT")?;
        let b = vm.pop("ROT")?;
        let a = vm.pop("ROT")?;
        vm.push(b);
        vm.push(c);
        vm.push(a);
        assert(vm.stack_model() =~= s.subrange(0, s.len() - 3).push(s[s.len() - 2]).push(s[s.len() - 1]).push(s[s.len() - 3]));
        Ok(())
    } else if str_eq(name, "PICK") {
        let n = vm.pop("PICK")?.to_integer();
        if n < 0 {
            return Err(VmError::type_error("PICK index must be non-negative"));
        }
        let index = n as usize;
        if index >= vm.stack_len() {
            return Err(VmError::underflow("PICK"));
        }
        let value = vm.stack_get(vm.stack_len() - 1 - index).duplicate();
        vm.push(value);
        Ok(())
    } else if str_eq(name, "STACKDEPTH") {
        let depth = crate::iptscrae::builtins::usize_to_i32(vm.stack_len());
        vm.push(Value::Integer(depth));
        Ok(())
    } else if str_eq(name, "TOPTYPE") {
        let value = vm.peek("TOPTYPE")?;
        vm.push(Value::Integer(value.type_number()));
        Ok(())
    } else if str_eq(name, "VARTYPE") {
        let var_name = vm.pop("VARTYPE")?.to_string();
        proof {
            vm.lemma_frame_inner(old(vm));
        }
        let type_id = match vm.get_variable(var_name.as_str()) {
            Some(value) => value.type_number(),
            None => 0,
        };
        vm.push(Value::Integer(type_id));
        Ok(())
    } else {
        Err(VmError::undefined_function(name))
    }
}

} // verus!
