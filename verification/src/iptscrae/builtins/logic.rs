//! Logic built-ins.
use vstd::prelude::*;
use crate::iptscrae::builtins::{done, flag_v, follows, short, Outcome};
use crate::iptscrae::value::{truthy, Value, ValueModel};
use crate::iptscrae::ast::BinOp;
use crate::iptscrae::vm::{binop_result, Vm, VmError};
use crate::text::str_eq;

verus! {

/// What the logic built-ins do to a stack.
pub open spec fn logic_spec(name: Seq<char>, vm: Vm) -> Option<Outcome> {
    let s = vm.stack_model();
    let k = s.len() as int;
    if name == "AND"@ || name == "OR"@ || name == "XOR"@ {
        Some(if k < 2 { short() } else {
            let a = truthy(s[k - 2]);
            let b = truthy(s[k - 1]);
            done(s.subrange(0, k - 2).push(flag_v(
                if name == "AND"@ { a && b } else if name == "OR"@ { a || b } else { a != b },
            )))
        })
    } else if name == "NOT"@ {
        Some(if k == 0 { short() } else { done(s.drop_last().push(flag_v(!truthy(s.last())))) })
    } else {
        None
    }
}

/// The stack a logic built-in leaves when it is known.
pub open spec fn logic_after(name: Seq<char>, vm: Vm) -> Seq<ValueModel> {
    logic_spec(name, vm).unwrap().stack
}

/// Laws of the logic built-ins: with two values on the stack, AND, OR and
/// XOR replace them with what the operators `AND`, `OR` and `XOR` give on
/// them; NOT replaces the top with 1 when it is false and 0 when it is
/// true, and for any machine `w` whose stack is what NOT left on `vm`, NOT
/// again leaves 1 exactly where the old top was true.
pub proof fn lemma_logic_builtins(vm: Vm, w: Vm)
    ensures
        vm.stack_model().len() >= 2 ==> {
            let s = vm.stack_model();
            let k = s.len() as int;
            let rest = s.subrange(0, k - 2);
            &&& logic_after("AND"@, vm) == rest.push(binop_result(BinOp::And, s[k - 2], s[k - 1])->Ok_0)
            &&& logic_after("OR"@, vm) == rest.push(binop_result(BinOp::Or, s[k - 2], s[k - 1])->Ok_0)
            &&& logic_after("XOR"@, vm) == rest.push(binop_result(BinOp::Xor, s[k - 2], s[k - 1])->Ok_0)
            &&& logic_spec("AND"@, vm).unwrap().err.is_none()
            &&& logic_spec("OR"@, vm).unwrap().err.is_none()
            &&& logic_spec("XOR"@, vm).unwrap().err.is_none()
        },
        vm.stack_model().len() >= 1 ==> {
            let s = vm.stack_model();
            &&& logic_spec("NOT"@, vm).unwrap().err.is_none()
            &&& logic_after("NOT"@, vm).drop_last() == s.drop_last()
            &&& logic_after("NOT"@, vm).last() == ValueModel::Integer(if truthy(s.last()) { 0i32 } else { 1i32 })
            &&& w.stack_model() == logic_after("NOT"@, vm) ==> logic_after("NOT"@, w)
                == s.drop_last().push(ValueModel::Integer(if truthy(s.last()) { 1i32 } else { 0i32 }))
        },
{
    reveal_strlit("AND");
    reveal_strlit("OR");
    reveal_strlit("XOR");
    reveal_strlit("NOT");
    assert("OR"@[0] != "AND"@[0] && "XOR"@[0] != "AND"@[0] && "XOR"@[0] != "OR"@[0]);
    assert("NOT"@[0] != "AND"@[0] && "NOT"@[0] != "OR"@[0] && "NOT"@[0] != "XOR"@[0]);
    let s = vm.stack_model();
    if s.len() >= 1 {
        assert(logic_after("NOT"@, vm).drop_last() =~= s.drop_last());
        if w.stack_model() == logic_after("NOT"@, vm) {
            assert(w.stack_model().drop_last() =~= s.drop_last());
        }
    }
}

fn flag(b: bool) -> (v: Value)
    ensures
        v.model() == flag_v(b),
{
    if b { Value::Integer(1) } else { Value::Integer(0) }
}

/// Runs a logic built-in: AND, OR and XOR pop two values and push 1 or 0
/// for their truth; NOT pops one and pushes 1 when it is false.
pub fn execute_logic_builtin(vm: &mut Vm, name: &str) -> (r: Result<(), VmError>)
    ensures
        follows(logic_spec(name@, *old(vm)), name@, r, old(vm).stack_model(), final(vm).stack_model()),
        final(vm).same_but_stack(old(vm)),
{
    let is_and = str_eq(name, "AND");
    let is_or = str_eq(name, "OR");
    let is_xor = str_eq(name, "XOR");
    if is_and || is_or || is_xor {
        let ghost s = vm.stack_model();
        let right = vm.pop("logic right")?.to_bool();
        let left = match vm.pop("logic left") {
            Ok(v) => v.to_bool(),
            Err(e) => {
                return Err(e);
            },
        };
        let result = if is_and { left && right } else if is_or { left || right } else { left != right };
        vm.push(flag(result));
        assert(s.drop_last().drop_last() =~= s.subrange(0, s.len() - 2));
        Ok(())
    } else if str_eq(name, "NOT") {
        let value = vm.pop("NOT")?.to_bool();
        vm.push(flag(!value));
        Ok(())
    } else {
        Err(VmError::undefined_function(name))
    }
}

} // verus!
