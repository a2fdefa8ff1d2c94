//! Array built-ins.
use vstd::prelude::*;
use vstd::utf8::encode_utf8;
use crate::iptscrae::builtins::{done, fail, follows, int_v, short, Outcome};
use crate::iptscrae::value::{int_of, lemma_models, lemma_models_ext, models, Value, ValueModel};
use crate::iptscrae::vm::{Vm, VmError, VmErrorKind};
use crate::text::{str_eq, str_len};

verus! {

/// An array of `n` zeros.
pub open spec fn zeros(n: nat) -> Seq<ValueModel> {
    Seq::new(n, |i: int| ValueModel::Integer(0))
}

/// What the array built-ins do to a stack.
pub open spec fn array_spec(name: Seq<char>, vm: Vm) -> Option<Outcome> {
    let s = vm.stack_model();
    let k = s.len() as int;
    if name == "ARRAY"@ {
        Some(if k == 0 { short() } else {
            let n = int_of(s.last());
            if n < 0 {
                fail(s.drop_last(), VmErrorKind::TypeError)
            } else {
                done(s.drop_last().push(ValueModel::Array(zeros(n as nat))))
            }
        })
    } else if name == "GET"@ {
        Some(if k < 2 { short() } else {
            let index = int_of(s[k - 1]);
            let rest = s.subrange(0, k - 2);
            match s[k - 2] {
                ValueModel::Array(a) => if index < 0 || index >= (a.len() as i32) {
                    fail(rest, VmErrorKind::TypeError)
                } else {
                    done(rest.push(a[index as int]))
                },
                _ => fail(rest, VmErrorKind::TypeError),
            }
        })
    } else if name == "PUT"@ {
        Some(if k < 3 { short() } else {
            let index = int_of(s[k - 2]);
            let rest = s.subrange(0, k - 3);
            match s[k - 3] {
                ValueModel::Array(a) => if index < 0 || index >= (a.len() as i32) {
                    fail(rest, VmErrorKind::TypeError)
                } else {
                    done(rest.push(ValueModel::Array(a.update(index as int, s[k - 1]))))
                },
                _ => fail(rest, VmErrorKind::TypeError),
            }
        })
    } else if name == "LENGTH"@ {
        Some(if k == 0 { short() } else {
            done(s.drop_last().push(int_v(match s.last() {
                ValueModel::Array(a) => a.len() as i32,
                ValueModel::Str(t) => encode_utf8(t).len() as i32,
                ValueModel::Integer(_) => 0,
            })))
        })
    } else {
        None
    }
}

/// The stack an array built-in leaves when it is known.
pub open spec fn array_after(name: Seq<char>, vm: Vm) -> Seq<ValueModel> {
    array_spec(name, vm).unwrap().stack
}

/// Laws of the array built-ins. ARRAY of a size `n >= 0` pushes `n`
/// zeros, and LENGTH of that array is `n`. PUT at an index inside the
/// array succeeds, and GET on the array it left reads back the value put
/// at that index and the old element at every other index inside it;
/// here `w` is any machine whose stack is what ARRAY or PUT left on `vm`,
/// and `u` one whose stack is what PUT left with an index `j` on top.
pub proof fn lemma_array_laws(vm: Vm, w: Vm, u: Vm, j: i32)
    ensures
        ({
            let s = vm.stack_model();
            s.len() >= 1 && int_of(s.last()) >= 0 ==> {
                let n = int_of(s.last());
                &&& array_spec("ARRAY"@, vm).unwrap().err.is_none()
                &&& array_after("ARRAY"@, vm).drop_last() == s.drop_last()
                &&& array_after("ARRAY"@, vm).last() matches ValueModel::Array(a)
                    && a.len() == n && forall|x: int| 0 <= x < n ==> #[trigger] a[x] == ValueModel::Integer(0)
                &&& w.stack_model() == array_after("ARRAY"@, vm) ==> array_after("LENGTH"@, w)
                    == s.drop_last().push(ValueModel::Integer(n))
            }
        }),
        ({
            let s = vm.stack_model();
            let k = s.len() as int;
            k >= 3 && s[k - 3] is Array && s[k - 3]->Array_0.len() <= i32::MAX
                && 0 <= int_of(s[k - 2]) < s[k - 3]->Array_0.len() ==> {
                let a = s[k - 3]->Array_0;
                let i = int_of(s[k - 2]) as int;
                &&& array_spec("PUT"@, vm).unwrap().err.is_none()
                &&& u.stack_model() == array_after("PUT"@, vm).push(ValueModel::Integer(j))
                    && 0 <= j < a.len() ==> {
                    &&& array_spec("GET"@, u).unwrap().err.is_none()
                    &&& array_after("GET"@, u) == s.subrange(0, k - 3).push(
                        if j == i { s[k - 1] } else { a[j as int] })
                }
            }
        }),
{
    reveal_strlit("ARRAY");
    reveal_strlit("GET");
    reveal_strlit("PUT");
    reveal_strlit("LENGTH");
    assert("GET"@[0] != "ARRAY"@[0] && "PUT"@[0] != "ARRAY"@[0] && "PUT"@[0] != "GET"@[0]);
    assert("LENGTH"@[0] != "ARRAY"@[0] && "LENGTH"@[0] != "GET"@[0] && "LENGTH"@[0] != "PUT"@[0]);
    let s = vm.stack_model();
    let k = s.len() as int;
    if k >= 1 && int_of(s.last()) >= 0 {
        if w.stack_model() == array_after("ARRAY"@, vm) {
            assert(w.stack_model().drop_last() =~= s.drop_last());
        }
    }
    if k >= 3 && s[k - 3] is Array && s[k - 3]->Array_0.len() <= i32::MAX
        && 0 <= int_of(s[k - 2]) < s[k - 3]->Array_0.len() {
        if u.stack_model() == array_after("PUT"@, vm).push(ValueModel::Integer(j)) {
            let t = u.stack_model();
            assert(t.subrange(0, t.len() - 2) =~= s.subrange(0, k - 3));
        }
    }
}

/// Runs an array built-in: ARRAY (pop a size, push an array of that many
/// zeros), GET (pop an index and an array, push the element), PUT (pop a
/// value, an index and an array, push the array with that element
/// replaced), LENGTH (pop a value, push an array's length, a string's
/// length in bytes, or 0 for an integer). A negative size, an index out of
/// bounds or a value that is not an array is a type error.
pub fn execute_array_builtin(vm: &mut Vm, name: &str) -> (r: Result<(), VmError>)
    ensures
        follows(array_spec(name@, *old(vm)), name@, r, old(vm).stack_model(), final(vm).stack_model()),
        final(vm).same_but_stack(old(vm)),
{
    let ghost s = vm.stack_model();
    if str_eq(name, "ARRAY") {
        let size = vm.pop("ARRAY")?.to_integer();
        if size < 0 {
            return Err(VmError::type_error("ARRAY size must be non-negative"));
        }
        let mut arr: Vec<Value> = Vec::new();
        let n = size as usize;
        let mut i: usize = 0;
        while i < n
            invariant
                i <= n,
                arr@.len() == i,
                forall|j: int| 0 <= j < i ==> #[trigger] arr@[j].model() == ValueModel::Integer(0),
            decreases n - i,
        {
            arr.push(Value::Integer(0));
            i = i + 1;
        }
        proof {
            lemma_models(arr@);
            assert(models(arr@) =~= zeros(size as nat));
        }
        vm.push(Value::Array(arr));
        Ok(())
    } else if str_eq(name, "GET") {
        let index = vm.pop("GET index")?.to_integer();
        let array = match vm.pop("GET array") {
            Ok(a) => a,
            Err(e) => {
                return Err(e);
            },
        };
        assert(s.drop_last().drop_last() =~= s.subrange(0, s.len() - 2));
        match &array {
            Value::Array(arr) => {
                proof {
                    lemma_models(arr@);
                }
                if index < 0 || index >= arr.len() as i32 {
                    return Err(VmError::type_error("Array index out of bounds"));
                }
                let v = arr[index as usize].duplicate();
                vm.push(v);
                Ok(())
            },
            _ => Err(VmError::type_error("GET requires an array")),
        }
    } else if str_eq(name, "PUT") {
        let value = vm.pop("PUT value")?;
        let index = match vm.pop("PUT index") {
            Ok(v) => v.to_integer(),
            Err(e) => {
                return Err(e);
            },
        };
        let array = match vm.pop("PUT array") {
            Ok(a) => a,
            Err(e) => {
                return Err(e);
            },
        };
        assert(s.drop_last().drop_last().drop_last() =~= s.subrange(0, s.len() - 3));
        match array {
            Value::Array(mut arr) => {
                proof {
                    lemma_models(arr@);
                }
                if index < 0 || index >= arr.len() as i32 {
                    return Err(VmError::type_error("Array index out of bounds"));
                }
                let ghost before = arr@;
                let ghost vmodel = value.model();
                arr.set(index as usize, value);
                proof {
                    lemma_models(arr@);
                    assert(models(arr@) =~= models(before).update(index as int, vmodel));
                }
                vm.push(Value::Array(arr));
                Ok(())
            },
            _ => Err(VmError::type_error("PUT requires an array")),
        }
    } else if str_eq(name, "LENGTH") {
        let value = vm.pop("LENGTH")?;
        let length = match &value {
            Value::Array(arr) => {
                proof {
                    lemma_models(arr@);
                }
                arr.len() as i32
            },
            Value::String(t) => str_len(t.as_str()) as i32,
            Value::Integer(_) => 0,
        };
        vm.push(Value::Integer(length));
        Ok(())
    } else {
        Err(VmError::undefined_function(name))
    }
}

} // verus!
