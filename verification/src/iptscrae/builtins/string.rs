//! String built-ins.
use vstd::prelude::*;
use vstd::utf8::encode_utf8;
use crate::iptscrae::builtins::{done, flag_v, follows, int_v, short, Outcome};
use crate::iptscrae::value::{display, int_of, Value, ValueModel};
use crate::iptscrae::vm::{Vm, VmError};
use crate::text::{
    contains_text, decimal, find_chars, first_occurrence, i32_to_string, lemma_first_occurrence_some,
    lemma_first_occurrence_shape, lemma_parse_decimal, occurs_at,
    lower_text, str_chars, str_eq, str_len, string_of, to_lowercase, to_uppercase, upper_text,
};

verus! {

/// The smaller of two integers.
pub open spec fn min_int(a: int, b: int) -> int {
    if a < b { a } else { b }
}

/// What the string built-ins do to a stack.
pub open spec fn string_spec(name: Seq<char>, vm: Vm) -> Option<Outcome> {
    let s = vm.stack_model();
    let k = s.len() as int;
    if name == "ITOA"@ {
        Some(if k == 0 { short() } else { done(s.drop_last().push(ValueModel::Str(decimal(int_of(s.last()) as int)))) })
    } else if name == "ATOI"@ {
        Some(if k == 0 { short() } else { done(s.drop_last().push(int_v(int_of(s.last())))) })
    } else if name == "STRLEN"@ {
        Some(if k == 0 { short() } else { done(s.drop_last().push(int_v(encode_utf8(display(s.last())).len() as i32))) })
    } else if name == "UPPERCASE"@ {
        Some(if k == 0 { short() } else { done(s.drop_last().push(ValueModel::Str(upper_text(display(s.last()))))) })
    } else if name == "LOWERCASE"@ {
        Some(if k == 0 { short() } else { done(s.drop_last().push(ValueModel::Str(lower_text(display(s.last()))))) })
    } else if name == "SUBSTR"@ {
        Some(if k < 2 { short() } else {
            done(s.subrange(0, k - 2).push(flag_v(contains_text(display(s[k - 2]), display(s[k - 1])))))
        })
    } else if name == "SUBSTRING"@ {
        Some(if k < 3 { short() } else {
            let t = display(s[k - 3]);
            let start = int_of(s[k - 2]) as int;
            let length = int_of(s[k - 1]) as int;
            let rest = s.subrange(0, k - 3);
            if start < 0 || length < 0 {
                done(rest.push(ValueModel::Str(Seq::empty())))
            } else {
                done(rest.push(ValueModel::Str(t.subrange(min_int(start, t.len() as int), min_int(start + length, t.len() as int)))))
            }
        })
    } else if name == "STRINDEX"@ {
        Some(if k < 2 { short() } else {
            let h = display(s[k - 2]);
            done(s.subrange(0, k - 2).push(int_v(match first_occurrence(h, display(s[k - 1])) {
                Some(i) => encode_utf8(h.subrange(0, i)).len() as i32,
                None => -1i32,
            })))
        })
    } else {
        None
    }
}

/// The stack a string built-in leaves when it is known.
pub open spec fn string_after(name: Seq<char>, vm: Vm) -> Seq<ValueModel> {
    string_spec(name, vm).unwrap().stack
}

/// Laws of the string built-ins, for any machine `vm` with a haystack and
/// a needle on top of its stack: SUBSTR pushes 1 exactly when the needle's
/// text occurs somewhere in the haystack's text and 0 otherwise; where it
/// does not occur STRINDEX pushes -1, and where it does STRINDEX pushes the
/// UTF-8 length of the text before the first place where it occurs.
/// And for any machine `w` whose stack is what ITOA left on `vm`, ATOI
/// gives back the integer that ITOA was given.
pub proof fn lemma_string_laws(vm: Vm, w: Vm)
    ensures
        vm.stack_model().len() >= 2 ==> {
            let s = vm.stack_model();
            let k = s.len() as int;
            let h = display(s[k - 2]);
            let n = display(s[k - 1]);
            let found = exists|i: int| 0 <= i && i + n.len() <= h.len() && #[trigger] h.subrange(i, i + n.len()) == n;
            &&& string_spec("SUBSTR"@, vm).unwrap().err.is_none()
            &&& string_after("SUBSTR"@, vm) == s.subrange(0, k - 2).push(
                ValueModel::Integer(if found { 1i32 } else { 0i32 }))
            &&& string_spec("STRINDEX"@, vm).unwrap().err.is_none()
            &&& string_after("STRINDEX"@, vm).subrange(0, k - 2) == s.subrange(0, k - 2)
            &&& string_after("STRINDEX"@, vm).len() == k - 1
            &&& !found ==> string_after("STRINDEX"@, vm)[k - 2] == ValueModel::Integer(-1i32)
            &&& found ==> exists|i: int| {
                &&& 0 <= i && i + n.len() <= h.len() && #[trigger] h.subrange(i, i + n.len()) == n
                &&& forall|j: int| 0 <= j < i ==> #[trigger] h.subrange(j, j + n.len()) != n
                &&& string_after("STRINDEX"@, vm)[k - 2]
                    == ValueModel::Integer(encode_utf8(h.subrange(0, i)).len() as i32)
            }
        },
        vm.stack_model().len() >= 1 && w.stack_model() == string_after("ITOA"@, vm)
            ==> string_after("ATOI"@, w) == vm.stack_model().drop_last().push(
                ValueModel::Integer(int_of(vm.stack_model().last()))),
{
    reveal_strlit("ITOA");
    reveal_strlit("ATOI");
    reveal_strlit("SUBSTR");
    reveal_strlit("SUBSTRING");
    reveal_strlit("STRINDEX");
    reveal_strlit("STRLEN");
    reveal_strlit("UPPERCASE");
    reveal_strlit("LOWERCASE");
    assert("ATOI"@[0] != "ITOA"@[0]);
    assert("SUBSTR"@[0] != "ITOA"@[0] && "SUBSTR"@[0] != "ATOI"@[0] && "SUBSTR"@[1] != "STRLEN"@[1]);
    assert("SUBSTR"@[0] != "UPPERCASE"@[0] && "SUBSTR"@[0] != "LOWERCASE"@[0]);
    assert("STRINDEX"@[0] != "ITOA"@[0] && "STRINDEX"@[0] != "ATOI"@[0] && "STRINDEX"@[3] != "STRLEN"@[3]);
    assert("STRINDEX"@[0] != "UPPERCASE"@[0] && "STRINDEX"@[0] != "LOWERCASE"@[0]);
    assert("STRINDEX"@[1] != "SUBSTR"@[1] && "STRINDEX"@[1] != "SUBSTRING"@[1]);
    let s = vm.stack_model();
    let k = s.len() as int;
    if k >= 2 {
        let h = display(s[k - 2]);
        let n = display(s[k - 1]);
        lemma_first_occurrence_some(h, n);
        assert(contains_text(h, n) == exists|i: int| 0 <= i && i + n.len() <= h.len() && #[trigger] h.subrange(i, i + n.len()) == n) by {
            if contains_text(h, n) {
                let i = choose|i: int| occurs_at(h, n, i);
                assert(h.subrange(i, i + n.len()) == n);
            }
            if exists|i: int| 0 <= i && i + n.len() <= h.len() && #[trigger] h.subrange(i, i + n.len()) == n {
                let i = choose|i: int| 0 <= i && i + n.len() <= h.len() && #[trigger] h.subrange(i, i + n.len()) == n;
                assert(occurs_at(h, n, i));
            }
        }
        if contains_text(h, n) {
            let i = lemma_first_occurrence_shape(h, n);
            assert(string_after("STRINDEX"@, vm)[k - 2]
                == ValueModel::Integer(encode_utf8(h.subrange(0, i)).len() as i32));
            assert(forall|j: int| 0 <= j < i ==> #[trigger] h.subrange(j, j + n.len()) != n) by {
                assert forall|j: int| 0 <= j < i implies #[trigger] h.subrange(j, j + n.len()) != n by {
                    assert(!occurs_at(h, n, j));
                }
            }
        }
    }
    if k >= 1 && w.stack_model() == string_after("ITOA"@, vm) {
        lemma_parse_decimal(int_of(s.last()));
    }
}

/// Pops a needle and then a haystack, and gives the characters of their
/// texts (haystack first).
fn pop_texts(vm: &mut Vm) -> (r: Result<(Vec<char>, Vec<char>), VmError>)
    ensures
        final(vm).same_but_stack(old(vm)),
        ({
            let s = old(vm).stack_model();
            if s.len() < 2 {
                r matches Err(e) && e.kind() == crate::iptscrae::vm::VmErrorKind::StackUnderflow
                    && final(vm).stack_model() == Seq::<ValueModel>::empty()
            } else {
                r matches Ok((h, n)) && h@ == display(s[s.len() - 2]) && n@ == display(s[s.len() - 1])
                    && final(vm).stack_model() == s.subrange(0, s.len() - 2)
            }
        }),
{
    let ghost s = vm.stack_model();
    let needle = vm.pop("needle")?.to_string();
    let haystack = match vm.pop("haystack") {
        Ok(v) => v.to_string(),
        Err(e) => {
            return Err(e);
        },
    };
    assert(s.drop_last().drop_last() =~= s.subrange(0, s.len() - 2));
    Ok((str_chars(haystack.as_str()), str_chars(needle.as_str())))
}

/// Runs a string built-in: ITOA (decimal text of a value's integer), ATOI
/// (a value's integer), STRLEN (length in bytes of a value's text),
/// UPPERCASE and LOWERCASE, SUBSTR (pop a needle and a haystack, push 1
/// when the needle occurs), SUBSTRING (pop a length, a start and a text,
/// push the characters from the start, at most that many, or an empty text
/// for a negative start or length), STRINDEX (pop a needle and a haystack,
/// push the byte index of the first occurrence, or -1).
pub fn execute_string_builtin(vm: &mut Vm, name: &str) -> (r: Result<(), VmError>)
    ensures
        follows(string_spec(name@, *old(vm)), name@, r, old(vm).stack_model(), final(vm).stack_model()),
        final(vm).same_but_stack(old(vm)),
{
    let ghost s = vm.stack_model();
    if str_eq(name, "ITOA") {
        let value = vm.pop("ITOA")?;
        vm.push(Value::String(i32_to_string(value.to_integer())));
        Ok(())
    } else if str_eq(name, "ATOI") {
        let value = vm.pop("ATOI")?;
        vm.push(Value::Integer(value.to_integer()));
        Ok(())
    } else if str_eq(name, "STRLEN") {
        let value = vm.pop("STRLEN")?;
        let t = value.to_string();
        let n = str_len(t.as_str());
        vm.push(Value::Integer(n as i32));
        Ok(())
    } else if str_eq(name, "UPPERCASE") {
        let value = vm.pop("UPPERCASE")?;
        let t = value.to_string();
        vm.push(Value::String(to_uppercase(t.as_str())));
        Ok(())
    } else if str_eq(name, "LOWERCASE") {
        let value = vm.pop("LOWERCASE")?;
        let t = value.to_string();
        vm.push(Value::String(to_lowercase(t.as_str())));
        Ok(())
    } else if str_eq(name, "SUBSTR") {
        let (h, n) = pop_texts(vm)?;
        let found = find_chars(h.as_slice(), n.as_slice());
        proof {
            lemma_first_occurrence_some(h@, n@);
        }
        let flag = match found {
            Some(_) => Value::Integer(1),
            None => Value::Integer(0),
        };
        vm.push(flag);
        Ok(())
    } else if str_eq(name, "SUBSTRING") {
        let length = vm.pop("SUBSTRING length")?.to_integer();
        let start = match vm.pop("SUBSTRING start") {
            Ok(v) => v.to_integer(),
            Err(e) => {
                return Err(e);
            },
        };
        let text = match vm.pop("SUBSTRING string") {
            Ok(v) => v.to_string(),
            Err(e) => {
                return Err(e);
            },
        };
        assert(s.drop_last().drop_last().drop_last() =~= s.subrange(0, s.len() - 3));
        if start < 0 || length < 0 {
            vm.push(Value::String(String::new()));
            return Ok(());
        }
        let cs = str_chars(text.as_str());
        let from: usize = if (start as usize) < cs.len() { start as usize } else { cs.len() };
        let want: u64 = start as u64 + length as u64;
        let to: usize = if want < cs.len() as u64 { want as usize } else { cs.len() };
        let piece = string_of(&cs.as_slice()[from..to]);
        assert(piece@ =~= cs@.subrange(from as int, to as int));
        vm.push(Value::String(piece));
        Ok(())
    } else if str_eq(name, "STRINDEX") {
        let (h, n) = pop_texts(vm)?;
        let found = find_chars(h.as_slice(), n.as_slice());
        let index = match found {
            Some(i) => {
                let prefix = string_of(&h.as_slice()[0..i]);
                assert(prefix@ =~= h@.subrange(0, i as int));
                str_len(prefix.as_str()) as i32
            },
            None => -1,
        };
        vm.push(Value::Integer(index));
        Ok(())
    } else {
        Err(VmError::undefined_function(name))
    }
}

} // verus!
