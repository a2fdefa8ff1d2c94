//! Prop built-ins.
use vstd::prelude::*;
use crate::iptscrae::builtins::{done, fail, flag_v, follows, int_v, short, usize_to_i32, Outcome};
use crate::iptscrae::builtins::palace::{pop_int, pop_n, pop_push, push_pair, top_int, view_of, discard};
use crate::iptscrae::context::{call_if, CtxView, HostCall, ScriptActions, ScriptContext};
use crate::iptscrae::value::{int_of, Value, ValueModel};
use crate::iptscrae::vm::{Vm, VmError, VmErrorKind};
use crate::text::str_eq;
use crate::AssetSpec;

verus! {

/// The CRC (as an `i32`) and the ID of each prop, in order.
pub open spec fn prop_ints(props: Seq<AssetSpec>) -> Seq<ValueModel>
    decreases props.len(),
{
    if props.len() == 0 {
        Seq::empty()
    } else {
        prop_ints(props.drop_last()).push(ValueModel::Integer(props.last().crc as i32)).push(
            ValueModel::Integer(props.last().id),
        )
    }
}

/// Whether a prop with the given ID is worn.
pub open spec fn wears(props: Seq<AssetSpec>, id: i32) -> bool {
    exists|j: int| 0 <= j < props.len() && #[trigger] props[j].id == id
}

/// What the prop built-ins do to the stack.
pub open spec fn props_spec(name: Seq<char>, vm: Vm, c: Option<CtxView>) -> Option<Outcome> {
    let s = vm.stack_model();
    if name == "GETPROPS"@ {
        Some(match c {
            Some(v) => done(s.push(int_v(v.props.len() as i32)) + prop_ints(v.props)),
            None => done(s.push(int_v(0))),
        })
    } else if name == "SETPROPS"@ {
        Some(if s.len() == 0 { short() } else {
            let n = int_of(s.last()) as int;
            if n < 0 { fail(s.drop_last(), VmErrorKind::TypeError) } else { pop_n(s.drop_last(), 2 * n) }
        })
    } else if name == "NAKED"@ {
        Some(done(s))
    } else if name == "DONPROP"@ {
        Some(pop_n(s, 2))
    } else if name == "DOFFPROP"@ {
        Some(pop_n(s, 1))
    } else if name == "DROPPROP"@ {
        Some(done(s))
    } else if name == "REMOVEPROP"@ {
        Some(pop_n(s, 1))
    } else if name == "USERPROP"@ {
        Some(if s.len() == 0 { short() } else {
            let i = int_of(s.last()) as int;
            let t = s.drop_last();
            match c {
                Some(v) => if 0 <= i < v.props.len() {
                    done(t.push(int_v(v.props[i].crc as i32)).push(int_v(v.props[i].id)))
                } else {
                    done(t.push(int_v(0)).push(int_v(0)))
                },
                None => done(t.push(int_v(0)).push(int_v(0))),
            }
        })
    } else if name == "NBRUSERPROPS"@ {
        Some(done(s.push(int_v(match c {
            Some(v) => v.props.len() as i32,
            None => 0,
        }))))
    } else if name == "TOPPROP"@ {
        Some(match c {
            Some(v) => if v.props.len() > 0 {
                done(s.push(int_v(v.props.last().crc as i32)).push(int_v(v.props.last().id)))
            } else {
                done(s.push(int_v(0)).push(int_v(0)))
            },
            None => done(s.push(int_v(0)).push(int_v(0))),
        })
    } else if name == "HASPROP"@ {
        Some(if s.len() == 0 { short() } else {
            pop_push(s, 1, flag_v(c matches Some(v) && wears(v.props, int_of(s.last()))))
        })
    } else if name == "ADDLOOSEPROP"@ {
        Some(pop_n(s, 3))
    } else if name == "CLEARLOOSEPROPS"@ {
        Some(done(s))
    } else if name == "SHOWLOOSEPROPS"@ {
        Some(pop_n(s, 1))
    } else {
        None
    }
}

/// The props that SETPROPS pops from `t`: `n` pairs, each an ID on top
/// of a CRC, in the order popped.
pub open spec fn popped_props(t: Seq<ValueModel>, n: nat) -> Seq<AssetSpec>
    decreases n,
{
    if n == 0 {
        Seq::empty()
    } else {
        popped_props(t, (n - 1) as nat).push(AssetSpec {
            id: int_of(t[t.len() - 2 * n + 1]),
            crc: int_of(t[t.len() - 2 * n]) as u32,
        })
    }
}

/// The worn props after taking off every prop with the given ID.
pub open spec fn props_without_id(props: Seq<AssetSpec>, id: i32) -> Seq<AssetSpec> {
    props.filter(|p: AssetSpec| p.id != id)
}

/// The calls of the host that a prop built-in makes with a context:
/// SETPROPS, NAKED, DONPROP, DOFFPROP, DROPPROP and REMOVEPROP hand the
/// new list of worn props to `set_props`; ADDLOOSEPROP and CLEARLOOSEPROPS
/// pass on; the others call nothing; none where the stack runs short.
pub open spec fn props_calls(name: Seq<char>, vm: Vm, v: CtxView) -> Seq<HostCall> {
    let s = vm.stack_model();
    if name == "GETPROPS"@ {
        Seq::empty()
    } else if name == "SETPROPS"@ {
        let n = int_of(s.last()) as int;
        call_if(s.len() >= 1 && 0 <= n && 2 * n <= s.len() - 1, HostCall::SetProps(popped_props(s.drop_last(), n as nat)))
    } else if name == "NAKED"@ {
        seq![HostCall::SetProps(Seq::empty())]
    } else if name == "DONPROP"@ {
        call_if(s.len() >= 2, HostCall::SetProps(v.props.push(AssetSpec { id: top_int(s, 0), crc: top_int(s, 1) as u32 })))
    } else if name == "DOFFPROP"@ {
        call_if(s.len() >= 1, HostCall::SetProps(props_without_id(v.props, top_int(s, 0))))
    } else if name == "DROPPROP"@ {
        seq![HostCall::SetProps(if v.props.len() > 0 { v.props.drop_last() } else { v.props })]
    } else if name == "REMOVEPROP"@ {
        call_if(s.len() >= 1, HostCall::SetProps(props_without_id(v.props, top_int(s, 0))))
    } else if name == "USERPROP"@ || name == "NBRUSERPROPS"@ || name == "TOPPROP"@ || name == "HASPROP"@ {
        Seq::empty()
    } else if name == "ADDLOOSEPROP"@ {
        call_if(s.len() >= 3, HostCall::AddLooseProp(top_int(s, 2), top_int(s, 1) as i16, top_int(s, 0) as i16))
    } else if name == "CLEARLOOSEPROPS"@ {
        seq![HostCall::ClearLooseProps]
    } else {
        Seq::empty()
    }
}

fn crc_int(a: &AssetSpec) -> (n: i32)
    ensures
        n == a.crc as i32,
{
    a.crc as i32
}

fn copy_props(props: &Vec<AssetSpec>) -> (v: Vec<AssetSpec>)
    ensures
        v@ == props@,
{
    let mut v: Vec<AssetSpec> = Vec::new();
    let mut i: usize = 0;
    while i < props.len()
        invariant
            i <= props@.len(),
            v@ == props@.subrange(0, i as int),
        decreases props@.len() - i,
    {
        v.push(props[i]);
        i = i + 1;
    }
    assert(props@.subrange(0, props@.len() as int) == props@);
    v
}

fn props_without(props: &Vec<AssetSpec>, id: i32) -> (v: Vec<AssetSpec>)
    ensures
        v@ == props@.filter(|p: AssetSpec| p.id != id),
{
    let mut v: Vec<AssetSpec> = Vec::new();
    let mut i: usize = 0;
    while i < props.len()
        invariant
            i <= props@.len(),
            v@ == props@.subrange(0, i as int).filter(|p: AssetSpec| p.id != id),
        decreases props@.len() - i,
    {
        let p = props[i];
        proof {
            let q = props@.subrange(0, i + 1);
            assert(q.drop_last() =~= props@.subrange(0, i as int));
            reveal(Seq::filter);
        }
        if p.id != id {
            v.push(p);
        }
        i = i + 1;
    }
    assert(props@.subrange(0, props@.len() as int) == props@);
    v
}

fn has_prop(props: &Vec<AssetSpec>, id: i32) -> (b: bool)
    ensures
        b == wears(props@, id),
{
    let mut i: usize = 0;
    while i < props.len()
        invariant
            i <= props@.len(),
            forall|j: int| 0 <= j < i ==> #[trigger] props@[j].id != id,
        decreases props@.len() - i,
    {
        if props[i].id == id {
            return true;
        }
        i = i + 1;
    }
    false
}

fn push_props(vm: &mut Vm, props: &Vec<AssetSpec>)
    ensures
        final(vm).same_but_stack(old(vm)),
        final(vm).stack_model() == old(vm).stack_model() + prop_ints(props@),
{
    let mut i: usize = 0;
    while i < props.len()
        invariant
            i <= props@.len(),
            vm.same_but_stack(old(vm)),
            vm.stack_model() == old(vm).stack_model() + prop_ints(props@.subrange(0, i as int)),
        decreases props@.len() - i,
    {
        let p = props[i];
        push_pair(vm, crc_int(&p), p.id);
        proof {
            let q = props@.subrange(0, i + 1);
            assert(q.drop_last() =~= props@.subrange(0, i as int));
            assert(vm.stack_model() =~= old(vm).stack_model() + prop_ints(q));
        }
        i = i + 1;
    }
    assert(props@.subrange(0, props@.len() as int) == props@);
}

/// Runs a prop built-in: GETPROPS (push the number of props, then each
/// prop's CRC and ID), SETPROPS (pop a count n, then n pairs of ID and
/// CRC, and wear those props), NAKED, DONPROP (pop an ID and a CRC and
/// add it), DOFFPROP and REMOVEPROP (pop an ID and take it off),
/// DROPPROP, USERPROP (pop an index, push that prop's CRC and ID or two
/// zeros), NBRUSERPROPS, TOPPROP, HASPROP (pop an ID, push 1 when worn),
/// ADDLOOSEPROP (pop y, x and a prop ID), CLEARLOOSEPROPS, SHOWLOOSEPROPS.
#[verifier::rlimit(30)]
#[verifier::loop_isolation(false)]
pub fn execute_props_builtin<A: ScriptActions + ?Sized>(
    vm: &mut Vm,
    name: &str,
    context: Option<&mut ScriptContext<A>>,
) -> (r: Result<(), VmError>)
    ensures
        follows(props_spec(name@, *old(vm), view_of(context)), name@, r, old(vm).stack_model(), final(vm).stack_model()),
        final(vm).same_but_stack(old(vm)),
        match context {
            Some(c) => final(c).view() == c.view().called(props_calls(name@, *old(vm), c.view())),
            None => true,
        },
{
    let ghost s = vm.stack_model();
    if str_eq(name, "GETPROPS") {
        match context {
            Some(ctx) => {
                vm.push(Value::Integer(usize_to_i32(ctx.user_props.len())));
                push_props(vm, &ctx.user_props);
            },
            None => {
                vm.push(Value::Integer(0));
            },
        }
        Ok(())
    } else if str_eq(name, "SETPROPS") {
        let n = pop_int(vm)?;
        if n < 0 {
            return Err(VmError::type_error("SETPROPS num_props must be non-negative"));
        }
        let ghost t = vm.stack_model();
        let mut props: Vec<AssetSpec> = Vec::new();
        let mut i: i32 = 0;
        while i < n
            invariant
                0 <= i <= n,
                vm.same_but_stack(old(vm)),
                2 * i <= t.len(),
                vm.stack_model() == t.subrange(0, t.len() - 2 * i),
                props@ == popped_props(t, i as nat),
            decreases n - i,
        {
            let id = match pop_int(vm) {
                Ok(v) => v,
                Err(e) => {
                    return Err(e);
                },
            };
            let crc = match pop_int(vm) {
                Ok(v) => v,
                Err(e) => {
                    return Err(e);
                },
            };
            props.push(AssetSpec { id, crc: crc as u32 });
            assert(vm.stack_model() =~= t.subrange(0, t.len() - 2 * (i + 1)));
            i = i + 1;
        }
        if let Some(ctx) = context {
            ctx.host_set_props(props);
        }
        Ok(())
    } else if str_eq(name, "NAKED") {
        if let Some(ctx) = context {
            ctx.host_set_props(Vec::new());
        }
        Ok(())
    } else if str_eq(name, "DONPROP") {
        let id = pop_int(vm)?;
        let crc = match pop_int(vm) {
            Ok(v) => v,
            Err(e) => {
                return Err(e);
            },
        };
        if let Some(ctx) = context {
            let mut props = copy_props(&ctx.user_props);
            props.push(AssetSpec { id, crc: crc as u32 });
            ctx.host_set_props(props);
        }
        assert(s.drop_last().drop_last() =~= s.subrange(0, s.len() - 2));
        Ok(())
    } else if str_eq(name, "DOFFPROP") {
        let id = pop_int(vm)?;
        if let Some(ctx) = context {
            let props = props_without(&ctx.user_props, id);
            ctx.host_set_props(props);
        }
        assert(s.drop_last() =~= s.subrange(0, s.len() - 1));
        Ok(())
    } else if str_eq(name, "DROPPROP") {
        if let Some(ctx) = context {
            let mut props = copy_props(&ctx.user_props);
            let _ = props.pop();
            ctx.host_set_props(props);
        }
        Ok(())
    } else if str_eq(name, "REMOVEPROP") {
        let id = pop_int(vm)?;
        if let Some(ctx) = context {
            let props = props_without(&ctx.user_props, id);
            ctx.host_set_props(props);
        }
        assert(s.drop_last() =~= s.subrange(0, s.len() - 1));
        Ok(())
    } else if str_eq(name, "USERPROP") {
        let index = pop_int(vm)?;
        match context {
            Some(ctx) => {
                if index >= 0 && (index as usize) < ctx.user_props.len() {
                    let p = ctx.user_props[index as usize];
                    push_pair(vm, crc_int(&p), p.id);
                } else {
                    push_pair(vm, 0, 0);
                }
            },
            None => {
                push_pair(vm, 0, 0);
            },
        }
        Ok(())
    } else if str_eq(name, "NBRUSERPROPS") {
        let n = match context {
            Some(ctx) => usize_to_i32(ctx.user_props.len()),
            None => 0,
        };
        vm.push(Value::Integer(n));
        Ok(())
    } else if str_eq(name, "TOPPROP") {
        match context {
            Some(ctx) => {
                let k = ctx.user_props.len();
                if k > 0 {
                    let p = ctx.user_props[k - 1];
                    push_pair(vm, crc_int(&p), p.id);
                } else {
                    push_pair(vm, 0, 0);
                }
            },
            None => {
                push_pair(vm, 0, 0);
            },
        }
        Ok(())
    } else if str_eq(name, "HASPROP") {
        let id = pop_int(vm)?;
        let has = match context {
            Some(ctx) => has_prop(&ctx.user_props, id),
            None => false,
        };
        vm.push(if has { Value::Integer(1) } else { Value::Integer(0) });
        assert(s.drop_last() =~= s.subrange(0, s.len() - 1));
        Ok(())
    } else if str_eq(name, "ADDLOOSEPROP") {
        let y = pop_int(vm)?;
        let x = match pop_int(vm) {
            Ok(v) => v,
            Err(e) => {
                return Err(e);
            },
        };
        let prop_id = match pop_int(vm) {
            Ok(v) => v,
            Err(e) => {
                return Err(e);
            },
        };
        if let Some(ctx) = context {
            ctx.host_add_loose_prop(prop_id, x as i16, y as i16);
        }
        assert(s.drop_last().drop_last().drop_last() =~= s.subrange(0, s.len() - 3));
        Ok(())
    } else if str_eq(name, "CLEARLOOSEPROPS") {
        if let Some(ctx) = context {
            ctx.host_clear_loose_props();
        }
        Ok(())
    } else if str_eq(name, "SHOWLOOSEPROPS") {
        discard(vm, 1)
    } else {
        Err(VmError::undefined_function(name))
    }
}

} // verus!
