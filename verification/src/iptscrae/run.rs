//! Running scripts: built-in calls, statements, blocks and handlers.
//!
//! What a run does is stated as a relation between the machine and the
//! context before it and after it, and its result. Every statement and
//! every expression first counts one instruction and checks the limits.
//! An IF takes its condition from the stack, runs one branch and goes on
//! (a BREAK inside a branch ends the branch only); a WHILE pops a
//! condition before each round and stops when it is false or when its body
//! breaks.
use vstd::prelude::*;
use crate::iptscrae::ast::{Block, EventHandler, Expr, Script, Statement};
use crate::iptscrae::builtins::{
    array::{array_spec, execute_array_builtin}, logic::{execute_logic_builtin, logic_spec},
    math::{execute_math_builtin, math_spec}, palace::{
        execute_palace_builtin, lemma_palace_ctx_stack, palace_ctx, palace_output, palace_reads_clock, palace_spec,
        view_of,
    }, stack::{execute_stack_builtin, stack_spec}, string::{execute_string_builtin, string_spec},
    Outcome,
};
use crate::iptscrae::context::{CtxView, ScriptActions, ScriptContext};
use crate::iptscrae::events::EventType;
use crate::iptscrae::value::{truthy, Value, ValueModel};
use crate::iptscrae::vm::{binop_result, unary_result, Vm, VmError, VmErrorKind};
use vstd::utf8::is_ascii_chars;
use crate::text::{ascii_upper, lemma_ascii_upper_idempotent, to_uppercase, upper_text, copy_string};

verus! {

/// How a statement or block ends.
#[derive(Debug, Clone, Copy, PartialEq, Eq)]
pub enum Flow {
    /// Go on with the next statement.
    Continue,
    /// Leave the enclosing loop.
    Break,
}

/// The result of running something: how it ended, or the error it
/// stopped with.
pub enum Res {
    Done(Flow),
    Failed(VmErrorKind),
}

/// The result of a run with no flow.
pub open spec fn res_unit(r: Result<(), VmError>) -> Res {
    match r {
        Ok(_) => Res::Done(Flow::Continue),
        Err(e) => Res::Failed(e.kind()),
    }
}

/// The result of a run.
pub open spec fn res_flow(r: Result<Flow, VmError>) -> Res {
    match r {
        Ok(f) => Res::Done(f),
        Err(e) => Res::Failed(e.kind()),
    }
}

/// Two machines that no run can tell apart.
pub open spec fn same(a: Vm, b: Vm) -> bool {
    a.same_but_stack(&b) && a.stack_model() == b.stack_model()
}

/// `b` is `a` with its top value removed, and `v` was that value.
pub open spec fn popped(a: Vm, b: Vm, v: ValueModel) -> bool {
    &&& a.stack_model().len() > 0
    &&& v == a.stack_model().last()
    &&& b.stack_model() == a.stack_model().drop_last()
    &&& b.same_but_stack(&a)
}

/// `b` is `a` with `v` pushed.
pub open spec fn pushed(a: Vm, b: Vm, v: ValueModel) -> bool {
    b.stack_model() == a.stack_model().push(v) && b.same_but_stack(&a)
}

/// What a stack-level outcome means for a run from `a` to `b`.
pub open spec fn outcome_rel(o: Outcome, a: Vm, b: Vm, res: Res) -> bool {
    &&& b.stack_model() == o.stack
    &&& b.same_but_stack(&a)
    &&& res == match o.err {
        None => Res::Done(Flow::Continue),
        Some(k) => Res::Failed(k),
    }
}

/// A call of the built-in named `u` (in uppercase), from `a` with context
/// `ca` to `b` with context `cb`: the first category that knows the name
/// runs it (stack, string, math, logic, array, then Palace).
pub open spec fn builtin_rel(u: Seq<char>, a: Vm, ca: Option<CtxView>, b: Vm, cb: Option<CtxView>, res: Res) -> bool {
    if stack_spec(u, a) is Some {
        outcome_rel(stack_spec(u, a).unwrap(), a, b, res) && cb == ca
    } else if string_spec(u, a) is Some {
        outcome_rel(string_spec(u, a).unwrap(), a, b, res) && cb == ca
    } else if math_spec(u, a) is Some {
        outcome_rel(math_spec(u, a).unwrap(), a, b, res) && cb == ca
    } else if logic_spec(u, a) is Some {
        outcome_rel(logic_spec(u, a).unwrap(), a, b, res) && cb == ca
    } else if array_spec(u, a) is Some {
        outcome_rel(array_spec(u, a).unwrap(), a, b, res) && cb == ca
    } else {
        &&& b.same_but_stack_output(&a)
        &&& b.output_model() == palace_output(u, a, ca)
        &&& cb == (match ca {
            Some(v) => Some(palace_ctx(u, a, v)),
            None => None,
        })
        &&& if palace_reads_clock(u, a, ca) {
            res == Res::Done(Flow::Continue) && b.stack_model().drop_last() == a.stack_model()
                && b.stack_model().len() == a.stack_model().len() + 1
        } else {
            match palace_spec(u, a, ca) {
                None => res == Res::Failed(VmErrorKind::UndefinedFunction) && b.stack_model() == a.stack_model(),
                Some(o) => b.stack_model() == o.stack && res == match o.err {
                    None => Res::Done(Flow::Continue),
                    Some(k) => Res::Failed(k),
                },
            }
        }
    }
}

/// Marks a result as a candidate for an existential: relations below
/// quantify over intermediate results and machines through these marks,
/// so that a proof names the witness it means.
pub open spec fn wit_res(r: Res) -> bool {
    true
}

/// Marks an intermediate machine.
pub open spec fn wit_vm(p: Vm) -> bool {
    true
}

/// Marks an intermediate machine and context.
pub open spec fn wit_state(m: Vm, cm: CtxView) -> bool {
    true
}

/// Marks a count together with an intermediate machine and context.
pub open spec fn wit_at(k: int, m: Vm, cm: CtxView) -> bool {
    true
}

/// Marks an intermediate machine, context and the machine after a pop.
pub open spec fn wit_round(m: Vm, cm: CtxView, p: Vm) -> bool {
    true
}

/// Marks the machine after a pop together with a result.
pub open spec fn wit_exit(p: Vm, r: Res) -> bool {
    true
}

/// Running an expression from `a` to `b`.
pub open spec fn expr_rel(e: Expr, a: Vm, ca: CtxView, b: Vm, cb: CtxView, res: Res) -> bool
    decreases e, 1int,
{
    exists|t: Vm, k: Option<VmErrorKind>| #[trigger] Vm::ticked(a, t, k) && match k {
        Some(err) => same(b, t) && cb == ca && res == Res::Failed(err),
        None => expr_body_rel(e, t, ca, b, cb, res),
    }
}

/// Running an expression once its instruction is counted.
pub open spec fn expr_body_rel(e: Expr, t: Vm, ca: CtxView, b: Vm, cb: CtxView, res: Res) -> bool
    decreases e, 0int,
{
    match e {
        Expr::Literal { value, .. } => pushed(t, b, value.model()) && cb == ca && res == Res::Done(Flow::Continue),
        Expr::Variable { name, .. } => cb == ca && match t.var(name@) {
            Some(v) => pushed(t, b, v) && res == Res::Done(Flow::Continue),
            None => same(b, t) && res == Res::Failed(VmErrorKind::UndefinedVariable),
        },
        Expr::Call { name, .. } => builtin_rel(upper_text(name@), t, Some(ca), b, Some(cb), res),
        Expr::BinOp { op, .. } => cb == ca && b.same_but_stack(&t) && {
            let s = t.stack_model();
            if s.len() < 2 {
                res == Res::Failed(VmErrorKind::StackUnderflow) && b.stack_model() == Seq::<ValueModel>::empty()
            } else {
                let rest = s.drop_last().drop_last();
                match binop_result(op, s[s.len() - 2], s.last()) {
                    Ok(v) => res == Res::Done(Flow::Continue) && b.stack_model() == rest.push(v),
                    Err(k) => res == Res::Failed(k) && b.stack_model() == rest,
                }
            }
        },
        Expr::UnaryOp { op, .. } => cb == ca && b.same_but_stack(&t) && {
            let s = t.stack_model();
            if s.len() == 0 {
                res == Res::Failed(VmErrorKind::StackUnderflow) && b.stack_model() == s
            } else {
                res == Res::Done(Flow::Continue) && b.stack_model() == s.drop_last().push(unary_result(op, s.last()))
            }
        },
        Expr::Block(bl) => exists|r: Res| #[trigger] wit_res(r) && block_rel(bl.statements@, t, ca, b, cb, r) && res == match r {
            Res::Done(_) => Res::Done(Flow::Continue),
            Res::Failed(k) => Res::Failed(k),
        },
    }
}

/// Running the first `k` statements of a block from `a` to `b`, each of
/// them going on to the next.
pub open spec fn prefix_rel(stmts: Seq<Statement>, k: int, a: Vm, ca: CtxView, b: Vm, cb: CtxView) -> bool
    decreases stmts, k,
{
    if k <= 0 {
        same(b, a) && cb == ca
    } else if k > stmts.len() {
        false
    } else {
        exists|m: Vm, cm: CtxView| #[trigger] wit_state(m, cm) && prefix_rel(stmts, k - 1, a, ca, m, cm)
            && stmt_rel(stmts[k - 1], m, cm, b, cb, Res::Done(Flow::Continue))
    }
}

/// Running a block from `a` to `b`: its statements in order, until one
/// breaks or fails.
pub open spec fn block_rel(stmts: Seq<Statement>, a: Vm, ca: CtxView, b: Vm, cb: CtxView, res: Res) -> bool
    decreases stmts, stmts.len() + 1,
{
    exists|k: int, m: Vm, cm: CtxView| #[trigger] wit_at(k, m, cm) && 0 <= k <= stmts.len() && prefix_rel(stmts, k, a, ca, m, cm) && if k == stmts.len() {
        same(b, m) && cb == cm && res == Res::Done(Flow::Continue)
    } else {
        stmt_rel(stmts[k], m, cm, b, cb, res) && res != Res::Done(Flow::Continue)
    }
}

/// Running `k` rounds of a WHILE whose condition held and whose body went on.
pub open spec fn rounds_rel(body: Block, k: int, a: Vm, ca: CtxView, b: Vm, cb: CtxView) -> bool
    decreases body, k,
{
    if k <= 0 {
        same(b, a) && cb == ca
    } else {
        exists|m: Vm, cm: CtxView, p: Vm| #[trigger] wit_round(m, cm, p)
            && rounds_rel(body, k - 1, a, ca, m, cm)
            && popped(m, p, m.stack_model().last()) && truthy(m.stack_model().last())
            && block_rel(body.statements@, p, cm, b, cb, Res::Done(Flow::Continue))
    }
}

/// The last round of a WHILE from `a`: an empty stack fails, a false
/// condition ends it, and a body that breaks or fails ends it.
pub open spec fn last_round_rel(body: Block, a: Vm, ca: CtxView, b: Vm, cb: CtxView, res: Res) -> bool
    decreases body, 0int,
{
    if a.stack_model().len() == 0 {
        same(b, a) && cb == ca && res == Res::Failed(VmErrorKind::StackUnderflow)
    } else if !truthy(a.stack_model().last()) {
        popped(a, b, a.stack_model().last()) && cb == ca && res == Res::Done(Flow::Continue)
    } else {
        exists|p: Vm, r: Res| #[trigger] wit_exit(p, r) && popped(a, p, a.stack_model().last()) && block_rel(body.statements@, p, ca, b, cb, r) && match r {
            Res::Done(Flow::Break) => res == Res::Done(Flow::Continue),
            Res::Failed(k) => res == Res::Failed(k),
            Res::Done(Flow::Continue) => false,
        }
    }
}

/// Running a statement from `a` to `b`.
pub open spec fn stmt_rel(st: Statement, a: Vm, ca: CtxView, b: Vm, cb: CtxView, res: Res) -> bool
    decreases st, 0int,
{
    exists|t: Vm, k: Option<VmErrorKind>| #[trigger] Vm::ticked(a, t, k) && match k {
        Some(err) => same(b, t) && cb == ca && res == Res::Failed(err),
        None => match st {
            Statement::Expr(e) => expr_rel(e, t, ca, b, cb, res),
            Statement::Assign { name, .. } => cb == ca && if t.stack_model().len() == 0 {
                same(b, t) && res == Res::Failed(VmErrorKind::StackUnderflow)
            } else {
                exists|p: Vm| popped(t, p, t.stack_model().last()) && #[trigger] Vm::assigned(p, b, name@, t.stack_model().last())
                    && res == Res::Done(Flow::Continue)
            },
            Statement::If { then_block, else_block, .. } => if t.stack_model().len() == 0 {
                same(b, t) && cb == ca && res == Res::Failed(VmErrorKind::StackUnderflow)
            } else {
                exists|p: Vm| #[trigger] wit_vm(p) && popped(t, p, t.stack_model().last()) && {
                    if truthy(t.stack_model().last()) {
                        exists|r: Res| #[trigger] wit_res(r) && block_rel(then_block.statements@, p, ca, b, cb, r) && res == match r {
                            Res::Done(_) => Res::Done(Flow::Continue),
                            Res::Failed(k) => Res::Failed(k),
                        }
                    } else {
                        match else_block {
                            Some(eb) => exists|r: Res| #[trigger] wit_res(r) && block_rel(eb.statements@, p, ca, b, cb, r) && res == match r {
                                Res::Done(_) => Res::Done(Flow::Continue),
                                Res::Failed(k) => Res::Failed(k),
                            },
                            None => same(b, p) && cb == ca && res == Res::Done(Flow::Continue),
                        }
                    }
                }
            },
            Statement::While { body, .. } => exists|n: int, m: Vm, cm: CtxView| #[trigger] wit_at(n, m, cm) && 0 <= n && rounds_rel(body, n, t, ca, m, cm)
                && last_round_rel(body, m, cm, b, cb, res),
            Statement::Break { .. } => same(b, t) && cb == ca && res == Res::Done(Flow::Break),
        },
    }
}

/// Running the first `k` handlers of a script for an event, each handler
/// for that event running its body without error.
pub open spec fn handlers_prefix(hs: Seq<EventHandler>, ev: EventType, k: int, a: Vm, ca: CtxView, b: Vm, cb: CtxView) -> bool
    decreases k,
{
    if k <= 0 {
        same(b, a) && cb == ca
    } else if k > hs.len() {
        false
    } else {
        exists|m: Vm, cm: CtxView| #[trigger] wit_state(m, cm) && handlers_prefix(hs, ev, k - 1, a, ca, m, cm) && if hs[k - 1].event == ev {
            exists|r: Res| #[trigger] wit_res(r) && r is Done && block_rel(hs[k - 1].body.statements@, m, cm, b, cb, r)
        } else {
            same(b, m) && cb == cm
        }
    }
}

/// Running the handlers of a script for an event, in order, until one fails.
pub open spec fn handlers_rel(hs: Seq<EventHandler>, ev: EventType, a: Vm, ca: CtxView, b: Vm, cb: CtxView, res: Res) -> bool {
    exists|k: int, m: Vm, cm: CtxView| #[trigger] wit_at(k, m, cm) && 0 <= k <= hs.len() && handlers_prefix(hs, ev, k, a, ca, m, cm) && if k == hs.len() {
        same(b, m) && cb == cm && res == Res::Done(Flow::Continue)
    } else {
        hs[k].event == ev && res is Failed && block_rel(hs[k].body.statements@, m, cm, b, cb, res)
    }
}

/// Built-in names are matched in any letter case: for an ASCII name, what
/// a call does is `builtin_rel` of the name's uppercase form (see
/// `Vm::execute_builtin_with_context`), and calling with that uppercase
/// form instead does the same.
pub proof fn lemma_builtin_name_case(name: Seq<char>, a: Vm, ca: Option<CtxView>, b: Vm, cb: Option<CtxView>, res: Res)
    requires
        is_ascii_chars(name),
    ensures
        is_ascii_chars(ascii_upper(name)),
        builtin_rel(ascii_upper(ascii_upper(name)), a, ca, b, cb, res) == builtin_rel(ascii_upper(name), a, ca, b, cb, res),
{
    lemma_ascii_upper_idempotent(name);
}

fn undefined(r: &Result<(), VmError>) -> (b: bool)
    ensures
        b == (r matches Err(VmError::UndefinedFunction { .. })),
{
    match r {
        Err(VmError::UndefinedFunction { .. }) => true,
        _ => false,
    }
}

impl Vm {
    /// Calls a built-in function by name, case-insensitively (see
    /// `builtin_rel`); without a context the Palace built-ins run alone.
    #[verifier::rlimit(100)]
    pub fn execute_builtin_with_context<A: ScriptActions + ?Sized>(
        &mut self,
        name: &str,
        context: Option<&mut ScriptContext<A>>,
    ) -> (r: Result<(), VmError>)
        ensures
            builtin_rel(upper_text(name@), *old(self), view_of(context), *final(self), match context {
                Some(c) => Some(final(c).view()),
                None => None,
            }, res_unit(r)),
            is_ascii_chars(name@) ==> upper_text(name@) == ascii_upper(name@),
    {
        let up = to_uppercase(name);
        let u = up.as_str();
        let r = execute_stack_builtin(self, u);
        if !undefined(&r) {
            return r;
        }
        let r = execute_string_builtin(self, u);
        if !undefined(&r) {
            return r;
        }
        let r = execute_math_builtin(self, u);
        if !undefined(&r) {
            return r;
        }
        let r = execute_logic_builtin(self, u);
        if !undefined(&r) {
            return r;
        }
        let r = execute_array_builtin(self, u);
        if !undefined(&r) {
            return r;
        }
        proof {
            lemma_palace_ctx_stack(u@, *old(self), *self);
        }
        execute_palace_builtin(self, u, context)
    }

    /// Calls a built-in function by name with no context.
    pub fn execute_builtin(&mut self, name: &str) -> (r: Result<(), VmError>)
        ensures
            builtin_rel(upper_text(name@), *old(self), None, *final(self), None, res_unit(r)),
    {
        self.execute_builtin_with_context::<()>(name, None)
    }
}

impl Vm {
    fn exec_expr<A: ScriptActions + ?Sized>(&mut self, e: &Expr, ctx: &mut ScriptContext<A>) -> (r: Result<(), VmError>)
        ensures
            expr_rel(*e, *old(self), old(ctx).view(), *final(self), final(ctx).view(), res_unit(r)),
            final(self).count() >= old(self).count(),
        decreases e,
    {
        let ghost a = *self;
        let ghost ca = ctx.view();
        let tick = self.check_limits();
        let ghost t = *self;
        if let Err(err) = tick {
            assert(expr_rel(*e, a, ca, *self, ctx.view(), res_unit(Err::<(), VmError>(err))));
            return Err(err);
        }
        let r = match e {
            Expr::Literal { value, .. } => {
                self.push(value.duplicate());
                assert(expr_body_rel(*e, t, ca, *self, ctx.view(), Res::Done(Flow::Continue)));
                Ok(())
            },
            Expr::Variable { name, .. } => {
                match self.get_variable(name.as_str()) {
                    Some(v) => {
                        let copy = v.duplicate();
                        self.push(copy);
                        assert(expr_body_rel(*e, t, ca, *self, ctx.view(), Res::Done(Flow::Continue)));
                        Ok(())
                    },
                    None => {
                        let err = VmError::UndefinedVariable { name: copy_string(name) };
                        assert(expr_body_rel(*e, t, ca, *self, ctx.view(), Res::Failed(VmErrorKind::UndefinedVariable)));
                        Err(err)
                    },
                }
            },
            Expr::Call { name, .. } => {
                let rc = self.execute_builtin_with_context(name.as_str(), Some(&mut *ctx));
                assert(expr_body_rel(*e, t, ca, *self, ctx.view(), res_unit(rc)));
                rc
            },
            Expr::BinOp { op, .. } => {
                let rc = self.execute_binop(*op);
                assert(expr_body_rel(*e, t, ca, *self, ctx.view(), res_unit(rc)));
                rc
            },
            Expr::UnaryOp { op, .. } => {
                let rc = self.execute_unaryop(*op);
                assert(expr_body_rel(*e, t, ca, *self, ctx.view(), res_unit(rc)));
                rc
            },
            Expr::Block(bl) => {
                proof {
                    assert(decreases_to!(*e => bl.statements));
                }
                let rb = self.exec_block(&bl.statements, ctx);
                match rb {
                    Ok(f) => {
                        assert(wit_res(Res::Done(f)));
                        assert(expr_body_rel(*e, t, ca, *self, ctx.view(), Res::Done(Flow::Continue)));
                        Ok(())
                    },
                    Err(err) => {
                        assert(wit_res(Res::Failed(err.kind())));
                        assert(expr_body_rel(*e, t, ca, *self, ctx.view(), Res::Failed(err.kind())));
                        Err(err)
                    },
                }
            },
        };
        assert(expr_body_rel(*e, t, ca, *self, ctx.view(), res_unit(r)));
        assert(expr_rel(*e, a, ca, *self, ctx.view(), res_unit(r)));
        r
    }

    fn exec_block<A: ScriptActions + ?Sized>(&mut self, stmts: &Vec<Statement>, ctx: &mut ScriptContext<A>) -> (r: Result<Flow, VmError>)
        ensures
            block_rel(stmts@, *old(self), old(ctx).view(), *final(self), final(ctx).view(), res_flow(r)),
            final(self).count() >= old(self).count(),
            (stmts@.len() > 0 && r is Ok) ==> final(self).count() > old(self).count(),
            stmts@.len() == 0 ==> same(*final(self), *old(self)) && r == Ok::<Flow, VmError>(Flow::Continue),
        decreases stmts,
    {
        let ghost a = *self;
        let ghost ca = ctx.view();
        let mut i: usize = 0;
        while i < stmts.len()
            invariant
                i <= stmts@.len(),
                a == *old(self),
                ca == old(ctx).view(),
                prefix_rel(stmts@, i as int, a, ca, *self, ctx.view()),
                self.count() >= a.count(),
                i > 0 ==> self.count() > a.count(),
                i == 0 ==> same(*self, a),
            decreases stmts@.len() - i,
        {
            let ghost m = *self;
            let ghost cm = ctx.view();
            proof {
                assert(decreases_to!(*stmts => stmts[i as int]));
            }
            let r = self.exec_stmt(&stmts[i], ctx);
            let ghost k1: int = i + 1;
            assert(k1 - 1 == i);
            assert(stmts@[k1 - 1] == stmts@[i as int]);
            assert(prefix_rel(stmts@, k1 - 1, a, ca, m, cm));
            match r {
                Ok(Flow::Continue) => {
                    assert(stmt_rel(stmts@[k1 - 1], m, cm, *self, ctx.view(), Res::Done(Flow::Continue)));
                    assert(wit_state(m, cm));
                    assert(prefix_rel(stmts@, k1, a, ca, *self, ctx.view()));
                },
                _ => {
                    assert(stmt_rel(stmts@[i as int], m, cm, *self, ctx.view(), res_flow(r)));
                    assert(res_flow(r) != Res::Done(Flow::Continue));
                    assert(0 <= i <= stmts@.len() && prefix_rel(stmts@, i as int, a, ca, m, cm));
                    assert(wit_at(i as int, m, cm));
                    assert(block_rel(stmts@, a, ca, *self, ctx.view(), res_flow(r)));
                    return r;
                },
            }
            i = i + 1;
        }
        assert(same(*self, *self));
        assert(prefix_rel(stmts@, stmts@.len() as int, a, ca, *self, ctx.view()));
        assert(wit_at(stmts@.len() as int, *self, ctx.view()));
        assert(block_rel(stmts@, a, ca, *self, ctx.view(), Res::Done(Flow::Continue)));
        Ok(Flow::Continue)
    }

    fn exec_stmt<A: ScriptActions + ?Sized>(&mut self, st: &Statement, ctx: &mut ScriptContext<A>) -> (r: Result<Flow, VmError>)
        ensures
            stmt_rel(*st, *old(self), old(ctx).view(), *final(self), final(ctx).view(), res_flow(r)),
            final(self).count() >= old(self).count(),
            r is Ok ==> final(self).count() > old(self).count(),
        decreases st,
    {
        let ghost a = *self;
        let ghost ca = ctx.view();
        let tick = self.check_limits();
        let ghost t = *self;
        if let Err(err) = tick {
            assert(stmt_rel(*st, a, ca, *self, ctx.view(), res_flow(Err::<Flow, VmError>(err))));
            return Err(err);
        }
        match st {
            Statement::Expr(e) => {
                let re = self.exec_expr(e, ctx);
                let r = match re {
                    Ok(_) => Ok(Flow::Continue),
                    Err(err) => Err(err),
                };
                assert(expr_rel(*e, t, ca, *self, ctx.view(), res_unit(re)));
                assert(stmt_rel(*st, a, ca, *self, ctx.view(), res_flow(r)));
                r
            },
            Statement::Assign { name, .. } => {
                let value = match self.pop("assignment") {
                    Ok(v) => v,
                    Err(err) => {
                        assert(stmt_rel(*st, a, ca, *self, ctx.view(), res_flow(Err::<Flow, VmError>(err))));
                        return Err(err);
                    },
                };
                let ghost p = *self;
                self.set_variable(copy_string(name), value);
                assert(Vm::assigned(p, *self, name@, t.stack_model().last()));
                assert(stmt_rel(*st, a, ca, *self, ctx.view(), Res::Done(Flow::Continue)));
                Ok(Flow::Continue)
            },
            Statement::If { then_block, else_block, .. } => {
                let condition = match self.pop("IF condition") {
                    Ok(v) => v,
                    Err(err) => {
                        assert(stmt_rel(*st, a, ca, *self, ctx.view(), res_flow(Err::<Flow, VmError>(err))));
                        return Err(err);
                    },
                };
                let ghost p = *self;
                assert(wit_vm(p));
                let rb = if condition.to_bool() {
                    let rb = self.exec_block(&then_block.statements, ctx);
                    assert(wit_res(res_flow(rb)));
                    assert(block_rel(then_block.statements@, p, ca, *self, ctx.view(), res_flow(rb)));
                    rb
                } else {
                    match else_block {
                        Some(eb) => {
                            let rb = self.exec_block(&eb.statements, ctx);
                            assert(wit_res(res_flow(rb)));
                            rb
                        },
                        None => Ok(Flow::Continue),
                    }
                };
                let r = match rb {
                    Ok(_) => Ok(Flow::Continue),
                    Err(err) => Err(err),
                };
                assert(stmt_rel(*st, a, ca, *self, ctx.view(), res_flow(r)));
                r
            },
            Statement::While { body, .. } => {
                let r = self.exec_while(body, ctx);
                assert(stmt_rel(*st, a, ca, *self, ctx.view(), res_flow(r)));
                r
            },
            Statement::Break { .. } => {
                assert(stmt_rel(*st, a, ca, *self, ctx.view(), Res::Done(Flow::Break)));
                Ok(Flow::Break)
            },
        }
    }

    fn exec_while<A: ScriptActions + ?Sized>(&mut self, body: &Block, ctx: &mut ScriptContext<A>) -> (r: Result<Flow, VmError>)
        ensures
            exists|n: int, m: Vm, cm: CtxView| #[trigger] wit_at(n, m, cm) && 0 <= n && rounds_rel(*body, n, *old(self), old(ctx).view(), m, cm)
                && last_round_rel(*body, m, cm, *final(self), final(ctx).view(), res_flow(r)),
            final(self).count() >= old(self).count(),
            r is Ok ==> r == Ok::<Flow, VmError>(Flow::Continue),
        decreases body,
    {
        let ghost t = *self;
        let ghost ct = ctx.view();
        let ghost mut n: int = 0;
        assert(rounds_rel(*body, 0, t, ct, *self, ctx.view()));
        loop
            invariant
                t == *old(self),
                ct == old(ctx).view(),
                0 <= n,
                rounds_rel(*body, n, t, ct, *self, ctx.view()),
                self.count() >= t.count(),
            decreases usize::MAX - self.count(), self.stack_model().len(),
        {
            let ghost m = *self;
            let ghost cm = ctx.view();
            let condition = match self.pop("WHILE condition") {
                Ok(v) => v,
                Err(err) => {
                    assert(last_round_rel(*body, m, cm, *self, ctx.view(), res_flow(Err::<Flow, VmError>(err))));
                    assert(wit_at(n, m, cm));
                    return Err(err);
                },
            };
            let ghost p = *self;
            if !condition.to_bool() {
                assert(last_round_rel(*body, m, cm, *self, ctx.view(), Res::Done(Flow::Continue)));
                assert(wit_at(n, m, cm));
                return Ok(Flow::Continue);
            }
            proof {
                assert(decreases_to!(*body => body.statements));
            }
            let rb = self.exec_block(&body.statements, ctx);
            assert(wit_exit(p, res_flow(rb)));
            match rb {
                Ok(Flow::Continue) => {
                    assert(wit_round(m, cm, p));
                    proof {
                        n = n + 1;
                    }
                    assert(rounds_rel(*body, n, t, ct, *self, ctx.view()));
                },
                Ok(Flow::Break) => {
                    assert(last_round_rel(*body, m, cm, *self, ctx.view(), Res::Done(Flow::Continue)));
                    assert(wit_at(n, m, cm));
                    return Ok(Flow::Continue);
                },
                Err(err) => {
                    assert(last_round_rel(*body, m, cm, *self, ctx.view(), res_flow(Err::<Flow, VmError>(err))));
                    assert(wit_at(n, m, cm));
                    return Err(err);
                },
            }
        }
    }
}


impl Vm {
    /// Runs a script: handlers run only when their event comes, so this
    /// starts the clock and the count anew and does nothing else.
    pub fn execute(&mut self, script: &Script) -> (r: Result<(), VmError>)
        ensures
            Vm::restarted(*old(self), *final(self)),
            r is Ok,
    {
        self.start_clock();
        Ok(())
    }

    /// Runs the handlers of `script` for `event_type`, in order, with the
    /// clock and the count started anew; the first error stops the run.
    pub fn execute_handler<A: ScriptActions + ?Sized>(
        &mut self,
        script: &Script,
        event_type: EventType,
        context: &mut ScriptContext<A>,
    ) -> (r: Result<(), VmError>)
        ensures
            exists|s: Vm| #[trigger] wit_vm(s) && Vm::restarted(*old(self), s)
                && handlers_rel(script.handlers@, event_type, s, old(context).view(), *final(self), final(context).view(), res_unit(r)),
    {
        self.start_clock();
        let ghost s = *self;
        let ghost cs = context.view();
        let ghost hs = script.handlers@;
        assert(wit_vm(s));
        let mut i: usize = 0;
        while i < script.handlers.len()
            invariant
                i <= hs.len(),
                hs == script.handlers@,
                Vm::restarted(*old(self), s),
                cs == old(context).view(),
                handlers_prefix(hs, event_type, i as int, s, cs, *self, context.view()),
            decreases hs.len() - i,
        {
            let ghost m = *self;
            let ghost cm = context.view();
            let handler = &script.handlers[i];
            assert(wit_state(m, cm));
            if handler.event == event_type {
                let rb = self.exec_block(&handler.body.statements, context);
                assert(wit_res(res_flow(rb)));
                if let Err(err) = rb {
                    assert(wit_at(i as int, m, cm));
                    assert(handlers_rel(hs, event_type, s, cs, *self, context.view(), res_flow(rb)));
                    assert(res_unit(Err::<(), VmError>(err)) == res_flow(rb));
                    assert(wit_vm(s));
                    return Err(err);
                }
            }
            assert(handlers_prefix(hs, event_type, i + 1, s, cs, *self, context.view()));
            i = i + 1;
        }
        assert(wit_at(hs.len() as int, *self, context.view()));
        assert(handlers_rel(hs, event_type, s, cs, *self, context.view(), Res::Done(Flow::Continue)));
        Ok(())
    }
}

} // verus!

