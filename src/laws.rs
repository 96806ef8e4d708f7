//! Laws that relate several builder operations, stated over the views that
//! their contracts use.

use vstd::prelude::*;

use crate::expr::{binary_view, BinOp, ExprView};
use crate::fun::FunView;
use crate::scope::{InstrView, ScopeView};
use crate::shader::{DeclView, ShaderView};
use crate::typed::Literal;
use crate::types::TypeView;

verus! {

/// Lifting commutes with building an operator node: `a ⊕ b` for a host value `b`
/// builds the same tree as `a ⊕ lifted`, where `lifted` is the tree of `Expr::from(b)`.
pub proof fn lemma_lifting_commutes<T: Literal>(op: BinOp, a: ExprView, b: T, lifted: ExprView)
    requires
        lifted == b.spec_lit(),
    ensures
        binary_view(op, a, b.spec_lit()) == binary_view(op, a, lifted),
{
}

/// Borrowing does not change what an operator builds: whichever operands are
/// borrowed, the node holds the trees of both operands in order.
pub proof fn lemma_borrowing_is_transparent(op: BinOp, a: ExprView, b: ExprView, a_borrowed: ExprView, b_borrowed: ExprView)
    requires
        a_borrowed == a,
        b_borrowed == b,
    ensures
        binary_view(op, a, b) == binary_view(op, a_borrowed, b),
        binary_view(op, a, b) == binary_view(op, a, b_borrowed),
        binary_view(op, a, b) == binary_view(op, a_borrowed, b_borrowed),
{
}

/// `when(c1, b1).or_else(c2, b2).or(b3)` on a block `s` appends exactly an `If`, an
/// `ElseIf` and an `Else`, in that order, each holding the block its body built,
/// renumbered one level deeper than `s`.
pub proof fn lemma_if_chain(s: ScopeView, c1: ExprView, b1: ScopeView, c2: ExprView, b2: ScopeView, b3: ScopeView)
    requires
        s.id < u16::MAX,
    ensures
        ({
            let t = s.push(InstrView::If { condition: c1, scope: ScopeView::nested(s.id, b1) }).push(
                InstrView::ElseIf { condition: c2, scope: ScopeView::nested(s.id, b2) },
            ).push(InstrView::Else { scope: ScopeView::nested(s.id, b3) });
            let n = s.instructions.len() as int;
            &&& t.id == s.id
            &&& t.next_var == s.next_var
            &&& t.instructions.len() == n + 3
            &&& t.instructions.subrange(0, n) == s.instructions
            &&& t.instructions[n] == InstrView::If { condition: c1, scope: ScopeView::nested(s.id, b1) }
            &&& t.instructions[n + 1] == InstrView::ElseIf { condition: c2, scope: ScopeView::nested(s.id, b2) }
            &&& t.instructions[n + 2] == InstrView::Else { scope: ScopeView::nested(s.id, b3) }
        }),
        ScopeView::nested(s.id, b1).id == s.id + 1 && ScopeView::nested(s.id, b1).instructions == b1.instructions,
        ScopeView::nested(s.id, b2).id == s.id + 1 && ScopeView::nested(s.id, b2).instructions == b2.instructions,
        ScopeView::nested(s.id, b3).id == s.id + 1 && ScopeView::nested(s.id, b3).instructions == b3.instructions,
{
    let t = s.push(InstrView::If { condition: c1, scope: ScopeView::nested(s.id, b1) }).push(
        InstrView::ElseIf { condition: c2, scope: ScopeView::nested(s.id, b2) },
    ).push(InstrView::Else { scope: ScopeView::nested(s.id, b3) });
    assert(t.instructions.subrange(0, s.instructions.len() as int) =~= s.instructions);
}

/// `s` after registering an input of each type of `tys`, in order.
pub open spec fn with_inputs(s: ShaderView, tys: Seq<TypeView>) -> ShaderView
    decreases tys.len(),
{
    if tys.len() == 0 {
        s
    } else {
        with_inputs(s, tys.drop_last()).with_input(tys.last())
    }
}

/// `s` after registering an output of each type of `tys`, in order.
pub open spec fn with_outputs(s: ShaderView, tys: Seq<TypeView>) -> ShaderView
    decreases tys.len(),
{
    if tys.len() == 0 {
        s
    } else {
        with_outputs(s, tys.drop_last()).with_output(tys.last())
    }
}

/// `s` after registering a constant for each type and value of `cs`, in order.
pub open spec fn with_constants(s: ShaderView, cs: Seq<(TypeView, ExprView)>) -> ShaderView
    decreases cs.len(),
{
    if cs.len() == 0 {
        s
    } else {
        with_constants(s, cs.drop_last()).with_constant(cs.last().0, cs.last().1)
    }
}

/// `s` after registering each function of `fs`, in order.
pub open spec fn with_funs(s: ShaderView, fs: Seq<FunView>) -> ShaderView
    decreases fs.len(),
{
    if fs.len() == 0 {
        s
    } else {
        with_funs(s, fs.drop_last()).with_fun(fs.last())
    }
}

proof fn lemma_with_inputs(s: ShaderView, tys: Seq<TypeView>)
    requires
        s.next_global_handle + tys.len() <= u16::MAX,
    ensures
        with_inputs(s, tys).next_global_handle == s.next_global_handle + tys.len(),
        with_inputs(s, tys).next_fun_handle == s.next_fun_handle,
        with_inputs(s, tys).decls == s.decls + Seq::new(
            tys.len(),
            |i: int| DeclView::In((s.next_global_handle + i) as u16, tys[i]),
        ),
    decreases tys.len(),
{
    let f = |i: int| DeclView::In((s.next_global_handle + i) as u16, tys[i]);
    if tys.len() == 0 {
        assert(s.decls + Seq::new(0, f) =~= s.decls);
    } else {
        lemma_with_inputs(s, tys.drop_last());
        assert(s.decls + Seq::new(tys.len(), f) =~= (s.decls + Seq::new((tys.len() - 1) as nat, f)).push(
            f(tys.len() - 1),
        ));
        assert(Seq::new((tys.len() - 1) as nat, f) =~= Seq::new(
            tys.drop_last().len(),
            |i: int| DeclView::In((s.next_global_handle + i) as u16, tys.drop_last()[i]),
        ));
    }
}

proof fn lemma_with_outputs(s: ShaderView, tys: Seq<TypeView>)
    requires
        s.next_global_handle + tys.len() <= u16::MAX,
    ensures
        with_outputs(s, tys).next_global_handle == s.next_global_handle + tys.len(),
        with_outputs(s, tys).next_fun_handle == s.next_fun_handle,
        with_outputs(s, tys).decls == s.decls + Seq::new(
            tys.len(),
            |i: int| DeclView::Out((s.next_global_handle + i) as u16, tys[i]),
        ),
    decreases tys.len(),
{
    let f = |i: int| DeclView::Out((s.next_global_handle + i) as u16, tys[i]);
    if tys.len() == 0 {
        assert(s.decls + Seq::new(0, f) =~= s.decls);
    } else {
        lemma_with_outputs(s, tys.drop_last());
        assert(s.decls + Seq::new(tys.len(), f) =~= (s.decls + Seq::new((tys.len() - 1) as nat, f)).push(
            f(tys.len() - 1),
        ));
        assert(Seq::new((tys.len() - 1) as nat, f) =~= Seq::new(
            tys.drop_last().len(),
            |i: int| DeclView::Out((s.next_global_handle + i) as u16, tys.drop_last()[i]),
        ));
    }
}

proof fn lemma_with_constants(s: ShaderView, cs: Seq<(TypeView, ExprView)>)
    requires
        s.next_global_handle + cs.len() <= u16::MAX,
    ensures
        with_constants(s, cs).next_global_handle == s.next_global_handle + cs.len(),
        with_constants(s, cs).next_fun_handle == s.next_fun_handle,
        with_constants(s, cs).decls == s.decls + Seq::new(
            cs.len(),
            |i: int| DeclView::Const((s.next_global_handle + i) as u16, cs[i].0, cs[i].1),
        ),
    decreases cs.len(),
{
    let f = |i: int| DeclView::Const((s.next_global_handle + i) as u16, cs[i].0, cs[i].1);
    if cs.len() == 0 {
        assert(s.decls + Seq::new(0, f) =~= s.decls);
    } else {
        lemma_with_constants(s, cs.drop_last());
        assert(s.decls + Seq::new(cs.len(), f) =~= (s.decls + Seq::new((cs.len() - 1) as nat, f)).push(
            f(cs.len() - 1),
        ));
        assert(Seq::new((cs.len() - 1) as nat, f) =~= Seq::new(
            cs.drop_last().len(),
            |i: int| DeclView::Const((s.next_global_handle + i) as u16, cs.drop_last()[i].0, cs.drop_last()[i].1),
        ));
    }
}

proof fn lemma_with_funs(s: ShaderView, fs: Seq<FunView>)
    requires
        s.next_fun_handle + fs.len() <= u16::MAX,
    ensures
        with_funs(s, fs).next_fun_handle == s.next_fun_handle + fs.len(),
        with_funs(s, fs).next_global_handle == s.next_global_handle,
        with_funs(s, fs).decls == s.decls + Seq::new(
            fs.len(),
            |i: int| DeclView::FunDef((s.next_fun_handle + i) as u16, fs[i]),
        ),
    decreases fs.len(),
{
    let f = |i: int| DeclView::FunDef((s.next_fun_handle + i) as u16, fs[i]);
    if fs.len() == 0 {
        assert(s.decls + Seq::new(0, f) =~= s.decls);
    } else {
        lemma_with_funs(s, fs.drop_last());
        assert(s.decls + Seq::new(fs.len(), f) =~= (s.decls + Seq::new((fs.len() - 1) as nat, f)).push(
            f(fs.len() - 1),
        ));
        assert(Seq::new((fs.len() - 1) as nat, f) =~= Seq::new(
            fs.drop_last().len(),
            |i: int| DeclView::FunDef((s.next_fun_handle + i) as u16, fs.drop_last()[i]),
        ));
    }
}

/// Registering `k` inputs, `m` outputs, `c` constants, `f` functions and then the
/// entry point, in that order, on a new shader yields `k + m + c + f + 1`
/// declarations in exactly that order: the globals numbered `0 .. k + m + c` and the
/// functions `0 .. f`, in registration order.
pub proof fn lemma_registration_order(
    ins: Seq<TypeView>,
    outs: Seq<TypeView>,
    consts: Seq<(TypeView, ExprView)>,
    funs: Seq<FunView>,
    main: FunView,
)
    requires
        ins.len() + outs.len() + consts.len() <= u16::MAX,
        funs.len() <= u16::MAX,
    ensures
        ({
            let t = with_funs(with_constants(with_outputs(with_inputs(ShaderView::empty(), ins), outs), consts), funs).with_main(main);
            let (k, m, c, f) = (ins.len() as int, outs.len() as int, consts.len() as int, funs.len() as int);
            &&& t.decls.len() == k + m + c + f + 1
            &&& forall|i: int| 0 <= i < k ==> #[trigger] t.decls[i] == DeclView::In(i as u16, ins[i])
            &&& forall|i: int| 0 <= i < m ==> #[trigger] t.decls[k + i] == DeclView::Out((k + i) as u16, outs[i])
            &&& forall|i: int|
                0 <= i < c ==> #[trigger] t.decls[k + m + i] == DeclView::Const((k + m + i) as u16, consts[i].0, consts[i].1)
            &&& forall|i: int| 0 <= i < f ==> #[trigger] t.decls[k + m + c + i] == DeclView::FunDef(i as u16, funs[i])
            &&& t.decls[k + m + c + f] == DeclView::Main(main)
            &&& t.next_global_handle == k + m + c
            &&& t.next_fun_handle == f
        }),
{
    let s0 = ShaderView::empty();
    let s1 = with_inputs(s0, ins);
    lemma_with_inputs(s0, ins);
    let s2 = with_outputs(s1, outs);
    lemma_with_outputs(s1, outs);
    let s3 = with_constants(s2, consts);
    lemma_with_constants(s2, consts);
    let s4 = with_funs(s3, funs);
    lemma_with_funs(s3, funs);
    let t = s4.with_main(main);
    let (k, m, c, f) = (ins.len() as int, outs.len() as int, consts.len() as int, funs.len() as int);
    assert forall|i: int| 0 <= i < k implies #[trigger] t.decls[i] == DeclView::In(i as u16, ins[i]) by {
        assert(t.decls[i] == s4.decls[i]);
        assert(s4.decls[i] == s3.decls[i]);
        assert(s3.decls[i] == s2.decls[i]);
        assert(s2.decls[i] == s1.decls[i]);
    }
    assert forall|i: int| 0 <= i < m implies #[trigger] t.decls[k + i] == DeclView::Out((k + i) as u16, outs[i]) by {
        assert(t.decls[k + i] == s4.decls[k + i]);
        assert(s4.decls[k + i] == s3.decls[k + i]);
        assert(s3.decls[k + i] == s2.decls[k + i]);
    }
    assert forall|i: int| 0 <= i < c implies #[trigger] t.decls[k + m + i] == DeclView::Const(
        (k + m + i) as u16,
        consts[i].0,
        consts[i].1,
    ) by {
        assert(t.decls[k + m + i] == s4.decls[k + m + i]);
        assert(s4.decls[k + m + i] == s3.decls[k + m + i]);
    }
    assert forall|i: int| 0 <= i < f implies #[trigger] t.decls[k + m + c + i] == DeclView::FunDef(i as u16, funs[i]) by {
        assert(t.decls[k + m + c + i] == s4.decls[k + m + c + i]);
    }
}

} // verus!
