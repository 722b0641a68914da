//! Laws of the transformation engine, proved once and for all over the
//! specification walk.

use vstd::prelude::*;
use crate::ast::{
    AttrV, MetaV, BlockV, ArmV, StmtV, ExprV, ElseBranchV, ItemV, SourceFileV,
};
use crate::transform_spec::{
    TfCfg, protect_name, wrap_literal, tf_expr_s, tf_else_s, tf_exprs_s, tf_arms_s, tf_block_s,
    tf_stmts_s, tf_stmt_s, tf_attr_s, tf_attrs_s, tf_item_s, tf_items_s, tf_file_s,
    strings_fired, flow_fired, insert_uses_gated, spec_transform_file,
};

verus! {

/// A configuration with every pass disabled.
pub open spec fn passes_off(cfg: TfCfg) -> bool {
    !cfg.strings && !cfg.flow
}

// ----------------------------------------------------------------------
// With every pass disabled the walk is the identity: nothing is wrapped
// or marked, no binding is recorded and no scrutinee is rewritten.
// ----------------------------------------------------------------------

pub proof fn lemma_all_off_expr(cfg: TfCfg, vars: Seq<Seq<char>>, e: ExprV)
    requires
        passes_off(cfg),
    ensures
        tf_expr_s(cfg, vars, e) == (e, vars),
    decreases e,
{
    match e {
        ExprV::StrLit { value } => {},
        ExprV::OtherLit { text } => {},
        ExprV::PathExpr { name } => {},
        ExprV::MacroExpr { name, str_arg } => {},
        ExprV::Verbatim { text } => {},
        ExprV::Call { callee, args } => {
            lemma_all_off_expr(cfg, vars, *callee);
            lemma_all_off_exprs(cfg, vars, args);
            assert(tf_expr_s(cfg, vars, e).0 == (ExprV::Call { callee, args }));
        },
        ExprV::MethodCall { recv, method, args } => {
            lemma_all_off_expr(cfg, vars, *recv);
            lemma_all_off_exprs(cfg, vars, args);
            assert(tf_expr_s(cfg, vars, e).0 == (ExprV::MethodCall { recv, method, args }));
        },
        ExprV::Reference { mutable, expr } => {
            lemma_all_off_expr(cfg, vars, *expr);
            assert(tf_expr_s(cfg, vars, e).0 == (ExprV::Reference { mutable, expr }));
        },
        ExprV::Deref { expr } => {
            lemma_all_off_expr(cfg, vars, *expr);
            assert(tf_expr_s(cfg, vars, e).0 == (ExprV::Deref { expr }));
        },
        ExprV::Paren { expr } => {
            lemma_all_off_expr(cfg, vars, *expr);
            assert(tf_expr_s(cfg, vars, e).0 == (ExprV::Paren { expr }));
        },
        ExprV::BlockExpr { block } => {
            lemma_all_off_block(cfg, vars, block);
            assert(tf_expr_s(cfg, vars, e).0 == (ExprV::BlockExpr { block }));
        },
        ExprV::If { cond, then_branch, else_branch } => {
            lemma_all_off_expr(cfg, vars, *cond);
            lemma_all_off_block(cfg, vars, then_branch);
            match else_branch {
                None => {
                    assert(tf_expr_s(cfg, vars, e).0 == (ExprV::If {
                        cond,
                        then_branch,
                        else_branch,
                    }));
                },
                Some(eb) => {
                    lemma_all_off_else(cfg, vars, *eb);
                    assert(crate::transform_spec::mark_else(cfg, *eb) == *eb);
                    assert(tf_expr_s(cfg, vars, e).0 == (ExprV::If {
                        cond,
                        then_branch,
                        else_branch,
                    }));
                },
            }
        },
        ExprV::While { cond, body } => {
            lemma_all_off_expr(cfg, vars, *cond);
            lemma_all_off_block(cfg, vars, body);
            assert(tf_expr_s(cfg, vars, e).0 == (ExprV::While { cond, body }));
        },
        ExprV::Loop { body } => {
            lemma_all_off_block(cfg, vars, body);
            assert(tf_expr_s(cfg, vars, e).0 == (ExprV::Loop { body }));
        },
        ExprV::ForLoop { pat, iter, body } => {
            lemma_all_off_expr(cfg, vars, *iter);
            lemma_all_off_block(cfg, vars, body);
            assert(tf_expr_s(cfg, vars, e).0 == (ExprV::ForLoop { pat, iter, body }));
        },
        ExprV::Match { scrutinee, arms } => {
            lemma_all_off_expr(cfg, vars, *scrutinee);
            lemma_all_off_arms(cfg, vars, arms);
            assert(tf_expr_s(cfg, vars, e).0 == (ExprV::Match { scrutinee, arms }));
        },
    }
}

pub proof fn lemma_all_off_else(cfg: TfCfg, vars: Seq<Seq<char>>, eb: ElseBranchV)
    requires
        passes_off(cfg),
    ensures
        tf_else_s(cfg, vars, eb) == (eb, vars),
    decreases eb,
{
    match eb {
        ElseBranchV::ElseBlock { block } => {
            lemma_all_off_block(cfg, vars, block);
            assert(tf_else_s(cfg, vars, eb).0 == (ElseBranchV::ElseBlock { block }));
        },
        ElseBranchV::ElseIf { expr } => {
            lemma_all_off_expr(cfg, vars, *expr);
            assert(tf_else_s(cfg, vars, eb).0 == (ElseBranchV::ElseIf { expr }));
        },
    }
}

pub proof fn lemma_all_off_exprs(cfg: TfCfg, vars: Seq<Seq<char>>, v: Seq<ExprV>)
    requires
        passes_off(cfg),
    ensures
        tf_exprs_s(cfg, vars, v) == (v, vars),
    decreases v,
{
    if v.len() > 0 {
        lemma_all_off_expr(cfg, vars, v[0]);
        lemma_all_off_exprs(cfg, vars, v.subrange(1, v.len() as int));
        assert(seq![v[0]] + v.subrange(1, v.len() as int) =~= v);
    }
}

pub proof fn lemma_all_off_arms(cfg: TfCfg, vars: Seq<Seq<char>>, v: Seq<ArmV>)
    requires
        passes_off(cfg),
    ensures
        tf_arms_s(cfg, vars, v) == (v, vars),
    decreases v,
{
    if v.len() > 0 {
        lemma_all_off_expr(cfg, vars, *v[0].body);
        lemma_all_off_arms(cfg, vars, v.subrange(1, v.len() as int));
        assert((ArmV { pat: v[0].pat, body: v[0].body }) == v[0]);
        assert(seq![v[0]] + v.subrange(1, v.len() as int) =~= v);
    }
}

pub proof fn lemma_all_off_block(cfg: TfCfg, vars: Seq<Seq<char>>, b: BlockV)
    requires
        passes_off(cfg),
    ensures
        tf_block_s(cfg, vars, b) == (b, vars),
    decreases b,
{
    lemma_all_off_stmts(cfg, vars, b.stmts);
    assert((BlockV { stmts: b.stmts }) == b);
}

pub proof fn lemma_all_off_stmts(cfg: TfCfg, vars: Seq<Seq<char>>, v: Seq<StmtV>)
    requires
        passes_off(cfg),
    ensures
        tf_stmts_s(cfg, vars, v) == (v, vars),
    decreases v,
{
    if v.len() > 0 {
        lemma_all_off_stmt(cfg, vars, v[0]);
        lemma_all_off_stmts(cfg, vars, v.subrange(1, v.len() as int));
        assert(seq![v[0]] + v.subrange(1, v.len() as int) =~= v);
    }
}

pub proof fn lemma_all_off_stmt(cfg: TfCfg, vars: Seq<Seq<char>>, s: StmtV)
    requires
        passes_off(cfg),
    ensures
        tf_stmt_s(cfg, vars, s) == (s, vars),
    decreases s,
{
    match s {
        StmtV::Local { pat, init } => {
            match init {
                None => {},
                Some(e) => {
                    lemma_all_off_expr(cfg, vars, *e);
                    assert(tf_stmt_s(cfg, vars, s).0 == (StmtV::Local { pat, init }));
                },
            }
        },
        StmtV::ExprStmt { expr, semi } => {
            lemma_all_off_expr(cfg, vars, *expr);
            assert(tf_stmt_s(cfg, vars, s).0 == (StmtV::ExprStmt { expr, semi }));
        },
        StmtV::MacroStmt { name, str_arg } => {},
        StmtV::ItemStmt { item } => {
            lemma_all_off_item(cfg, vars, *item);
            assert(tf_stmt_s(cfg, vars, s).0 == (StmtV::ItemStmt { item }));
        },
    }
}

pub proof fn lemma_all_off_attr(cfg: TfCfg, vars: Seq<Seq<char>>, a: AttrV)
    requires
        passes_off(cfg),
    ensures
        tf_attr_s(cfg, vars, a) == (a, vars),
    decreases a,
{
    if !cfg.skip_attrs {
        match a.meta {
            MetaV::Path { path } => {},
            MetaV::List { path, tokens } => {},
            MetaV::NameValue { path, value } => {
                lemma_all_off_expr(cfg, vars, *value);
                assert(tf_attr_s(cfg, vars, a).0 == (AttrV {
                    inner: a.inner,
                    meta: MetaV::NameValue { path, value },
                }));
                assert((AttrV { inner: a.inner, meta: MetaV::NameValue { path, value } }) == a);
            },
        }
    }
}

#[verifier::rlimit(100)]
pub proof fn lemma_all_off_attrs(cfg: TfCfg, vars: Seq<Seq<char>>, v: Seq<AttrV>)
    requires
        passes_off(cfg),
    ensures
        tf_attrs_s(cfg, vars, v) == (v, vars),
    decreases v,
{
    if v.len() > 0 {
        lemma_all_off_attr(cfg, vars, v[0]);
        lemma_all_off_attrs(cfg, vars, v.subrange(1, v.len() as int));
        assert(seq![v[0]] + v.subrange(1, v.len() as int) =~= v);
    }
}

pub proof fn lemma_all_off_item(cfg: TfCfg, vars: Seq<Seq<char>>, it: ItemV)
    requires
        passes_off(cfg),
    ensures
        tf_item_s(cfg, vars, it) == (it, vars),
    decreases it,
{
    match it {
        ItemV::FnItem { attrs, name, sig, block } => {
            lemma_all_off_block(cfg, vars, block);
            assert(tf_item_s(cfg, vars, it).0 == (ItemV::FnItem { attrs, name, sig, block }));
        },
        ItemV::ConstItem { attrs, name, ty, value } => {
            lemma_all_off_attrs(cfg, vars, attrs);
            lemma_all_off_expr(cfg, vars, *value);
            assert(tf_item_s(cfg, vars, it).0 == (ItemV::ConstItem { attrs, name, ty, value }));
        },
        ItemV::UseItem { text } => {},
        ItemV::OtherItem { attrs, text } => {
            lemma_all_off_attrs(cfg, vars, attrs);
            assert(tf_item_s(cfg, vars, it).0 == (ItemV::OtherItem { attrs, text }));
        },
    }
}

pub proof fn lemma_all_off_items(cfg: TfCfg, vars: Seq<Seq<char>>, v: Seq<ItemV>)
    requires
        passes_off(cfg),
    ensures
        tf_items_s(cfg, vars, v) == (v, vars),
    decreases v,
{
    if v.len() > 0 {
        lemma_all_off_item(cfg, vars, v[0]);
        lemma_all_off_items(cfg, vars, v.subrange(1, v.len() as int));
        assert(seq![v[0]] + v.subrange(1, v.len() as int) =~= v);
    }
}

/// With every pass disabled, the whole per-file transformation returns
/// every file unchanged: no node is rewritten, no binding is recorded, no
/// scrutinee is touched, and no import is added.
pub proof fn lemma_all_passes_off_identity(cfg: TfCfg, f: SourceFileV)
    requires
        passes_off(cfg),
    ensures
        spec_transform_file(cfg, f) == f,
{
    lemma_all_off_attrs(cfg, Seq::empty(), f.attrs);
    lemma_all_off_items(cfg, Seq::empty(), f.items);
    let g = tf_file_s(cfg, Seq::empty(), f).0;
    assert(g == (SourceFileV { attrs: f.attrs, items: f.items }));
    assert(g == f);
    assert(!strings_fired(cfg, f) && !flow_fired(cfg, f));
    assert(insert_uses_gated(false, false, g).items =~= g.items);
    assert(insert_uses_gated(false, false, g) == g);
}

// ----------------------------------------------------------------------
// Literal gating: too-short literals and ignore-listed literals are never
// wrapped, whatever the other passes do.
// ----------------------------------------------------------------------

/// What the walk does to one string literal: wrapped exactly when the
/// literal pass is on, the value reaches the configured minimum length,
/// and the value is not ignore-listed; the binding table never changes.
pub proof fn lemma_literal_gating(cfg: TfCfg, vars: Seq<Seq<char>>, value: Seq<char>)
    ensures
        tf_expr_s(cfg, vars, ExprV::StrLit { value }).1 == vars,
        cfg.strings && wrap_literal(cfg, value) ==> tf_expr_s(cfg, vars, ExprV::StrLit { value }).0
            == (ExprV::MacroExpr { name: protect_name(), str_arg: Some(value) }),
        cfg.ignore.contains(value) ==> tf_expr_s(cfg, vars, ExprV::StrLit { value }).0 == (
        ExprV::StrLit { value }),
        (cfg.min_len matches Some(m) && vstd::utf8::encode_utf8(value).len() < m) ==> tf_expr_s(
            cfg,
            vars,
            ExprV::StrLit { value },
        ).0 == (ExprV::StrLit { value }),
        !cfg.strings ==> tf_expr_s(cfg, vars, ExprV::StrLit { value }).0 == (ExprV::StrLit {
            value,
        }),
{
}

// ----------------------------------------------------------------------
// The attribute gate: with skip-attributes on, no attribute is touched by
// the walk, wherever it stands.
// ----------------------------------------------------------------------

/// With the attribute gate on, the walk leaves every attribute list
/// unchanged and records nothing while crossing it.
pub proof fn lemma_skip_attributes(cfg: TfCfg, vars: Seq<Seq<char>>, v: Seq<AttrV>)
    requires
        cfg.skip_attrs,
    ensures
        tf_attrs_s(cfg, vars, v) == (v, vars),
    decreases v,
{
    if v.len() > 0 {
        lemma_skip_attributes(cfg, vars, v.subrange(1, v.len() as int));
        assert(tf_attr_s(cfg, vars, v[0]) == (v[0], vars));
        assert(seq![v[0]] + v.subrange(1, v.len() as int) =~= v);
        assert(tf_attrs_s(cfg, vars, v).0 =~= v);
    }
}

} // verus!
