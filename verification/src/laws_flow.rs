//! The law of the control-flow-marking pass: the walk adds exactly one
//! marker per reachable block — the then and else branches of every `if`,
//! every loop body, and every match arm — and none anywhere else.

use vstd::prelude::*;
use crate::ast::{
    AttrV, MetaV, BlockV, ArmV, StmtV, ExprV, ElseBranchV, ItemV, SourceFileV,
};
use crate::transform_spec::{
    TfCfg, marker_stmt, mark_block, mark_else, wrap_arm, mark_arms, rewrite_scrutinee, tf_expr_s,
    tf_else_s, tf_exprs_s, tf_arms_s, tf_block_s, tf_stmts_s, tf_stmt_s, tf_attr_s, tf_attrs_s,
    tf_item_s, tf_items_s, tf_file_s,
};

verus! {

// ----------------------------------------------------------------------
// Counting markers.
// ----------------------------------------------------------------------

pub open spec fn markers_expr(e: ExprV) -> nat
    decreases e,
{
    match e {
        ExprV::StrLit { value } => 0,
        ExprV::OtherLit { text } => 0,
        ExprV::PathExpr { name } => 0,
        ExprV::MacroExpr { name, str_arg } => 0,
        ExprV::Verbatim { text } => 0,
        ExprV::Call { callee, args } => markers_expr(*callee) + markers_exprs(args),
        ExprV::MethodCall { recv, method, args } => markers_expr(*recv) + markers_exprs(args),
        ExprV::Reference { mutable, expr } => markers_expr(*expr),
        ExprV::Deref { expr } => markers_expr(*expr),
        ExprV::Paren { expr } => markers_expr(*expr),
        ExprV::BlockExpr { block } => markers_block(block),
        ExprV::If { cond, then_branch, else_branch } => markers_expr(*cond) + markers_block(
            then_branch,
        ) + match else_branch {
            Some(eb) => markers_else(*eb),
            None => 0,
        },
        ExprV::While { cond, body } => markers_expr(*cond) + markers_block(body),
        ExprV::Loop { body } => markers_block(body),
        ExprV::ForLoop { pat, iter, body } => markers_expr(*iter) + markers_block(body),
        ExprV::Match { scrutinee, arms } => markers_expr(*scrutinee) + markers_arms(arms),
    }
}

pub open spec fn markers_else(eb: ElseBranchV) -> nat
    decreases eb,
{
    match eb {
        ElseBranchV::ElseBlock { block } => markers_block(block),
        ElseBranchV::ElseIf { expr } => markers_expr(*expr),
    }
}

pub open spec fn markers_exprs(v: Seq<ExprV>) -> nat
    decreases v,
{
    if v.len() == 0 {
        0
    } else {
        markers_expr(v[0]) + markers_exprs(v.subrange(1, v.len() as int))
    }
}

pub open spec fn markers_arm(a: ArmV) -> nat
    decreases a,
{
    markers_expr(*a.body)
}

pub open spec fn markers_arms(v: Seq<ArmV>) -> nat
    decreases v,
{
    if v.len() == 0 {
        0
    } else {
        markers_arm(v[0]) + markers_arms(v.subrange(1, v.len() as int))
    }
}

pub open spec fn markers_block(b: BlockV) -> nat
    decreases b,
{
    markers_stmts(b.stmts)
}

pub open spec fn markers_stmts(v: Seq<StmtV>) -> nat
    decreases v,
{
    if v.len() == 0 {
        0
    } else {
        markers_stmt(v[0]) + markers_stmts(v.subrange(1, v.len() as int))
    }
}

pub open spec fn markers_stmt(s: StmtV) -> nat
    decreases s,
{
    match s {
        StmtV::Local { pat, init } => match init {
            Some(e) => markers_expr(*e),
            None => 0,
        },
        StmtV::ExprStmt { expr, semi } => markers_expr(*expr),
        StmtV::MacroStmt { name, str_arg } => if s == marker_stmt() {
            1
        } else {
            0
        },
        StmtV::ItemStmt { item } => markers_item(*item),
    }
}

pub open spec fn markers_attr(a: AttrV) -> nat
    decreases a,
{
    match a.meta {
        MetaV::Path { path } => 0,
        MetaV::List { path, tokens } => 0,
        MetaV::NameValue { path, value } => markers_expr(*value),
    }
}

pub open spec fn markers_attrs(v: Seq<AttrV>) -> nat
    decreases v,
{
    if v.len() == 0 {
        0
    } else {
        markers_attr(v[0]) + markers_attrs(v.subrange(1, v.len() as int))
    }
}

pub open spec fn markers_item(it: ItemV) -> nat
    decreases it,
{
    match it {
        ItemV::FnItem { attrs, name, sig, block } => markers_block(block),
        ItemV::ConstItem { attrs, name, ty, value } => markers_attrs(attrs) + markers_expr(*value),
        ItemV::UseItem { text } => 0,
        ItemV::OtherItem { attrs, text } => markers_attrs(attrs),
    }
}

pub open spec fn markers_items(v: Seq<ItemV>) -> nat
    decreases v,
{
    if v.len() == 0 {
        0
    } else {
        markers_item(v[0]) + markers_items(v.subrange(1, v.len() as int))
    }
}

pub open spec fn markers_file(f: SourceFileV) -> nat {
    markers_attrs(f.attrs) + markers_items(f.items)
}

// ----------------------------------------------------------------------
// Counting the blocks the flow pass marks: the then branch and any
// else-block of an `if`, every loop body, and every match arm, wherever
// the walk reaches them.  With the attribute gate on, blocks inside
// attributes are out of reach.
// ----------------------------------------------------------------------

pub open spec fn sites_expr(skip: bool, e: ExprV) -> nat
    decreases e,
{
    match e {
        ExprV::StrLit { value } => 0,
        ExprV::OtherLit { text } => 0,
        ExprV::PathExpr { name } => 0,
        ExprV::MacroExpr { name, str_arg } => 0,
        ExprV::Verbatim { text } => 0,
        ExprV::Call { callee, args } => sites_expr(skip, *callee) + sites_exprs(skip, args),
        ExprV::MethodCall { recv, method, args } => sites_expr(skip, *recv) + sites_exprs(
            skip,
            args,
        ),
        ExprV::Reference { mutable, expr } => sites_expr(skip, *expr),
        ExprV::Deref { expr } => sites_expr(skip, *expr),
        ExprV::Paren { expr } => sites_expr(skip, *expr),
        ExprV::BlockExpr { block } => sites_block(skip, block),
        ExprV::If { cond, then_branch, else_branch } => 1 + sites_expr(skip, *cond) + sites_block(
            skip,
            then_branch,
        ) + match else_branch {
            Some(eb) => match *eb {
                ElseBranchV::ElseBlock { block } => 1 + sites_block(skip, block),
                ElseBranchV::ElseIf { expr } => sites_expr(skip, *expr),
            },
            None => 0,
        },
        ExprV::While { cond, body } => 1 + sites_expr(skip, *cond) + sites_block(skip, body),
        ExprV::Loop { body } => 1 + sites_block(skip, body),
        ExprV::ForLoop { pat, iter, body } => 1 + sites_expr(skip, *iter) + sites_block(
            skip,
            body,
        ),
        ExprV::Match { scrutinee, arms } => arms.len() + sites_expr(skip, *scrutinee) + sites_arms(
            skip,
            arms,
        ),
    }
}

pub open spec fn sites_exprs(skip: bool, v: Seq<ExprV>) -> nat
    decreases v,
{
    if v.len() == 0 {
        0
    } else {
        sites_expr(skip, v[0]) + sites_exprs(skip, v.subrange(1, v.len() as int))
    }
}

pub open spec fn sites_arms(skip: bool, v: Seq<ArmV>) -> nat
    decreases v,
{
    if v.len() == 0 {
        0
    } else {
        sites_expr(skip, *v[0].body) + sites_arms(skip, v.subrange(1, v.len() as int))
    }
}

pub open spec fn sites_block(skip: bool, b: BlockV) -> nat
    decreases b,
{
    sites_stmts(skip, b.stmts)
}

pub open spec fn sites_stmts(skip: bool, v: Seq<StmtV>) -> nat
    decreases v,
{
    if v.len() == 0 {
        0
    } else {
        sites_stmt(skip, v[0]) + sites_stmts(skip, v.subrange(1, v.len() as int))
    }
}

pub open spec fn sites_stmt(skip: bool, s: StmtV) -> nat
    decreases s,
{
    match s {
        StmtV::Local { pat, init } => match init {
            Some(e) => sites_expr(skip, *e),
            None => 0,
        },
        StmtV::ExprStmt { expr, semi } => sites_expr(skip, *expr),
        StmtV::MacroStmt { name, str_arg } => 0,
        StmtV::ItemStmt { item } => sites_item(skip, *item),
    }
}

pub open spec fn sites_attr(skip: bool, a: AttrV) -> nat
    decreases a,
{
    if skip {
        0
    } else {
        match a.meta {
            MetaV::Path { path } => 0,
            MetaV::List { path, tokens } => 0,
            MetaV::NameValue { path, value } => sites_expr(skip, *value),
        }
    }
}

pub open spec fn sites_attrs(skip: bool, v: Seq<AttrV>) -> nat
    decreases v,
{
    if v.len() == 0 {
        0
    } else {
        sites_attr(skip, v[0]) + sites_attrs(skip, v.subrange(1, v.len() as int))
    }
}

pub open spec fn sites_item(skip: bool, it: ItemV) -> nat
    decreases it,
{
    match it {
        ItemV::FnItem { attrs, name, sig, block } => sites_block(skip, block),
        ItemV::ConstItem { attrs, name, ty, value } => sites_attrs(skip, attrs) + sites_expr(
            skip,
            *value,
        ),
        ItemV::UseItem { text } => 0,
        ItemV::OtherItem { attrs, text } => sites_attrs(skip, attrs),
    }
}

pub open spec fn sites_items(skip: bool, v: Seq<ItemV>) -> nat
    decreases v,
{
    if v.len() == 0 {
        0
    } else {
        sites_item(skip, v[0]) + sites_items(skip, v.subrange(1, v.len() as int))
    }
}

pub open spec fn sites_file(skip: bool, f: SourceFileV) -> nat {
    sites_attrs(skip, f.attrs) + sites_items(skip, f.items)
}

/// What the flow pass owes a node: one new marker per site when it is on,
/// none when it is off.
pub open spec fn owed(cfg: TfCfg, sites: nat) -> nat {
    if cfg.flow {
        sites
    } else {
        0
    }
}

// ----------------------------------------------------------------------
// Small counting facts about the marking helpers.
// ----------------------------------------------------------------------

proof fn lemma_markers_mark_block(cfg: TfCfg, b: BlockV)
    ensures
        markers_block(mark_block(cfg, b)) == markers_block(b) + (if cfg.flow {
            1nat
        } else {
            0nat
        }),
{
    if cfg.flow {
        let u = seq![marker_stmt()] + b.stmts;
        assert(u[0] == marker_stmt());
        assert(u.subrange(1, u.len() as int) =~= b.stmts);
        assert(markers_stmt(marker_stmt()) == 1);
    }
}

proof fn lemma_markers_wrap_arm(a: ArmV)
    ensures
        markers_arm(wrap_arm(a)) == 1 + markers_expr(*a.body),
{
    let u = seq![marker_stmt(), StmtV::ExprStmt { expr: a.body, semi: false }];
    assert(u[0] == marker_stmt());
    let w = u.subrange(1, u.len() as int);
    assert(w =~= seq![StmtV::ExprStmt { expr: a.body, semi: false }]);
    assert(w[0] == (StmtV::ExprStmt { expr: a.body, semi: false }));
    assert(w.subrange(1, w.len() as int) =~= Seq::<StmtV>::empty());
    assert(markers_stmts(Seq::<StmtV>::empty()) == 0);
    assert(markers_stmt(marker_stmt()) == 1);
    assert(markers_stmt(w[0]) == markers_expr(*a.body));
    assert(markers_stmts(w) == markers_stmt(w[0]) + markers_stmts(w.subrange(1, w.len() as int)));
    assert(markers_stmts(u) == markers_stmt(u[0]) + markers_stmts(w));
    assert(markers_stmts(u) == 1 + markers_expr(*a.body));
    assert(markers_arm(wrap_arm(a)) == markers_stmts(u));
}

proof fn lemma_markers_mark_arms(cfg: TfCfg, arms: Seq<ArmV>)
    ensures
        markers_arms(mark_arms(cfg, arms)) == markers_arms(arms) + (if cfg.flow {
            arms.len()
        } else {
            0nat
        }),
    decreases arms,
{
    if cfg.flow {
        let m = arms.map_values(|a: ArmV| wrap_arm(a));
        if arms.len() == 0 {
            assert(m.len() == 0);
        } else {
            lemma_markers_mark_arms(cfg, arms.subrange(1, arms.len() as int));
            lemma_markers_wrap_arm(arms[0]);
            assert(m[0] == wrap_arm(arms[0]));
            assert(m.subrange(1, m.len() as int) =~= arms.subrange(
                1,
                arms.len() as int,
            ).map_values(|a: ArmV| wrap_arm(a)));
            assert(markers_arms(m) == markers_arm(m[0]) + markers_arms(
                m.subrange(1, m.len() as int),
            ));
            assert(markers_arms(arms) == markers_arm(arms[0]) + markers_arms(
                arms.subrange(1, arms.len() as int),
            ));
            assert(markers_arm(arms[0]) == markers_expr(*arms[0].body));
        }
    }
}

// ----------------------------------------------------------------------
// The law: the walk adds exactly one marker per reachable block when the
// flow pass is on, and none when it is off — whatever the literal pass
// and the binding table do.
// ----------------------------------------------------------------------

#[verifier::rlimit(100)]
pub proof fn lemma_flow_count_expr(cfg: TfCfg, vars: Seq<Seq<char>>, e: ExprV)
    ensures
        markers_expr(tf_expr_s(cfg, vars, e).0) == markers_expr(e) + owed(
            cfg,
            sites_expr(cfg.skip_attrs, e),
        ),
    decreases e,
{
    let skip = cfg.skip_attrs;
    match e {
        ExprV::StrLit { value } => {},
        ExprV::OtherLit { text } => {},
        ExprV::PathExpr { name } => {},
        ExprV::MacroExpr { name, str_arg } => {},
        ExprV::Verbatim { text } => {},
        ExprV::Call { callee, args } => {
            lemma_flow_count_expr(cfg, vars, *callee);
            lemma_flow_count_exprs(cfg, tf_expr_s(cfg, vars, *callee).1, args);
        },
        ExprV::MethodCall { recv, method, args } => {
            lemma_flow_count_expr(cfg, vars, *recv);
            lemma_flow_count_exprs(cfg, tf_expr_s(cfg, vars, *recv).1, args);
        },
        ExprV::Reference { mutable, expr } => {
            lemma_flow_count_expr(cfg, vars, *expr);
        },
        ExprV::Deref { expr } => {
            lemma_flow_count_expr(cfg, vars, *expr);
        },
        ExprV::Paren { expr } => {
            lemma_flow_count_expr(cfg, vars, *expr);
        },
        ExprV::BlockExpr { block } => {
            lemma_flow_count_block(cfg, vars, block);
        },
        ExprV::If { cond, then_branch, else_branch } => {
            lemma_flow_count_expr(cfg, vars, *cond);
            let (c2, v1) = tf_expr_s(cfg, vars, *cond);
            lemma_flow_count_block(cfg, v1, then_branch);
            let (t2, v2) = tf_block_s(cfg, v1, then_branch);
            lemma_markers_mark_block(cfg, t2);
            match else_branch {
                None => {
                    let out = ExprV::If {
                        cond: Box::new(c2),
                        then_branch: mark_block(cfg, t2),
                        else_branch: None,
                    };
                    assert(tf_expr_s(cfg, vars, e).0 == out);
                    assert(markers_expr(out) == markers_expr(c2) + markers_block(
                        mark_block(cfg, t2),
                    ));
                    assert(markers_expr(e) == markers_expr(*cond) + markers_block(then_branch));
                    assert(sites_expr(skip, e) == 1 + sites_expr(skip, *cond) + sites_block(
                        skip,
                        then_branch,
                    ));
                },
                Some(eb) => {
                    lemma_flow_count_else(cfg, v2, *eb);
                    let (e2, v3) = tf_else_s(cfg, v2, *eb);
                    lemma_tf_else_keeps_kind(cfg, v2, *eb);
                    let me = mark_else(cfg, e2);
                    match e2 {
                        ElseBranchV::ElseBlock { block } => {
                            lemma_markers_mark_block(cfg, block);
                            assert(me == (ElseBranchV::ElseBlock {
                                block: mark_block(cfg, block),
                            }));
                            assert(markers_else(me) == markers_block(mark_block(cfg, block)));
                            assert(markers_else(me) == markers_else(e2) + (if cfg.flow {
                                1nat
                            } else {
                                0nat
                            }));
                        },
                        ElseBranchV::ElseIf { expr } => {
                            assert(me == e2);
                        },
                    }
                    let out = ExprV::If {
                        cond: Box::new(c2),
                        then_branch: mark_block(cfg, t2),
                        else_branch: Some(Box::new(me)),
                    };
                    assert(tf_expr_s(cfg, vars, e).0 == out);
                    assert(markers_expr(out) == markers_expr(c2) + markers_block(
                        mark_block(cfg, t2),
                    ) + markers_else(me));
                    assert(markers_expr(e) == markers_expr(*cond) + markers_block(then_branch)
                        + markers_else(*eb));
                    match *eb {
                        ElseBranchV::ElseBlock { block } => {
                            assert(sites_expr(skip, e) == 1 + sites_expr(skip, *cond)
                                + sites_block(skip, then_branch) + 1 + sites_block(skip, block));
                            assert(markers_else(e2) == markers_else(*eb) + owed(
                                cfg,
                                sites_block(skip, block),
                            ));
                            assert(e2 is ElseBlock);
                        },
                        ElseBranchV::ElseIf { expr } => {
                            assert(sites_expr(skip, e) == 1 + sites_expr(skip, *cond)
                                + sites_block(skip, then_branch) + sites_expr(skip, *expr));
                            assert(markers_else(e2) == markers_else(*eb) + owed(
                                cfg,
                                sites_expr(skip, *expr),
                            ));
                            assert(!(e2 is ElseBlock));
                        },
                    }
                },
            }
        },
        ExprV::While { cond, body } => {
            lemma_flow_count_expr(cfg, vars, *cond);
            let v1 = tf_expr_s(cfg, vars, *cond).1;
            lemma_flow_count_block(cfg, v1, body);
            lemma_markers_mark_block(cfg, tf_block_s(cfg, v1, body).0);
            assert(markers_expr(tf_expr_s(cfg, vars, e).0) == markers_expr(e) + owed(
                cfg,
                sites_expr(skip, e),
            ));
        },
        ExprV::Loop { body } => {
            lemma_flow_count_block(cfg, vars, body);
            lemma_markers_mark_block(cfg, tf_block_s(cfg, vars, body).0);
            assert(markers_expr(tf_expr_s(cfg, vars, e).0) == markers_expr(e) + owed(
                cfg,
                sites_expr(skip, e),
            ));
        },
        ExprV::ForLoop { pat, iter, body } => {
            lemma_flow_count_expr(cfg, vars, *iter);
            let v1 = tf_expr_s(cfg, vars, *iter).1;
            lemma_flow_count_block(cfg, v1, body);
            lemma_markers_mark_block(cfg, tf_block_s(cfg, v1, body).0);
            assert(markers_expr(tf_expr_s(cfg, vars, e).0) == markers_expr(e) + owed(
                cfg,
                sites_expr(skip, e),
            ));
        },
        ExprV::Match { scrutinee, arms } => {
            lemma_flow_count_expr(cfg, vars, *scrutinee);
            let (s2, v1) = tf_expr_s(cfg, vars, *scrutinee);
            assert(markers_expr(rewrite_scrutinee(vars, s2)) == markers_expr(s2)) by {
                match s2 {
                    ExprV::PathExpr { name } => {
                        if vars.contains(name) {
                            let d = ExprV::Deref { expr: Box::new(s2) };
                            assert(markers_expr(d) == markers_expr(s2));
                            assert(rewrite_scrutinee(vars, s2) == (ExprV::Reference {
                                mutable: false,
                                expr: Box::new(d),
                            }));
                            assert(markers_expr(ExprV::Reference {
                                mutable: false,
                                expr: Box::new(d),
                            }) == markers_expr(d));
                        }
                    },
                    _ => {},
                }
            }
            lemma_flow_count_arms(cfg, v1, arms);
            let a2 = tf_arms_s(cfg, v1, arms).0;
            lemma_tf_arms_len(cfg, v1, arms);
            lemma_markers_mark_arms(cfg, a2);
            assert(markers_expr(tf_expr_s(cfg, vars, e).0) == markers_expr(e) + owed(
                cfg,
                sites_expr(skip, e),
            ));
        },
    }
}

/// The walk keeps an else branch's kind: a block stays a block, a chained
/// `if` stays a chained `if`.
proof fn lemma_tf_else_keeps_kind(cfg: TfCfg, vars: Seq<Seq<char>>, eb: ElseBranchV)
    ensures
        tf_else_s(cfg, vars, eb).0 is ElseBlock == eb is ElseBlock,
{
    match eb {
        ElseBranchV::ElseBlock { block } => {},
        ElseBranchV::ElseIf { expr } => {},
    }
}

/// The walk keeps the number of match arms.
proof fn lemma_tf_arms_len(cfg: TfCfg, vars: Seq<Seq<char>>, arms: Seq<ArmV>)
    ensures
        tf_arms_s(cfg, vars, arms).0.len() == arms.len(),
    decreases arms,
{
    if arms.len() > 0 {
        let v1 = tf_expr_s(cfg, vars, *arms[0].body).1;
        lemma_tf_arms_len(cfg, v1, arms.subrange(1, arms.len() as int));
    }
}

pub proof fn lemma_flow_count_else(cfg: TfCfg, vars: Seq<Seq<char>>, eb: ElseBranchV)
    ensures
        markers_else(tf_else_s(cfg, vars, eb).0) == markers_else(eb) + owed(
            cfg,
            match eb {
                ElseBranchV::ElseBlock { block } => sites_block(cfg.skip_attrs, block),
                ElseBranchV::ElseIf { expr } => sites_expr(cfg.skip_attrs, *expr),
            },
        ),
    decreases eb,
{
    match eb {
        ElseBranchV::ElseBlock { block } => {
            lemma_flow_count_block(cfg, vars, block);
        },
        ElseBranchV::ElseIf { expr } => {
            lemma_flow_count_expr(cfg, vars, *expr);
        },
    }
}

pub proof fn lemma_flow_count_exprs(cfg: TfCfg, vars: Seq<Seq<char>>, v: Seq<ExprV>)
    ensures
        markers_exprs(tf_exprs_s(cfg, vars, v).0) == markers_exprs(v) + owed(
            cfg,
            sites_exprs(cfg.skip_attrs, v),
        ),
    decreases v,
{
    if v.len() > 0 {
        lemma_flow_count_expr(cfg, vars, v[0]);
        let (e2, v1) = tf_expr_s(cfg, vars, v[0]);
        lemma_flow_count_exprs(cfg, v1, v.subrange(1, v.len() as int));
        let (rest, v2) = tf_exprs_s(cfg, v1, v.subrange(1, v.len() as int));
        let u = seq![e2] + rest;
        assert(u[0] == e2);
        assert(u.subrange(1, u.len() as int) =~= rest);
    }
}

pub proof fn lemma_flow_count_arms(cfg: TfCfg, vars: Seq<Seq<char>>, v: Seq<ArmV>)
    ensures
        markers_arms(tf_arms_s(cfg, vars, v).0) == markers_arms(v) + owed(
            cfg,
            sites_arms(cfg.skip_attrs, v),
        ),
    decreases v,
{
    if v.len() > 0 {
        lemma_flow_count_expr(cfg, vars, *v[0].body);
        let (b2, v1) = tf_expr_s(cfg, vars, *v[0].body);
        lemma_flow_count_arms(cfg, v1, v.subrange(1, v.len() as int));
        let (rest, v2) = tf_arms_s(cfg, v1, v.subrange(1, v.len() as int));
        let u = seq![ArmV { pat: v[0].pat, body: Box::new(b2) }] + rest;
        assert(u[0] == (ArmV { pat: v[0].pat, body: Box::new(b2) }));
        assert(u.subrange(1, u.len() as int) =~= rest);
        assert(markers_arms(u) == markers_arm(u[0]) + markers_arms(rest));
        assert(markers_arm(u[0]) == markers_expr(b2));
        assert(markers_arms(v) == markers_arm(v[0]) + markers_arms(v.subrange(1, v.len() as int)));
        assert(markers_arm(v[0]) == markers_expr(*v[0].body));
        assert(sites_arms(cfg.skip_attrs, v) == sites_expr(cfg.skip_attrs, *v[0].body)
            + sites_arms(cfg.skip_attrs, v.subrange(1, v.len() as int)));
    }
}

pub proof fn lemma_flow_count_block(cfg: TfCfg, vars: Seq<Seq<char>>, b: BlockV)
    ensures
        markers_block(tf_block_s(cfg, vars, b).0) == markers_block(b) + owed(
            cfg,
            sites_block(cfg.skip_attrs, b),
        ),
    decreases b,
{
    lemma_flow_count_stmts(cfg, vars, b.stmts);
}

pub proof fn lemma_flow_count_stmts(cfg: TfCfg, vars: Seq<Seq<char>>, v: Seq<StmtV>)
    ensures
        markers_stmts(tf_stmts_s(cfg, vars, v).0) == markers_stmts(v) + owed(
            cfg,
            sites_stmts(cfg.skip_attrs, v),
        ),
    decreases v,
{
    if v.len() > 0 {
        lemma_flow_count_stmt(cfg, vars, v[0]);
        let (s2, v1) = tf_stmt_s(cfg, vars, v[0]);
        lemma_flow_count_stmts(cfg, v1, v.subrange(1, v.len() as int));
        let (rest, v2) = tf_stmts_s(cfg, v1, v.subrange(1, v.len() as int));
        let u = seq![s2] + rest;
        assert(u[0] == s2);
        assert(u.subrange(1, u.len() as int) =~= rest);
    }
}

#[verifier::rlimit(100)]
pub proof fn lemma_flow_count_stmt(cfg: TfCfg, vars: Seq<Seq<char>>, s: StmtV)
    ensures
        markers_stmt(tf_stmt_s(cfg, vars, s).0) == markers_stmt(s) + owed(
            cfg,
            sites_stmt(cfg.skip_attrs, s),
        ),
    decreases s,
{
    match s {
        StmtV::Local { pat, init } => {
            match init {
                None => {},
                Some(e) => {
                    let vars1 = tf_stmt_local_table(cfg, vars, s);
                    lemma_flow_count_expr(cfg, vars1, *e);
                },
            }
        },
        StmtV::ExprStmt { expr, semi } => {
            lemma_flow_count_expr(cfg, vars, *expr);
        },
        StmtV::MacroStmt { name, str_arg } => {},
        StmtV::ItemStmt { item } => {
            lemma_flow_count_item(cfg, vars, *item);
        },
    }
}

/// The binding table a `let` statement's initializer is visited under.
pub open spec fn tf_stmt_local_table(cfg: TfCfg, vars: Seq<Seq<char>>, s: StmtV) -> Seq<Seq<char>> {
    if cfg.strings && (s matches StmtV::Local { pat, init }
        && crate::transform_spec::records_binding(init)
        && crate::transform_spec::pat_root_ident(pat) is Some) {
        vars.push(crate::transform_spec::pat_root_ident(
            (s->Local_pat),
        )->0)
    } else {
        vars
    }
}

#[verifier::rlimit(100)]
pub proof fn lemma_flow_count_attr(cfg: TfCfg, vars: Seq<Seq<char>>, a: AttrV)
    ensures
        markers_attr(tf_attr_s(cfg, vars, a).0) == markers_attr(a) + owed(
            cfg,
            sites_attr(cfg.skip_attrs, a),
        ),
    decreases a,
{
    if !cfg.skip_attrs {
        match a.meta {
            MetaV::Path { path } => {},
            MetaV::List { path, tokens } => {},
            MetaV::NameValue { path, value } => {
                lemma_flow_count_expr(cfg, vars, *value);
            },
        }
    }
}

pub proof fn lemma_flow_count_attrs(cfg: TfCfg, vars: Seq<Seq<char>>, v: Seq<AttrV>)
    ensures
        markers_attrs(tf_attrs_s(cfg, vars, v).0) == markers_attrs(v) + owed(
            cfg,
            sites_attrs(cfg.skip_attrs, v),
        ),
    decreases v,
{
    if v.len() > 0 {
        lemma_flow_count_attr(cfg, vars, v[0]);
        let (a2, v1) = tf_attr_s(cfg, vars, v[0]);
        lemma_flow_count_attrs(cfg, v1, v.subrange(1, v.len() as int));
        let (rest, v2) = tf_attrs_s(cfg, v1, v.subrange(1, v.len() as int));
        let u = seq![a2] + rest;
        assert(u[0] == a2);
        assert(u.subrange(1, u.len() as int) =~= rest);
    }
}

#[verifier::rlimit(100)]
pub proof fn lemma_flow_count_item(cfg: TfCfg, vars: Seq<Seq<char>>, it: ItemV)
    ensures
        markers_item(tf_item_s(cfg, vars, it).0) == markers_item(it) + owed(
            cfg,
            sites_item(cfg.skip_attrs, it),
        ),
    decreases it,
{
    match it {
        ItemV::FnItem { attrs, name, sig, block } => {
            lemma_flow_count_block(cfg, vars, block);
        },
        ItemV::ConstItem { attrs, name, ty, value } => {
            lemma_flow_count_attrs(cfg, vars, attrs);
            let v1 = tf_attrs_s(cfg, vars, attrs).1;
            lemma_flow_count_expr(cfg, v1, *value);
        },
        ItemV::UseItem { text } => {},
        ItemV::OtherItem { attrs, text } => {
            lemma_flow_count_attrs(cfg, vars, attrs);
        },
    }
}

pub proof fn lemma_flow_count_items(cfg: TfCfg, vars: Seq<Seq<char>>, v: Seq<ItemV>)
    ensures
        markers_items(tf_items_s(cfg, vars, v).0) == markers_items(v) + owed(
            cfg,
            sites_items(cfg.skip_attrs, v),
        ),
    decreases v,
{
    if v.len() > 0 {
        lemma_flow_count_item(cfg, vars, v[0]);
        let (i2, v1) = tf_item_s(cfg, vars, v[0]);
        lemma_flow_count_items(cfg, v1, v.subrange(1, v.len() as int));
        let (rest, v2) = tf_items_s(cfg, v1, v.subrange(1, v.len() as int));
        let u = seq![i2] + rest;
        assert(u[0] == i2);
        assert(u.subrange(1, u.len() as int) =~= rest);
    }
}

/// The whole-file marker count: with the flow pass on, the walk adds
/// exactly one marker per reachable block of the file — the then and else
/// branches of every `if`, every loop body, and every match arm — and
/// with it off, it adds none.
pub proof fn lemma_flow_count_file(cfg: TfCfg, vars: Seq<Seq<char>>, f: SourceFileV)
    ensures
        markers_file(tf_file_s(cfg, vars, f).0) == markers_file(f) + owed(
            cfg,
            sites_file(cfg.skip_attrs, f),
        ),
{
    lemma_flow_count_attrs(cfg, vars, f.attrs);
    let v1 = tf_attrs_s(cfg, vars, f.attrs).1;
    lemma_flow_count_items(cfg, v1, f.items);
}

} // verus!
