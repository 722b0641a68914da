//! The specification of the transformation engine: a recursive, depth-first
//! walk over the syntax-tree view that applies the literal-protection pass,
//! the control-flow-marking pass, the protected-binding scrutinee rewrite,
//! and the attribute gate, threading the protected-binding table through the
//! traversal in program order.
//!
//! Identifier renaming is specified separately (see the renaming relation):
//! it only rewrites declaration-site names and is applied after this
//! deterministic walk; no other pass reads a declaration-site name, so the
//! combined result is the same as folding it into the walk.

use vstd::prelude::*;
use crate::ast::{
    AttrV, MetaV, PatV, BlockV, ArmV, StmtV, ExprV, ElseBranchV, ItemV, SourceFileV,
};

verus! {

/// The pass toggles and literal filters the engine walks under.
pub ghost struct TfCfg {
    /// Wrap string literals in protection calls.
    pub strings: bool,
    /// Insert flow markers at the head of every reachable block.
    pub flow: bool,
    /// Do not descend into attributes at all.
    pub skip_attrs: bool,
    /// Leave string literals whose UTF-8 encoding is shorter than this
    /// unwrapped.
    pub min_len: Option<nat>,
    /// Leave these string literals unwrapped, whatever their length.
    pub ignore: Seq<Seq<char>>,
}

/// The name of the literal-protection macro.
pub open spec fn protect_name() -> Seq<char> {
    "obfuscate_string"@
}

/// The name of the flow-marker macro.
pub open spec fn flow_name() -> Seq<char> {
    "obfuscate_flow"@
}

/// The import path of the literal-protection macro.
pub open spec fn protect_use_path() -> Seq<char> {
    "rust_code_obfuscator::obfuscate_string"@
}

/// The import path of the flow-marker macro.
pub open spec fn flow_use_path() -> Seq<char> {
    "rust_code_obfuscator::obfuscate_flow"@
}

/// The flow-marker statement, `obfuscate_flow!();`.
pub open spec fn marker_stmt() -> StmtV {
    StmtV::MacroStmt { name: flow_name(), str_arg: None }
}

/// Whether the literal-protection pass wraps a literal with value `v`:
/// it must not be under the configured minimum length and must not be on
/// the ignore list.  Lengths are counted in bytes of the value's UTF-8
/// encoding.
pub open spec fn wrap_literal(cfg: TfCfg, v: Seq<char>) -> bool {
    &&& !(cfg.min_len matches Some(m) && vstd::utf8::encode_utf8(v).len() < m)
    &&& !cfg.ignore.contains(v)
}

/// The binding identifier a `let` pattern declares, seen through any
/// type ascriptions; patterns that bind more than one name record none.
pub open spec fn pat_root_ident(p: PatV) -> Option<Seq<char>>
    decreases p,
{
    match p {
        PatV::Ident { name } => Some(name),
        PatV::Typed { pat, ty } => pat_root_ident(*pat),
        PatV::Wild => None,
        PatV::Other { text } => None,
    }
}

/// Prepends the flow marker to a block when the flow pass is on.
pub open spec fn mark_block(cfg: TfCfg, b: BlockV) -> BlockV {
    if cfg.flow {
        BlockV { stmts: seq![marker_stmt()] + b.stmts }
    } else {
        b
    }
}

/// Marks the block of an `else { ... }`; an `else if` is marked by the
/// recursion into its own branches instead.
pub open spec fn mark_else(cfg: TfCfg, eb: ElseBranchV) -> ElseBranchV {
    match eb {
        ElseBranchV::ElseBlock { block } => ElseBranchV::ElseBlock { block: mark_block(cfg, block) },
        ElseBranchV::ElseIf { expr } => ElseBranchV::ElseIf { expr },
    }
}

/// Wraps a match-arm body so the marker runs first and the body keeps its
/// value: `{ obfuscate_flow!(); <body> }`.
pub open spec fn wrap_arm(a: ArmV) -> ArmV {
    ArmV {
        pat: a.pat,
        body: Box::new(
            ExprV::BlockExpr {
                block: BlockV {
                    stmts: seq![
                        marker_stmt(),
                        StmtV::ExprStmt { expr: a.body, semi: false },
                    ],
                },
            },
        ),
    }
}

/// Wraps every arm body when the flow pass is on.
pub open spec fn mark_arms(cfg: TfCfg, arms: Seq<ArmV>) -> Seq<ArmV> {
    if cfg.flow {
        arms.map_values(|a: ArmV| wrap_arm(a))
    } else {
        arms
    }
}

/// Rewrites a transformed match scrutinee that is a protected binding to a
/// transparent dereferenced view of it, `&*name`.  Part of the literal
/// pass: the walk applies it only when that pass is on.
pub open spec fn rewrite_scrutinee(vars: Seq<Seq<char>>, s: ExprV) -> ExprV {
    if s matches ExprV::PathExpr { name } && vars.contains(name) {
        ExprV::Reference { mutable: false, expr: Box::new(ExprV::Deref { expr: Box::new(s) }) }
    } else {
        s
    }
}

// ----------------------------------------------------------------------
// The walk itself.  Each function returns the transformed node and the
// protected-binding table as it stands after the node.
// ----------------------------------------------------------------------

pub open spec fn tf_expr_s(cfg: TfCfg, vars: Seq<Seq<char>>, e: ExprV) -> (ExprV, Seq<Seq<char>>)
    decreases e,
{
    match e {
        ExprV::StrLit { value } => {
            if cfg.strings && wrap_literal(cfg, value) {
                (ExprV::MacroExpr { name: protect_name(), str_arg: Some(value) }, vars)
            } else {
                (e, vars)
            }
        },
        ExprV::OtherLit { text } => (e, vars),
        ExprV::PathExpr { name } => (e, vars),
        ExprV::MacroExpr { name, str_arg } => (e, vars),
        ExprV::Verbatim { text } => (e, vars),
        ExprV::Call { callee, args } => {
            let (c2, v1) = tf_expr_s(cfg, vars, *callee);
            let (a2, v2) = tf_exprs_s(cfg, v1, args);
            (ExprV::Call { callee: Box::new(c2), args: a2 }, v2)
        },
        ExprV::MethodCall { recv, method, args } => {
            let (r2, v1) = tf_expr_s(cfg, vars, *recv);
            let (a2, v2) = tf_exprs_s(cfg, v1, args);
            (ExprV::MethodCall { recv: Box::new(r2), method, args: a2 }, v2)
        },
        ExprV::Reference { mutable, expr } => {
            let (e2, v1) = tf_expr_s(cfg, vars, *expr);
            (ExprV::Reference { mutable, expr: Box::new(e2) }, v1)
        },
        ExprV::Deref { expr } => {
            let (e2, v1) = tf_expr_s(cfg, vars, *expr);
            (ExprV::Deref { expr: Box::new(e2) }, v1)
        },
        ExprV::Paren { expr } => {
            let (e2, v1) = tf_expr_s(cfg, vars, *expr);
            (ExprV::Paren { expr: Box::new(e2) }, v1)
        },
        ExprV::BlockExpr { block } => {
            let (b2, v1) = tf_block_s(cfg, vars, block);
            (ExprV::BlockExpr { block: b2 }, v1)
        },
        ExprV::If { cond, then_branch, else_branch } => {
            let (c2, v1) = tf_expr_s(cfg, vars, *cond);
            let (t2, v2) = tf_block_s(cfg, v1, then_branch);
            match else_branch {
                None => (
                    ExprV::If {
                        cond: Box::new(c2),
                        then_branch: mark_block(cfg, t2),
                        else_branch: None,
                    },
                    v2,
                ),
                Some(eb) => {
                    let (e2, v3) = tf_else_s(cfg, v2, *eb);
                    (
                        ExprV::If {
                            cond: Box::new(c2),
                            then_branch: mark_block(cfg, t2),
                            else_branch: Some(Box::new(mark_else(cfg, e2))),
                        },
                        v3,
                    )
                },
            }
        },
        ExprV::While { cond, body } => {
            let (c2, v1) = tf_expr_s(cfg, vars, *cond);
            let (b2, v2) = tf_block_s(cfg, v1, body);
            (ExprV::While { cond: Box::new(c2), body: mark_block(cfg, b2) }, v2)
        },
        ExprV::Loop { body } => {
            let (b2, v1) = tf_block_s(cfg, vars, body);
            (ExprV::Loop { body: mark_block(cfg, b2) }, v1)
        },
        ExprV::ForLoop { pat, iter, body } => {
            let (i2, v1) = tf_expr_s(cfg, vars, *iter);
            let (b2, v2) = tf_block_s(cfg, v1, body);
            (ExprV::ForLoop { pat, iter: Box::new(i2), body: mark_block(cfg, b2) }, v2)
        },
        ExprV::Match { scrutinee, arms } => {
            let (s2, v1) = tf_expr_s(cfg, vars, *scrutinee);
            let s3 = if cfg.strings {
                rewrite_scrutinee(vars, s2)
            } else {
                s2
            };
            let (a2, v2) = tf_arms_s(cfg, v1, arms);
            (ExprV::Match { scrutinee: Box::new(s3), arms: mark_arms(cfg, a2) }, v2)
        },
    }
}

pub open spec fn tf_else_s(cfg: TfCfg, vars: Seq<Seq<char>>, eb: ElseBranchV) -> (
    ElseBranchV,
    Seq<Seq<char>>,
)
    decreases eb,
{
    match eb {
        ElseBranchV::ElseBlock { block } => {
            let (b2, v1) = tf_block_s(cfg, vars, block);
            (ElseBranchV::ElseBlock { block: b2 }, v1)
        },
        ElseBranchV::ElseIf { expr } => {
            let (e2, v1) = tf_expr_s(cfg, vars, *expr);
            (ElseBranchV::ElseIf { expr: Box::new(e2) }, v1)
        },
    }
}

pub open spec fn tf_exprs_s(cfg: TfCfg, vars: Seq<Seq<char>>, es: Seq<ExprV>) -> (
    Seq<ExprV>,
    Seq<Seq<char>>,
)
    decreases es,
{
    if es.len() == 0 {
        (es, vars)
    } else {
        let (e2, v1) = tf_expr_s(cfg, vars, es[0]);
        let (rest, v2) = tf_exprs_s(cfg, v1, es.subrange(1, es.len() as int));
        (seq![e2] + rest, v2)
    }
}

pub open spec fn tf_arms_s(cfg: TfCfg, vars: Seq<Seq<char>>, arms: Seq<ArmV>) -> (
    Seq<ArmV>,
    Seq<Seq<char>>,
)
    decreases arms,
{
    if arms.len() == 0 {
        (arms, vars)
    } else {
        let a = arms[0];
        let (b2, v1) = tf_expr_s(cfg, vars, *a.body);
        let (rest, v2) = tf_arms_s(cfg, v1, arms.subrange(1, arms.len() as int));
        (seq![ArmV { pat: a.pat, body: Box::new(b2) }] + rest, v2)
    }
}

pub open spec fn tf_block_s(cfg: TfCfg, vars: Seq<Seq<char>>, b: BlockV) -> (BlockV, Seq<Seq<char>>)
    decreases b,
{
    let (ss2, v1) = tf_stmts_s(cfg, vars, b.stmts);
    (BlockV { stmts: ss2 }, v1)
}

pub open spec fn tf_stmts_s(cfg: TfCfg, vars: Seq<Seq<char>>, ss: Seq<StmtV>) -> (
    Seq<StmtV>,
    Seq<Seq<char>>,
)
    decreases ss,
{
    if ss.len() == 0 {
        (ss, vars)
    } else {
        let (s2, v1) = tf_stmt_s(cfg, vars, ss[0]);
        let (rest, v2) = tf_stmts_s(cfg, v1, ss.subrange(1, ss.len() as int));
        (seq![s2] + rest, v2)
    }
}

/// Whether a `let` statement's initializer is already a protection call, so
/// that the binding it declares must be recorded before later statements
/// are visited.
pub open spec fn records_binding(init: Option<Box<ExprV>>) -> bool {
    init matches Some(e) && *e matches ExprV::MacroExpr { name, str_arg } && name == protect_name()
}

pub open spec fn tf_stmt_s(cfg: TfCfg, vars: Seq<Seq<char>>, s: StmtV) -> (StmtV, Seq<Seq<char>>)
    decreases s,
{
    match s {
        StmtV::Local { pat, init } => {
            let vars1 = if cfg.strings && records_binding(init) && pat_root_ident(pat) is Some {
                vars.push(pat_root_ident(pat)->0)
            } else {
                vars
            };
            match init {
                None => (StmtV::Local { pat, init }, vars1),
                Some(e) => {
                    let (e2, v2) = tf_expr_s(cfg, vars1, *e);
                    (StmtV::Local { pat, init: Some(Box::new(e2)) }, v2)
                },
            }
        },
        StmtV::ExprStmt { expr, semi } => {
            let (e2, v1) = tf_expr_s(cfg, vars, *expr);
            (StmtV::ExprStmt { expr: Box::new(e2), semi }, v1)
        },
        StmtV::MacroStmt { name, str_arg } => (s, vars),
        StmtV::ItemStmt { item } => {
            let (it2, v1) = tf_item_s(cfg, vars, *item);
            (StmtV::ItemStmt { item: Box::new(it2) }, v1)
        },
    }
}

pub open spec fn tf_attr_s(cfg: TfCfg, vars: Seq<Seq<char>>, a: AttrV) -> (AttrV, Seq<Seq<char>>)
    decreases a,
{
    if cfg.skip_attrs {
        (a, vars)
    } else {
        match a.meta {
            MetaV::Path { path } => (a, vars),
            MetaV::List { path, tokens } => (a, vars),
            MetaV::NameValue { path, value } => {
                let (e2, v1) = tf_expr_s(cfg, vars, *value);
                (
                    AttrV { inner: a.inner, meta: MetaV::NameValue { path, value: Box::new(e2) } },
                    v1,
                )
            },
        }
    }
}

pub open spec fn tf_attrs_s(cfg: TfCfg, vars: Seq<Seq<char>>, aa: Seq<AttrV>) -> (
    Seq<AttrV>,
    Seq<Seq<char>>,
)
    decreases aa,
{
    if aa.len() == 0 {
        (aa, vars)
    } else {
        let (a2, v1) = tf_attr_s(cfg, vars, aa[0]);
        let (rest, v2) = tf_attrs_s(cfg, v1, aa.subrange(1, aa.len() as int));
        (seq![a2] + rest, v2)
    }
}

pub open spec fn tf_item_s(cfg: TfCfg, vars: Seq<Seq<char>>, it: ItemV) -> (ItemV, Seq<Seq<char>>)
    decreases it,
{
    match it {
        ItemV::FnItem { attrs, name, sig, block } => {
            // A function item's own attributes and signature are not
            // visited; only its body is.
            let (b2, v1) = tf_block_s(cfg, vars, block);
            (ItemV::FnItem { attrs, name, sig, block: b2 }, v1)
        },
        ItemV::ConstItem { attrs, name, ty, value } => {
            let (aa2, v1) = tf_attrs_s(cfg, vars, attrs);
            let (e2, v2) = tf_expr_s(cfg, v1, *value);
            (ItemV::ConstItem { attrs: aa2, name, ty, value: Box::new(e2) }, v2)
        },
        ItemV::UseItem { text } => (it, vars),
        ItemV::OtherItem { attrs, text } => {
            let (aa2, v1) = tf_attrs_s(cfg, vars, attrs);
            (ItemV::OtherItem { attrs: aa2, text }, v1)
        },
    }
}

pub open spec fn tf_items_s(cfg: TfCfg, vars: Seq<Seq<char>>, items: Seq<ItemV>) -> (
    Seq<ItemV>,
    Seq<Seq<char>>,
)
    decreases items,
{
    if items.len() == 0 {
        (items, vars)
    } else {
        let (i2, v1) = tf_item_s(cfg, vars, items[0]);
        let (rest, v2) = tf_items_s(cfg, v1, items.subrange(1, items.len() as int));
        (seq![i2] + rest, v2)
    }
}

pub open spec fn tf_file_s(cfg: TfCfg, vars: Seq<Seq<char>>, f: SourceFileV) -> (
    SourceFileV,
    Seq<Seq<char>>,
)
    decreases f,
{
    let (aa2, v1) = tf_attrs_s(cfg, vars, f.attrs);
    let (ii2, v2) = tf_items_s(cfg, v1, f.items);
    (SourceFileV { attrs: aa2, items: ii2 }, v2)
}

// ----------------------------------------------------------------------
// Companion imports.
// ----------------------------------------------------------------------

// ----------------------------------------------------------------------
// Whether each pass has anything to do on a node: the literal pass fires
// on a string literal, in a visited position, that the length and ignore
// filters admit; the flow pass fires on any reachable block.  With the attribute gate on,
// nothing inside an attribute is visited.
// ----------------------------------------------------------------------

pub open spec fn lit_fires_expr(cfg: TfCfg, e: ExprV) -> bool
    decreases e,
{
    match e {
        ExprV::StrLit { value } => wrap_literal(cfg, value),
        ExprV::OtherLit { text } => false,
        ExprV::PathExpr { name } => false,
        ExprV::MacroExpr { name, str_arg } => false,
        ExprV::Verbatim { text } => false,
        ExprV::Call { callee, args } => lit_fires_expr(cfg, *callee) || lit_fires_exprs(cfg, args),
        ExprV::MethodCall { recv, method, args } => lit_fires_expr(cfg, *recv) || lit_fires_exprs(
            cfg,
            args,
        ),
        ExprV::Reference { mutable, expr } => lit_fires_expr(cfg, *expr),
        ExprV::Deref { expr } => lit_fires_expr(cfg, *expr),
        ExprV::Paren { expr } => lit_fires_expr(cfg, *expr),
        ExprV::BlockExpr { block } => lit_fires_block(cfg, block),
        ExprV::If { cond, then_branch, else_branch } => lit_fires_expr(cfg, *cond)
            || lit_fires_block(cfg, then_branch) || (match else_branch {
            Some(eb) => match *eb {
                ElseBranchV::ElseBlock { block } => lit_fires_block(cfg, block),
                ElseBranchV::ElseIf { expr } => lit_fires_expr(cfg, *expr),
            },
            None => false,
        }),
        ExprV::While { cond, body } => lit_fires_expr(cfg, *cond) || lit_fires_block(cfg, body),
        ExprV::Loop { body } => lit_fires_block(cfg, body),
        ExprV::ForLoop { pat, iter, body } => lit_fires_expr(cfg, *iter) || lit_fires_block(
            cfg,
            body,
        ),
        ExprV::Match { scrutinee, arms } => lit_fires_expr(cfg, *scrutinee) || lit_fires_arms(
            cfg,
            arms,
        ),
    }
}

pub open spec fn lit_fires_exprs(cfg: TfCfg, v: Seq<ExprV>) -> bool
    decreases v,
{
    if v.len() == 0 {
        false
    } else {
        lit_fires_expr(cfg, v[0]) || lit_fires_exprs(cfg, v.subrange(1, v.len() as int))
    }
}

pub open spec fn lit_fires_arms(cfg: TfCfg, v: Seq<ArmV>) -> bool
    decreases v,
{
    if v.len() == 0 {
        false
    } else {
        lit_fires_expr(cfg, *v[0].body) || lit_fires_arms(cfg, v.subrange(1, v.len() as int))
    }
}

pub open spec fn lit_fires_block(cfg: TfCfg, b: BlockV) -> bool
    decreases b,
{
    lit_fires_stmts(cfg, b.stmts)
}

pub open spec fn lit_fires_stmts(cfg: TfCfg, v: Seq<StmtV>) -> bool
    decreases v,
{
    if v.len() == 0 {
        false
    } else {
        lit_fires_stmt(cfg, v[0]) || lit_fires_stmts(cfg, v.subrange(1, v.len() as int))
    }
}

pub open spec fn lit_fires_stmt(cfg: TfCfg, s: StmtV) -> bool
    decreases s,
{
    match s {
        StmtV::Local { pat, init } => match init {
            Some(e) => lit_fires_expr(cfg, *e),
            None => false,
        },
        StmtV::ExprStmt { expr, semi } => lit_fires_expr(cfg, *expr),
        StmtV::MacroStmt { name, str_arg } => false,
        StmtV::ItemStmt { item } => lit_fires_item(cfg, *item),
    }
}

pub open spec fn lit_fires_attr(cfg: TfCfg, a: AttrV) -> bool
    decreases a,
{
    if cfg.skip_attrs {
        false
    } else {
        match a.meta {
            MetaV::Path { path } => false,
            MetaV::List { path, tokens } => false,
            MetaV::NameValue { path, value } => lit_fires_expr(cfg, *value),
        }
    }
}

pub open spec fn lit_fires_attrs(cfg: TfCfg, v: Seq<AttrV>) -> bool
    decreases v,
{
    if v.len() == 0 {
        false
    } else {
        lit_fires_attr(cfg, v[0]) || lit_fires_attrs(cfg, v.subrange(1, v.len() as int))
    }
}

pub open spec fn lit_fires_item(cfg: TfCfg, it: ItemV) -> bool
    decreases it,
{
    match it {
        ItemV::FnItem { attrs, name, sig, block } => lit_fires_block(cfg, block),
        ItemV::ConstItem { attrs, name, ty, value } => lit_fires_attrs(cfg, attrs)
            || lit_fires_expr(cfg, *value),
        ItemV::UseItem { text } => false,
        ItemV::OtherItem { attrs, text } => lit_fires_attrs(cfg, attrs),
    }
}

pub open spec fn lit_fires_items(cfg: TfCfg, v: Seq<ItemV>) -> bool
    decreases v,
{
    if v.len() == 0 {
        false
    } else {
        lit_fires_item(cfg, v[0]) || lit_fires_items(cfg, v.subrange(1, v.len() as int))
    }
}

pub open spec fn lit_fires_file(cfg: TfCfg, f: SourceFileV) -> bool {
    lit_fires_attrs(cfg, f.attrs) || lit_fires_items(cfg, f.items)
}

pub open spec fn flow_fires_expr(skip: bool, e: ExprV) -> bool
    decreases e,
{
    match e {
        ExprV::StrLit { value } => false,
        ExprV::OtherLit { text } => false,
        ExprV::PathExpr { name } => false,
        ExprV::MacroExpr { name, str_arg } => false,
        ExprV::Verbatim { text } => false,
        ExprV::Call { callee, args } => flow_fires_expr(skip, *callee) || flow_fires_exprs(
            skip,
            args,
        ),
        ExprV::MethodCall { recv, method, args } => flow_fires_expr(skip, *recv)
            || flow_fires_exprs(skip, args),
        ExprV::Reference { mutable, expr } => flow_fires_expr(skip, *expr),
        ExprV::Deref { expr } => flow_fires_expr(skip, *expr),
        ExprV::Paren { expr } => flow_fires_expr(skip, *expr),
        ExprV::BlockExpr { block } => flow_fires_block(skip, block),
        ExprV::If { cond, then_branch, else_branch } => true,
        ExprV::While { cond, body } => true,
        ExprV::Loop { body } => true,
        ExprV::ForLoop { pat, iter, body } => true,
        ExprV::Match { scrutinee, arms } => arms.len() > 0 || flow_fires_expr(skip, *scrutinee),
    }
}

pub open spec fn flow_fires_exprs(skip: bool, v: Seq<ExprV>) -> bool
    decreases v,
{
    if v.len() == 0 {
        false
    } else {
        flow_fires_expr(skip, v[0]) || flow_fires_exprs(skip, v.subrange(1, v.len() as int))
    }
}

pub open spec fn flow_fires_block(skip: bool, b: BlockV) -> bool
    decreases b,
{
    flow_fires_stmts(skip, b.stmts)
}

pub open spec fn flow_fires_stmts(skip: bool, v: Seq<StmtV>) -> bool
    decreases v,
{
    if v.len() == 0 {
        false
    } else {
        flow_fires_stmt(skip, v[0]) || flow_fires_stmts(skip, v.subrange(1, v.len() as int))
    }
}

pub open spec fn flow_fires_stmt(skip: bool, s: StmtV) -> bool
    decreases s,
{
    match s {
        StmtV::Local { pat, init } => match init {
            Some(e) => flow_fires_expr(skip, *e),
            None => false,
        },
        StmtV::ExprStmt { expr, semi } => flow_fires_expr(skip, *expr),
        StmtV::MacroStmt { name, str_arg } => false,
        StmtV::ItemStmt { item } => flow_fires_item(skip, *item),
    }
}

pub open spec fn flow_fires_attr(skip: bool, a: AttrV) -> bool
    decreases a,
{
    if skip {
        false
    } else {
        match a.meta {
            MetaV::Path { path } => false,
            MetaV::List { path, tokens } => false,
            MetaV::NameValue { path, value } => flow_fires_expr(skip, *value),
        }
    }
}

pub open spec fn flow_fires_attrs(skip: bool, v: Seq<AttrV>) -> bool
    decreases v,
{
    if v.len() == 0 {
        false
    } else {
        flow_fires_attr(skip, v[0]) || flow_fires_attrs(skip, v.subrange(1, v.len() as int))
    }
}

pub open spec fn flow_fires_item(skip: bool, it: ItemV) -> bool
    decreases it,
{
    match it {
        ItemV::FnItem { attrs, name, sig, block } => flow_fires_block(skip, block),
        ItemV::ConstItem { attrs, name, ty, value } => flow_fires_attrs(skip, attrs)
            || flow_fires_expr(skip, *value),
        ItemV::UseItem { text } => false,
        ItemV::OtherItem { attrs, text } => flow_fires_attrs(skip, attrs),
    }
}

pub open spec fn flow_fires_items(skip: bool, v: Seq<ItemV>) -> bool
    decreases v,
{
    if v.len() == 0 {
        false
    } else {
        flow_fires_item(skip, v[0]) || flow_fires_items(skip, v.subrange(1, v.len() as int))
    }
}

pub open spec fn flow_fires_file(skip: bool, f: SourceFileV) -> bool {
    flow_fires_attrs(skip, f.attrs) || flow_fires_items(skip, f.items)
}

/// Whether `it` is an import whose text names the macro called `name`.
pub open spec fn is_use_naming(it: ItemV, name: Seq<char>) -> bool {
    it matches ItemV::UseItem { text } && crate::strutil::contains_sub(text, name)
}

/// Whether some `use` item already names the macro called `name`.
pub open spec fn has_use_of(items: Seq<ItemV>, name: Seq<char>) -> bool {
    exists|i: int| 0 <= i < items.len() && is_use_naming(#[trigger] items[i], name)
}

/// The literal pass fires on a file when it is on and the file holds a
/// string literal, in a visited position, that the length and ignore
/// filters admit.
pub open spec fn strings_fired(cfg: TfCfg, f: SourceFileV) -> bool {
    cfg.strings && lit_fires_file(cfg, f)
}

/// The flow pass fires on a file when it is on and the file holds a
/// reachable block to mark.
pub open spec fn flow_fired(cfg: TfCfg, f: SourceFileV) -> bool {
    cfg.flow && flow_fires_file(cfg.skip_attrs, f)
}

/// Ensures the companion import of each pass that fired is present exactly
/// once: each owed import is added in front of the items — after the
/// file's leading attributes, which are kept apart — unless an existing
/// import already names that macro.
pub open spec fn insert_uses_gated(want_protect: bool, want_flow: bool, g: SourceFileV) -> SourceFileV {
    let a: Seq<ItemV> = if want_protect && !has_use_of(g.items, protect_name()) {
        seq![ItemV::UseItem { text: protect_use_path() }]
    } else {
        Seq::empty()
    };
    let b: Seq<ItemV> = if want_flow && !has_use_of(g.items, flow_name()) {
        seq![ItemV::UseItem { text: flow_use_path() }]
    } else {
        Seq::empty()
    };
    SourceFileV { attrs: g.attrs, items: a + b + g.items }
}

/// The companion imports owed to the passes that fired on the file `fin`,
/// ensured present in the walked file `g`.
pub open spec fn insert_uses_s(cfg: TfCfg, fin: SourceFileV, g: SourceFileV) -> SourceFileV {
    insert_uses_gated(strings_fired(cfg, fin), flow_fired(cfg, fin), g)
}

/// The whole per-file transformation, renaming aside: the walk from an
/// empty protected-binding table, then the companion imports.
pub open spec fn spec_transform_file(cfg: TfCfg, f: SourceFileV) -> SourceFileV {
    insert_uses_s(cfg, f, tf_file_s(cfg, Seq::empty(), f).0)
}


/// The walk leaves a path expression alone: if the transformed form of an
/// expression is a bare path, the expression was that path already and the
/// binding table did not change.
pub proof fn lemma_tf_expr_path_out(cfg: TfCfg, vars: Seq<Seq<char>>, e: ExprV)
    ensures
        tf_expr_s(cfg, vars, e).0 is PathExpr ==> tf_expr_s(cfg, vars, e) == (e, vars),
{
    match e {
        ExprV::StrLit { value } => {},
        ExprV::OtherLit { text } => {},
        ExprV::PathExpr { name } => {},
        ExprV::MacroExpr { name, str_arg } => {},
        ExprV::Verbatim { text } => {},
        ExprV::Call { callee, args } => {},
        ExprV::MethodCall { recv, method, args } => {},
        ExprV::Reference { mutable, expr } => {},
        ExprV::Deref { expr } => {},
        ExprV::Paren { expr } => {},
        ExprV::BlockExpr { block } => {},
        ExprV::If { cond, then_branch, else_branch } => {},
        ExprV::While { cond, body } => {},
        ExprV::Loop { body } => {},
        ExprV::ForLoop { pat, iter, body } => {},
        ExprV::Match { scrutinee, arms } => {},
    }
}

} // verus!
