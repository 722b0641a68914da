//! The identifier-renaming pass: declaration-site names that are not on the
//! preserve list gain a short random numeric suffix.  Because the suffixes
//! are random, the pass is specified as a relation between the tree before
//! and after: same shape everywhere, and each declaration-site name either
//! preserved or extended by an in-range suffix.

use vstd::prelude::*;
use vstd::string::*;
use crate::ast::{
    Attr, AttrMeta, Pat, Block, Arm, Stmt, Expr, ElseBranch, Item, SourceFile, AttrV, MetaV, PatV,
    BlockV, ArmV, StmtV, ExprV, ElseBranchV, ItemV, SourceFileV, attr_view, pat_view, block_view,
    arm_view, arms_view, stmt_view, stmts_view, expr_view, exprs_view, else_view, item_view,
    items_view, file_view, attrs_view, lemma_attrs_view_index, lemma_stmts_view_index,
    lemma_exprs_view_index, lemma_arms_view_index, lemma_items_view_index, size_pat, size_attr, size_attrs, size_block, size_stmts, size_stmt, size_exprs, size_arms,
    size_expr, size_else, size_item, size_items, size_file, lemma_size_expr_pos,
    lemma_size_stmt_pos, lemma_size_arm_pos, lemma_size_attr_pos, lemma_size_item_pos,
    lemma_size_exprs_pos, lemma_size_stmts_pos, lemma_size_arms_pos, lemma_size_attrs_pos,
    lemma_size_items_pos,
};
use crate::strutil::{dec_str, vec_contains_str, u32_to_string};
use crate::transform::ObfuscationTransformer;
use crate::utils::{generate_obf_suffix, MIN_SUFF_VALUE, MAX_SUFF_VALUE};

verus! {

/// What the renaming pass reads of the engine's configuration.
pub ghost struct RnCfg {
    /// Names that must keep their spelling.
    pub preserve: Seq<Seq<char>>,
    /// Do not descend into attributes at all.
    pub skip_attrs: bool,
}

/// The suffix separator for bound-pattern identifiers.
pub open spec fn pat_infix() -> Seq<char> {
    "_x"@
}

/// The suffix separator for function names.
pub open spec fn fn_infix() -> Seq<char> {
    "_obf_"@
}

/// The new spelling of one declaration-site name: kept when preserved,
/// otherwise the old name, the separator, and a four-digit random suffix.
pub open spec fn renamed_ident(
    cfg: RnCfg,
    before: Seq<char>,
    after: Seq<char>,
    infix: Seq<char>,
) -> bool {
    if cfg.preserve.contains(before) {
        after == before
    } else {
        exists|n: u32|
            MIN_SUFF_VALUE <= n <= MAX_SUFF_VALUE && after == before + infix + dec_str(n as nat)
    }
}

pub open spec fn ren_pat(cfg: RnCfg, a: PatV, b: PatV) -> bool
    decreases a,
{
    match a {
        PatV::Ident { name } => b matches PatV::Ident { name: n2 } && renamed_ident(
            cfg,
            name,
            n2,
            pat_infix(),
        ),
        PatV::Typed { pat, ty } => b matches PatV::Typed { pat: p2, ty: t2 } && t2 == ty
            && ren_pat(cfg, *pat, *p2),
        PatV::Wild => b == a,
        PatV::Other { text } => b == a,
    }
}

pub open spec fn ren_expr(cfg: RnCfg, a: ExprV, b: ExprV) -> bool
    decreases a,
{
    match a {
        ExprV::StrLit { value } => b == a,
        ExprV::OtherLit { text } => b == a,
        ExprV::PathExpr { name } => b == a,
        ExprV::MacroExpr { name, str_arg } => b == a,
        ExprV::Verbatim { text } => b == a,
        ExprV::Call { callee, args } => b matches ExprV::Call { callee: c2, args: a2 } && ren_expr(
            cfg,
            *callee,
            *c2,
        ) && ren_exprs(cfg, args, a2),
        ExprV::MethodCall { recv, method, args } => b matches ExprV::MethodCall {
            recv: r2,
            method: m2,
            args: a2,
        } && m2 == method && ren_expr(cfg, *recv, *r2) && ren_exprs(cfg, args, a2),
        ExprV::Reference { mutable, expr } => b matches ExprV::Reference {
            mutable: m2,
            expr: e2,
        } && m2 == mutable && ren_expr(cfg, *expr, *e2),
        ExprV::Deref { expr } => b matches ExprV::Deref { expr: e2 } && ren_expr(cfg, *expr, *e2),
        ExprV::Paren { expr } => b matches ExprV::Paren { expr: e2 } && ren_expr(cfg, *expr, *e2),
        ExprV::BlockExpr { block } => b matches ExprV::BlockExpr { block: b2 } && ren_block(
            cfg,
            block,
            b2,
        ),
        ExprV::If { cond, then_branch, else_branch } => b matches ExprV::If {
            cond: c2,
            then_branch: t2,
            else_branch: eb2,
        } && ren_expr(cfg, *cond, *c2) && ren_block(cfg, then_branch, t2) && (match (
            else_branch,
            eb2,
        ) {
            (None, None) => true,
            (Some(x), Some(y)) => ren_else(cfg, *x, *y),
            _ => false,
        }),
        ExprV::While { cond, body } => b matches ExprV::While { cond: c2, body: b2 } && ren_expr(
            cfg,
            *cond,
            *c2,
        ) && ren_block(cfg, body, b2),
        ExprV::Loop { body } => b matches ExprV::Loop { body: b2 } && ren_block(cfg, body, b2),
        ExprV::ForLoop { pat, iter, body } => b matches ExprV::ForLoop {
            pat: p2,
            iter: i2,
            body: b2,
        } && ren_pat(cfg, pat, p2) && ren_expr(cfg, *iter, *i2) && ren_block(cfg, body, b2),
        ExprV::Match { scrutinee, arms } => b matches ExprV::Match { scrutinee: s2, arms: a2 }
            && ren_expr(cfg, *scrutinee, *s2) && ren_arms(cfg, arms, a2),
    }
}

pub open spec fn ren_else(cfg: RnCfg, a: ElseBranchV, b: ElseBranchV) -> bool
    decreases a,
{
    match a {
        ElseBranchV::ElseBlock { block } => b matches ElseBranchV::ElseBlock { block: b2 }
            && ren_block(cfg, block, b2),
        ElseBranchV::ElseIf { expr } => b matches ElseBranchV::ElseIf { expr: e2 } && ren_expr(
            cfg,
            *expr,
            *e2,
        ),
    }
}

pub open spec fn ren_exprs(cfg: RnCfg, a: Seq<ExprV>, b: Seq<ExprV>) -> bool
    decreases a,
{
    if a.len() == 0 {
        b.len() == 0
    } else {
        b.len() > 0 && ren_expr(cfg, a[0], b[0]) && ren_exprs(
            cfg,
            a.subrange(1, a.len() as int),
            b.subrange(1, b.len() as int),
        )
    }
}

pub open spec fn ren_arm(cfg: RnCfg, a: ArmV, b: ArmV) -> bool
    decreases a,
{
    ren_pat(cfg, a.pat, b.pat) && ren_expr(cfg, *a.body, *b.body)
}

pub open spec fn ren_arms(cfg: RnCfg, a: Seq<ArmV>, b: Seq<ArmV>) -> bool
    decreases a,
{
    if a.len() == 0 {
        b.len() == 0
    } else {
        b.len() > 0 && ren_arm(cfg, a[0], b[0]) && ren_arms(
            cfg,
            a.subrange(1, a.len() as int),
            b.subrange(1, b.len() as int),
        )
    }
}

pub open spec fn ren_block(cfg: RnCfg, a: BlockV, b: BlockV) -> bool
    decreases a,
{
    ren_stmts(cfg, a.stmts, b.stmts)
}

pub open spec fn ren_stmts(cfg: RnCfg, a: Seq<StmtV>, b: Seq<StmtV>) -> bool
    decreases a,
{
    if a.len() == 0 {
        b.len() == 0
    } else {
        b.len() > 0 && ren_stmt(cfg, a[0], b[0]) && ren_stmts(
            cfg,
            a.subrange(1, a.len() as int),
            b.subrange(1, b.len() as int),
        )
    }
}

pub open spec fn ren_stmt(cfg: RnCfg, a: StmtV, b: StmtV) -> bool
    decreases a,
{
    match a {
        StmtV::Local { pat, init } => b matches StmtV::Local { pat: p2, init: i2 } && ren_pat(
            cfg,
            pat,
            p2,
        ) && (match (init, i2) {
            (None, None) => true,
            (Some(x), Some(y)) => ren_expr(cfg, *x, *y),
            _ => false,
        }),
        StmtV::ExprStmt { expr, semi } => b matches StmtV::ExprStmt { expr: e2, semi: s2 } && s2
            == semi && ren_expr(cfg, *expr, *e2),
        StmtV::MacroStmt { name, str_arg } => b == a,
        StmtV::ItemStmt { item } => b matches StmtV::ItemStmt { item: i2 } && ren_item(
            cfg,
            *item,
            *i2,
        ),
    }
}

pub open spec fn ren_attr(cfg: RnCfg, a: AttrV, b: AttrV) -> bool
    decreases a,
{
    if cfg.skip_attrs {
        b == a
    } else {
        match a.meta {
            MetaV::Path { path } => b == a,
            MetaV::List { path, tokens } => b == a,
            MetaV::NameValue { path, value } => b.inner == a.inner && (b.meta matches
                MetaV::NameValue { path: p2, value: v2 } && p2 == path && ren_expr(
                cfg,
                *value,
                *v2,
            )),
        }
    }
}

pub open spec fn ren_attrs(cfg: RnCfg, a: Seq<AttrV>, b: Seq<AttrV>) -> bool
    decreases a,
{
    if a.len() == 0 {
        b.len() == 0
    } else {
        b.len() > 0 && ren_attr(cfg, a[0], b[0]) && ren_attrs(
            cfg,
            a.subrange(1, a.len() as int),
            b.subrange(1, b.len() as int),
        )
    }
}

pub open spec fn ren_item(cfg: RnCfg, a: ItemV, b: ItemV) -> bool
    decreases a,
{
    match a {
        ItemV::FnItem { attrs, name, sig, block } => b matches ItemV::FnItem {
            attrs: aa2,
            name: n2,
            sig: s2,
            block: b2,
        } && aa2 == attrs && s2 == sig && renamed_ident(cfg, name, n2, fn_infix()) && ren_block(
            cfg,
            block,
            b2,
        ),
        ItemV::ConstItem { attrs, name, ty, value } => b matches ItemV::ConstItem {
            attrs: aa2,
            name: n2,
            ty: t2,
            value: v2,
        } && n2 == name && t2 == ty && ren_attrs(cfg, attrs, aa2) && ren_expr(cfg, *value, *v2),
        ItemV::UseItem { text } => b == a,
        ItemV::OtherItem { attrs, text } => b matches ItemV::OtherItem { attrs: aa2, text: t2 }
            && t2 == text && ren_attrs(cfg, attrs, aa2),
    }
}

pub open spec fn ren_items(cfg: RnCfg, a: Seq<ItemV>, b: Seq<ItemV>) -> bool
    decreases a,
{
    if a.len() == 0 {
        b.len() == 0
    } else {
        b.len() > 0 && ren_item(cfg, a[0], b[0]) && ren_items(
            cfg,
            a.subrange(1, a.len() as int),
            b.subrange(1, b.len() as int),
        )
    }
}

pub open spec fn ren_file(cfg: RnCfg, a: SourceFileV, b: SourceFileV) -> bool {
    ren_attrs(cfg, a.attrs, b.attrs) && ren_items(cfg, a.items, b.items)
}

impl ObfuscationTransformer {
    /// What the renaming pass reads of this engine's configuration.
    pub open spec fn rncfg(&self) -> RnCfg {
        RnCfg { preserve: self.preserve(), skip_attrs: self.skip_attributes }
    }

    /// Renames one declaration-site name, drawing a fresh random suffix.
    fn rn_name(&self, name: String, infix: &str, ghost_infix: Ghost<Seq<char>>) -> (r: String)
        requires
            ghost_infix@ == infix@,
        ensures
            renamed_ident(self.rncfg(), name@, r@, ghost_infix@),
    {
        if vec_contains_str(&self.preserve_idents, name.as_str()) {
            name
        } else {
            let ghost before = name@;
            let suffix = generate_obf_suffix();
            let sfx = u32_to_string(suffix);
            let r = name.concat(infix).concat(sfx.as_str());
            proof {
                assert(r@ == before + ghost_infix@ + dec_str(suffix as nat));
            }
            r
        }
    }

    fn rn_pat(&self, p: Pat) -> (r: Pat)
        ensures
            ren_pat(self.rncfg(), pat_view(p), pat_view(r)),
        decreases size_pat(p),
    {
        match p {
            Pat::Ident { name } => {
                let n2 = self.rn_name(name, "_x", Ghost(pat_infix()));
                Pat::Ident { name: n2 }
            },
            Pat::Typed { pat, ty } => {
                let p2 = self.rn_pat(*pat);
                Pat::Typed { pat: Box::new(p2), ty }
            },
            Pat::Wild => Pat::Wild,
            Pat::Other { text } => Pat::Other { text },
        }
    }

    pub(crate) fn rn_expr(&self, e: Expr) -> (r: Expr)
        ensures
            ren_expr(self.rncfg(), expr_view(e), expr_view(r)),
        decreases size_expr(e),
    {
        match e {
            Expr::StrLit { value } => Expr::StrLit { value },
            Expr::OtherLit { text } => Expr::OtherLit { text },
            Expr::PathExpr { name } => Expr::PathExpr { name },
            Expr::MacroExpr { name, str_arg } => Expr::MacroExpr { name, str_arg },
            Expr::Verbatim { text } => Expr::Verbatim { text },
            Expr::Call { callee, args } => {
                let c2 = self.rn_expr(*callee);
                let a2 = self.rn_exprs(args);
                Expr::Call { callee: Box::new(c2), args: a2 }
            },
            Expr::MethodCall { recv, method, args } => {
                let r2 = self.rn_expr(*recv);
                let a2 = self.rn_exprs(args);
                Expr::MethodCall { recv: Box::new(r2), method, args: a2 }
            },
            Expr::Reference { mutable, expr } => {
                let e2 = self.rn_expr(*expr);
                Expr::Reference { mutable, expr: Box::new(e2) }
            },
            Expr::Deref { expr } => {
                let e2 = self.rn_expr(*expr);
                Expr::Deref { expr: Box::new(e2) }
            },
            Expr::Paren { expr } => {
                let e2 = self.rn_expr(*expr);
                Expr::Paren { expr: Box::new(e2) }
            },
            Expr::BlockExpr { block } => {
                let b2 = self.rn_block(block);
                Expr::BlockExpr { block: b2 }
            },
            Expr::If { cond, then_branch, else_branch } => {
                let c2 = self.rn_expr(*cond);
                let t2 = self.rn_block(then_branch);
                let e2: Option<Box<ElseBranch>> = match else_branch {
                    None => None,
                    Some(b) => Some(Box::new(self.rn_else(*b))),
                };
                Expr::If { cond: Box::new(c2), then_branch: t2, else_branch: e2 }
            },
            Expr::While { cond, body } => {
                let c2 = self.rn_expr(*cond);
                let b2 = self.rn_block(body);
                Expr::While { cond: Box::new(c2), body: b2 }
            },
            Expr::Loop { body } => {
                let b2 = self.rn_block(body);
                Expr::Loop { body: b2 }
            },
            Expr::ForLoop { pat, iter, body } => {
                let p2 = self.rn_pat(pat);
                let i2 = self.rn_expr(*iter);
                let b2 = self.rn_block(body);
                Expr::ForLoop { pat: p2, iter: Box::new(i2), body: b2 }
            },
            Expr::Match { scrutinee, arms } => {
                let s2 = self.rn_expr(*scrutinee);
                let a2 = self.rn_arms(arms);
                Expr::Match { scrutinee: Box::new(s2), arms: a2 }
            },
        }
    }

    fn rn_else(&self, eb: ElseBranch) -> (r: ElseBranch)
        ensures
            ren_else(self.rncfg(), else_view(eb), else_view(r)),
        decreases size_else(eb),
    {
        match eb {
            ElseBranch::ElseBlock { block } => {
                let b2 = self.rn_block(block);
                ElseBranch::ElseBlock { block: b2 }
            },
            ElseBranch::ElseIf { expr } => {
                let e2 = self.rn_expr(expr);
                ElseBranch::ElseIf { expr: e2 }
            },
        }
    }

    fn rn_exprs(&self, v: Vec<Expr>) -> (r: Vec<Expr>)
        ensures
            ren_exprs(self.rncfg(), exprs_view(v@), exprs_view(r@)),
        decreases size_exprs(v@),
    {
        let mut v = v;
        if v.len() == 0 {
            v
        } else {
            let ghost v0 = v@;
            let e0 = v.remove(0);
            proof {
                lemma_exprs_view_index(v0);
                lemma_exprs_view_index(v@);
                assert(v@ =~= v0.subrange(1, v0.len() as int));
                assert(exprs_view(v@) =~= exprs_view(v0).subrange(
                    1,
                    exprs_view(v0).len() as int,
                ));
                lemma_size_exprs_pos(v0.subrange(1, v0.len() as int));
                lemma_size_expr_pos(v0[0]);
            }
            let e2 = self.rn_expr(e0);
            let mut rest = self.rn_exprs(v);
            let ghost rest0 = rest@;
            rest.insert(0, e2);
            proof {
                lemma_exprs_view_index(rest0);
                lemma_exprs_view_index(rest@);
                assert(exprs_view(rest@) =~= seq![expr_view(e2)] + exprs_view(rest0));
                assert(exprs_view(rest@).subrange(1, exprs_view(rest@).len() as int) =~= exprs_view(
                    rest0,
                ));
            }
            rest
        }
    }

    fn rn_arms(&self, v: Vec<Arm>) -> (r: Vec<Arm>)
        ensures
            ren_arms(self.rncfg(), arms_view(v@), arms_view(r@)),
        decreases size_arms(v@),
    {
        let mut v = v;
        if v.len() == 0 {
            v
        } else {
            let ghost v0 = v@;
            let a0 = v.remove(0);
            proof {
                lemma_arms_view_index(v0);
                lemma_arms_view_index(v@);
                assert(v@ =~= v0.subrange(1, v0.len() as int));
                assert(arms_view(v@) =~= arms_view(v0).subrange(1, arms_view(v0).len() as int));
                lemma_size_arms_pos(v0.subrange(1, v0.len() as int));
                lemma_size_arm_pos(v0[0]);
            }
            let Arm { pat, body } = a0;
            let p2 = self.rn_pat(pat);
            let b2 = self.rn_expr(body);
            let a2 = Arm { pat: p2, body: b2 };
            proof {
                assert(arm_view(a0) == (ArmV { pat: pat_view(pat), body: Box::new(expr_view(body)) }));
                assert(arm_view(a2) == (ArmV { pat: pat_view(p2), body: Box::new(expr_view(b2)) }));
                assert(ren_arm(self.rncfg(), arm_view(a0), arm_view(a2)));
            }
            let mut rest = self.rn_arms(v);
            let ghost rest0 = rest@;
            rest.insert(0, a2);
            proof {
                lemma_arms_view_index(rest0);
                lemma_arms_view_index(rest@);
                assert(arms_view(rest@) =~= seq![arm_view(a2)] + arms_view(rest0));
                assert(arms_view(rest@).subrange(1, arms_view(rest@).len() as int) =~= arms_view(
                    rest0,
                ));
            }
            rest
        }
    }

    fn rn_block(&self, b: Block) -> (r: Block)
        ensures
            ren_block(self.rncfg(), block_view(b), block_view(r)),
        decreases size_block(b),
    {
        let ss2 = self.rn_stmts(b.stmts);
        Block { stmts: ss2 }
    }

    fn rn_stmts(&self, v: Vec<Stmt>) -> (r: Vec<Stmt>)
        ensures
            ren_stmts(self.rncfg(), stmts_view(v@), stmts_view(r@)),
        decreases size_stmts(v@),
    {
        let mut v = v;
        if v.len() == 0 {
            v
        } else {
            let ghost v0 = v@;
            let s0 = v.remove(0);
            proof {
                lemma_stmts_view_index(v0);
                lemma_stmts_view_index(v@);
                assert(v@ =~= v0.subrange(1, v0.len() as int));
                assert(stmts_view(v@) =~= stmts_view(v0).subrange(
                    1,
                    stmts_view(v0).len() as int,
                ));
                lemma_size_stmts_pos(v0.subrange(1, v0.len() as int));
                lemma_size_stmt_pos(v0[0]);
            }
            let s2 = self.rn_stmt(s0);
            let mut rest = self.rn_stmts(v);
            let ghost rest0 = rest@;
            rest.insert(0, s2);
            proof {
                lemma_stmts_view_index(rest0);
                lemma_stmts_view_index(rest@);
                assert(stmts_view(rest@) =~= seq![stmt_view(s2)] + stmts_view(rest0));
                assert(stmts_view(rest@).subrange(1, stmts_view(rest@).len() as int) =~= stmts_view(
                    rest0,
                ));
            }
            rest
        }
    }

    pub(crate) fn rn_stmt(&self, s: Stmt) -> (r: Stmt)
        ensures
            ren_stmt(self.rncfg(), stmt_view(s), stmt_view(r)),
        decreases size_stmt(s),
    {
        match s {
            Stmt::Local { pat, init } => {
                let p2 = self.rn_pat(pat);
                match init {
                    None => Stmt::Local { pat: p2, init: None },
                    Some(e) => {
                        let e2 = self.rn_expr(e);
                        Stmt::Local { pat: p2, init: Some(e2) }
                    },
                }
            },
            Stmt::ExprStmt { expr, semi } => {
                let e2 = self.rn_expr(expr);
                Stmt::ExprStmt { expr: e2, semi }
            },
            Stmt::MacroStmt { name, str_arg } => Stmt::MacroStmt { name, str_arg },
            Stmt::ItemStmt { item } => {
                let i2 = self.rn_item(*item);
                Stmt::ItemStmt { item: Box::new(i2) }
            },
        }
    }

    pub(crate) fn rn_attr(&self, a: Attr) -> (r: Attr)
        ensures
            ren_attr(self.rncfg(), attr_view(a), attr_view(r)),
        decreases size_attr(a),
    {
        if self.skip_attributes {
            return a;
        }
        let Attr { inner, meta } = a;
        match meta {
            AttrMeta::Path { path } => Attr { inner, meta: AttrMeta::Path { path } },
            AttrMeta::List { path, tokens } => Attr { inner, meta: AttrMeta::List { path, tokens } },
            AttrMeta::NameValue { path, value } => {
                let e2 = self.rn_expr(*value);
                Attr { inner, meta: AttrMeta::NameValue { path, value: Box::new(e2) } }
            },
        }
    }

    fn rn_attrs(&self, v: Vec<Attr>) -> (r: Vec<Attr>)
        ensures
            ren_attrs(self.rncfg(), attrs_view(v@), attrs_view(r@)),
        decreases size_attrs(v@),
    {
        let mut v = v;
        if v.len() == 0 {
            v
        } else {
            let ghost v0 = v@;
            let a0 = v.remove(0);
            proof {
                lemma_attrs_view_index(v0);
                lemma_attrs_view_index(v@);
                assert(v@ =~= v0.subrange(1, v0.len() as int));
                assert(attrs_view(v@) =~= attrs_view(v0).subrange(
                    1,
                    attrs_view(v0).len() as int,
                ));
                lemma_size_attrs_pos(v0.subrange(1, v0.len() as int));
                lemma_size_attr_pos(v0[0]);
            }
            let a2 = self.rn_attr(a0);
            let mut rest = self.rn_attrs(v);
            let ghost rest0 = rest@;
            rest.insert(0, a2);
            proof {
                lemma_attrs_view_index(rest0);
                lemma_attrs_view_index(rest@);
                assert(attrs_view(rest@) =~= seq![attr_view(a2)] + attrs_view(rest0));
                assert(attrs_view(rest@).subrange(1, attrs_view(rest@).len() as int) =~= attrs_view(
                    rest0,
                ));
            }
            rest
        }
    }

    fn rn_item(&self, it: Item) -> (r: Item)
        ensures
            ren_item(self.rncfg(), item_view(it), item_view(r)),
        decreases size_item(it),
    {
        match it {
            Item::FnItem { attrs, name, sig, block } => {
                let n2 = self.rn_name(name, "_obf_", Ghost(fn_infix()));
                let b2 = self.rn_block(block);
                Item::FnItem { attrs, name: n2, sig, block: b2 }
            },
            Item::ConstItem { attrs, name, ty, value } => {
                let aa2 = self.rn_attrs(attrs);
                let e2 = self.rn_expr(value);
                Item::ConstItem { attrs: aa2, name, ty, value: e2 }
            },
            Item::UseItem { text } => Item::UseItem { text },
            Item::OtherItem { attrs, text } => {
                let aa2 = self.rn_attrs(attrs);
                Item::OtherItem { attrs: aa2, text }
            },
        }
    }

    fn rn_items(&self, v: Vec<Item>) -> (r: Vec<Item>)
        ensures
            ren_items(self.rncfg(), items_view(v@), items_view(r@)),
        decreases size_items(v@),
    {
        let mut v = v;
        if v.len() == 0 {
            v
        } else {
            let ghost v0 = v@;
            let i0 = v.remove(0);
            proof {
                lemma_items_view_index(v0);
                lemma_items_view_index(v@);
                assert(v@ =~= v0.subrange(1, v0.len() as int));
                assert(items_view(v@) =~= items_view(v0).subrange(
                    1,
                    items_view(v0).len() as int,
                ));
                lemma_size_items_pos(v0.subrange(1, v0.len() as int));
                lemma_size_item_pos(v0[0]);
            }
            let i2 = self.rn_item(i0);
            let mut rest = self.rn_items(v);
            let ghost rest0 = rest@;
            rest.insert(0, i2);
            proof {
                lemma_items_view_index(rest0);
                lemma_items_view_index(rest@);
                assert(items_view(rest@) =~= seq![item_view(i2)] + items_view(rest0));
                assert(items_view(rest@).subrange(1, items_view(rest@).len() as int) =~= items_view(
                    rest0,
                ));
            }
            rest
        }
    }

    /// Runs the renaming pass over a whole file.
    pub(crate) fn rn_file(&self, f: SourceFile) -> (r: SourceFile)
        ensures
            ren_file(self.rncfg(), file_view(f), file_view(r)),
        decreases size_file(f),
    {
        let aa2 = self.rn_attrs(f.attrs);
        let ii2 = self.rn_items(f.items);
        SourceFile { attrs: aa2, items: ii2 }
    }
}

} // verus!
