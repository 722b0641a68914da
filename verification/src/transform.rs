//! The transformation engine: a multi-pass tree walker over the library's
//! syntax-tree model.  Every function is proved equal to the specification
//! walk in [`crate::transform_spec`]; identifier renaming, whose fresh
//! suffixes are random, is proved to satisfy the renaming relation in
//! [`crate::rename`] instead.

use vstd::prelude::*;
use vstd::string::*;
use crate::ast::{
    Attr, AttrMeta, Pat, Block, Arm, Stmt, Expr, ElseBranch, Item, SourceFile, StmtV, ExprV,
    ElseBranchV, BlockV, SourceFileV, attr_view, attrs_view, pat_view,
    block_view, arm_view, arms_view, stmt_view, stmts_view, expr_view, exprs_view, else_view,
    item_view, items_view, file_view, lemma_attrs_view_index, lemma_stmts_view_index,
    lemma_exprs_view_index, lemma_arms_view_index, lemma_items_view_index, lemma_size_expr_pos,
    lemma_size_stmt_pos, lemma_size_arm_pos, lemma_size_attr_pos, lemma_size_item_pos,
    lemma_size_exprs_pos, lemma_size_stmts_pos, lemma_size_arms_pos, lemma_size_attrs_pos,
    lemma_size_items_pos, lemma_expr_view_path, size_attr, size_attrs, size_block, size_stmts, size_stmt, size_exprs, size_arm, size_arms,
    size_expr, size_else, size_item, size_items, size_file,
};
use crate::transform_spec::{
    TfCfg, marker_stmt, wrap_literal,
    pat_root_ident, mark_block, mark_else, wrap_arm, mark_arms, rewrite_scrutinee, tf_expr_s,
    tf_else_s, tf_exprs_s, tf_arms_s, tf_block_s, tf_stmts_s, tf_stmt_s, tf_attr_s, tf_attrs_s,
    tf_item_s, tf_items_s, tf_file_s, is_use_naming, has_use_of, strings_fired, flow_fired,
    protect_name, flow_name, protect_use_path, flow_use_path,
    insert_uses_gated, insert_uses_s, lit_fires_expr, lit_fires_exprs, lit_fires_arms,
    lit_fires_block, lit_fires_stmts, lit_fires_stmt, lit_fires_attr, lit_fires_attrs,
    lit_fires_item, lit_fires_items, lit_fires_file, flow_fires_expr, flow_fires_exprs,
    flow_fires_block, flow_fires_stmts, flow_fires_stmt, flow_fires_attr, flow_fires_attrs,
    flow_fires_item, flow_fires_items, flow_fires_file,
};
use crate::strutil::{seq_views, str_eq, str_contains, vec_contains_str};

verus! {

/// The engine: one per file, configured once, holding the protected-binding
/// table that the passes share across the traversal.
pub struct ObfuscationTransformer {
    pub min_string_length: Option<usize>,
    pub ignore_strings: Option<Vec<String>>,
    pub rename_identifiers: bool,
    pub preserve_idents: Vec<String>,
    pub obfuscate_strings: bool,
    pub obfuscate_flow: bool,
    pub skip_attributes: bool,
    pub obfuscated_vars: Vec<String>,
}

impl ObfuscationTransformer {
    /// The pass configuration this engine walks under.
    pub open spec fn cfg(&self) -> TfCfg {
        TfCfg {
            strings: self.obfuscate_strings,
            flow: self.obfuscate_flow,
            skip_attrs: self.skip_attributes,
            min_len: match self.min_string_length {
                Some(m) => Some(m as nat),
                None => None,
            },
            ignore: match self.ignore_strings {
                Some(v) => seq_views(v@),
                None => Seq::empty(),
            },
        }
    }

    /// The protected-binding table, as the names it holds.
    pub open spec fn vars(&self) -> Seq<Seq<char>> {
        seq_views(self.obfuscated_vars@)
    }

    /// The names the renaming pass must leave alone.
    pub open spec fn preserve(&self) -> Seq<Seq<char>> {
        seq_views(self.preserve_idents@)
    }

    /// The walk changes nothing about the engine but its binding table.
    pub open spec fn keeps_config(self, new: Self) -> bool {
        &&& new.cfg() == self.cfg()
        &&& new.rename_identifiers == self.rename_identifiers
        &&& new.preserve() == self.preserve()
    }
}

/// The flow-marker statement, as a tree node.
fn marker_stmt_exec() -> (s: Stmt)
    ensures
        stmt_view(s) == marker_stmt(),
{
    Stmt::MacroStmt { name: "obfuscate_flow".to_owned(), str_arg: None }
}

/// The binding identifier a `let` pattern declares; see
/// [`crate::transform_spec::pat_root_ident`].
fn pat_root_ident_exec(p: &Pat) -> (r: Option<String>)
    ensures
        match r {
            Some(s) => pat_root_ident(pat_view(*p)) == Some(s@),
            None => pat_root_ident(pat_view(*p)) is None,
        },
    decreases *p,
{
    match p {
        Pat::Ident { name } => Some(name.clone()),
        Pat::Typed { pat, ty } => pat_root_ident_exec(pat),
        Pat::Wild => None,
        Pat::Other { text } => None,
    }
}

impl ObfuscationTransformer {
    /// Whether the literal-protection pass wraps a literal of this value.
    fn wrap_literal_exec(&self, value: &String) -> (r: bool)
        ensures
            r == wrap_literal(self.cfg(), value@),
    {
        if let Some(min) = self.min_string_length {
            let bytes = value.as_str().as_bytes();
            if bytes.len() < min {
                return false;
            }
        }
        if let Some(list) = &self.ignore_strings {
            if vec_contains_str(list, value.as_str()) {
                return false;
            }
        }
        true
    }

    /// Prepends the flow marker to a block when the flow pass is on.
    fn mark_block_exec(&self, b: Block) -> (r: Block)
        ensures
            block_view(r) == mark_block(self.cfg(), block_view(b)),
    {
        if self.obfuscate_flow {
            let mut b = b;
            let ghost old_stmts = b.stmts@;
            b.stmts.insert(0, marker_stmt_exec());
            proof {
                lemma_stmts_view_index(old_stmts);
                lemma_stmts_view_index(b.stmts@);
                assert(stmts_view(b.stmts@) =~= seq![marker_stmt()] + stmts_view(old_stmts));
            }
            b
        } else {
            b
        }
    }

    /// Marks the block of an `else { ... }`.
    fn mark_else_exec(&self, eb: ElseBranch) -> (r: ElseBranch)
        ensures
            else_view(r) == mark_else(self.cfg(), else_view(eb)),
    {
        match eb {
            ElseBranch::ElseBlock { block } => ElseBranch::ElseBlock {
                block: self.mark_block_exec(block),
            },
            ElseBranch::ElseIf { expr } => ElseBranch::ElseIf { expr },
        }
    }

    /// Wraps every arm body in a marked block when the flow pass is on.
    fn mark_arms_exec(&self, arms: Vec<Arm>) -> (r: Vec<Arm>)
        ensures
            arms_view(r@) == mark_arms(self.cfg(), arms_view(arms@)),
        decreases arms@.len(),
    {
        if !self.obfuscate_flow {
            proof {
                assert(mark_arms(self.cfg(), arms_view(arms@)) == arms_view(arms@));
            }
            return arms;
        }
        let mut arms = arms;
        let ghost orig = arms_view(arms@);
        if arms.len() == 0 {
            proof {
                assert(mark_arms(self.cfg(), orig) =~= orig);
            }
            arms
        } else {
            let ghost v0 = arms@;
            let a0 = arms.remove(0);
            proof {
                lemma_arms_view_index(v0);
                lemma_arms_view_index(arms@);
                assert(arms_view(arms@) =~= orig.subrange(1, orig.len() as int));
                assert(arm_view(a0) == orig[0]);
            }
            let w0 = wrap_arm_exec(a0);
            let mut rest = self.mark_arms_exec(arms);
            let ghost rest0 = rest@;
            rest.insert(0, w0);
            proof {
                lemma_arms_view_index(rest0);
                lemma_arms_view_index(rest@);
                let out = mark_arms(self.cfg(), orig);
                assert(rest@ == rest0.insert(0, w0));
                assert forall|i: int| 0 <= i < rest@.len() implies arms_view(rest@)[i] == out[i] by {
                    if i == 0 {
                        assert(arms_view(rest@)[0] == arm_view(w0));
                        assert(out[0] == wrap_arm(orig[0]));
                    } else {
                        assert(rest@[i] == rest0[i - 1]);
                        assert(arms_view(rest0)[i - 1] == mark_arms(
                            self.cfg(),
                            orig.subrange(1, orig.len() as int),
                        )[i - 1]);
                        assert(orig.subrange(1, orig.len() as int)[i - 1] == orig[i]);
                        assert(out[i] == wrap_arm(orig[i]));
                    }
                }
                assert(arms_view(rest@) =~= out);
            }
            rest
        }
    }
}

/// Wraps one match-arm body: `{ obfuscate_flow!(); <body> }`.
fn wrap_arm_exec(a: Arm) -> (r: Arm)
    ensures
        arm_view(r) == wrap_arm(arm_view(a)),
{
    let mut stmts: Vec<Stmt> = Vec::new();
    stmts.push(marker_stmt_exec());
    stmts.push(Stmt::ExprStmt { expr: a.body, semi: false });
    proof {
        lemma_stmts_view_index(stmts@);
        assert(stmts_view(stmts@) =~= seq![
            marker_stmt(),
            StmtV::ExprStmt { expr: Box::new(expr_view(a.body)), semi: false },
        ]);
    }
    Arm { pat: a.pat, body: Expr::BlockExpr { block: Block { stmts } } }
}


impl ObfuscationTransformer {
    /// Transforms one expression; the heart of the walk.
    #[verifier::rlimit(100)]
    fn tf_expr(&mut self, e: Expr) -> (r: Expr)
        ensures
            old(self).keeps_config(*final(self)),
            (expr_view(r), final(self).vars()) == tf_expr_s(
                old(self).cfg(),
                old(self).vars(),
                expr_view(e),
            ),
        decreases size_expr(e),
    {
        let ghost ev = expr_view(e);
        let ghost cfg0 = self.cfg();
        let ghost vars00 = self.vars();
        match e {
            Expr::StrLit { value } => {
                if self.obfuscate_strings && self.wrap_literal_exec(&value) {
                    Expr::MacroExpr { name: "obfuscate_string".to_owned(), str_arg: Some(value) }
                } else {
                    Expr::StrLit { value }
                }
            },
            Expr::OtherLit { text } => Expr::OtherLit { text },
            Expr::PathExpr { name } => Expr::PathExpr { name },
            Expr::MacroExpr { name, str_arg } => Expr::MacroExpr { name, str_arg },
            Expr::Verbatim { text } => Expr::Verbatim { text },
            Expr::Call { callee, args } => {
                let c2 = self.tf_expr(*callee);
                let a2 = self.tf_exprs(args);
                Expr::Call { callee: Box::new(c2), args: a2 }
            },
            Expr::MethodCall { recv, method, args } => {
                let r2 = self.tf_expr(*recv);
                let a2 = self.tf_exprs(args);
                Expr::MethodCall { recv: Box::new(r2), method, args: a2 }
            },
            Expr::Reference { mutable, expr } => {
                let e2 = self.tf_expr(*expr);
                Expr::Reference { mutable, expr: Box::new(e2) }
            },
            Expr::Deref { expr } => {
                let e2 = self.tf_expr(*expr);
                Expr::Deref { expr: Box::new(e2) }
            },
            Expr::Paren { expr } => {
                let e2 = self.tf_expr(*expr);
                Expr::Paren { expr: Box::new(e2) }
            },
            Expr::BlockExpr { block } => {
                let b2 = self.tf_block(block);
                Expr::BlockExpr { block: b2 }
            },
            Expr::If { cond, then_branch, else_branch } => {
                let c2 = self.tf_expr(*cond);
                let t2 = self.tf_block(then_branch);
                let e2: Option<Box<ElseBranch>> = match else_branch {
                    None => None,
                    Some(b) => Some(Box::new(self.tf_else(*b))),
                };
                let t3 = self.mark_block_exec(t2);
                let e3: Option<Box<ElseBranch>> = match e2 {
                    None => None,
                    Some(b) => Some(Box::new(self.mark_else_exec(*b))),
                };
                let out = Expr::If { cond: Box::new(c2), then_branch: t3, else_branch: e3 };
                proof {
                    assert((expr_view(out), self.vars()) == tf_expr_s(cfg0, vars00, ev));
                }
                out
            },
            Expr::While { cond, body } => {
                let c2 = self.tf_expr(*cond);
                let b2 = self.tf_block(body);
                let out = Expr::While { cond: Box::new(c2), body: self.mark_block_exec(b2) };
                proof {
                    assert((expr_view(out), self.vars()) == tf_expr_s(cfg0, vars00, ev));
                }
                out
            },
            Expr::Loop { body } => {
                let b2 = self.tf_block(body);
                let out = Expr::Loop { body: self.mark_block_exec(b2) };
                proof {
                    assert((expr_view(out), self.vars()) == tf_expr_s(cfg0, vars00, ev));
                }
                out
            },
            Expr::ForLoop { pat, iter, body } => {
                let i2 = self.tf_expr(*iter);
                let b2 = self.tf_block(body);
                let out = Expr::ForLoop { pat, iter: Box::new(i2), body: self.mark_block_exec(b2) };
                proof {
                    assert((expr_view(out), self.vars()) == tf_expr_s(cfg0, vars00, ev));
                }
                out
            },
            Expr::Match { scrutinee, arms } => {
                let ghost vars0 = self.vars();
                let ghost sv = expr_view(*scrutinee);
                let s2 = self.tf_expr(*scrutinee);
                proof {
                    crate::transform_spec::lemma_tf_expr_path_out(self.cfg(), vars0, sv);
                }
                let ghost s2v = expr_view(s2);
                let s3 = if !self.obfuscate_strings {
                    s2
                } else {
                    match s2 {
                    Expr::PathExpr { name } => {
                        let hit = vec_contains_str(&self.obfuscated_vars, name.as_str());
                        let p = Expr::PathExpr { name };
                        proof {
                            assert(expr_view(p) is PathExpr);
                            assert(self.vars() == vars0);
                            assert(hit == vars00.contains(expr_view(p)->PathExpr_name));
                        }
                        if hit {
                            let d = Expr::Deref { expr: Box::new(p) };
                            let rw = Expr::Reference { mutable: false, expr: Box::new(d) };
                            proof {
                                assert(s2v == (ExprV::PathExpr { name: name@ }));
                                assert(expr_view(d) == (ExprV::Deref { expr: Box::new(s2v) }));
                                assert(expr_view(rw) == (ExprV::Reference {
                                    mutable: false,
                                    expr: Box::new(ExprV::Deref { expr: Box::new(s2v) }),
                                }));
                                assert(rewrite_scrutinee(vars00, s2v) == (ExprV::Reference {
                                    mutable: false,
                                    expr: Box::new(ExprV::Deref { expr: Box::new(s2v) }),
                                }));
                            }
                            rw
                        } else {
                            proof {
                                assert(expr_view(p) == rewrite_scrutinee(vars00, s2v));
                            }
                            p
                        }
                    },
                    other => {
                        proof {
                            lemma_expr_view_path(other);
                            assert(expr_view(other) == rewrite_scrutinee(vars00, s2v));
                        }
                        other
                    },
                    }
                };
                proof {
                    assert(expr_view(s3) == (if cfg0.strings {
                        rewrite_scrutinee(vars00, s2v)
                    } else {
                        s2v
                    }));
                }
                let a2 = self.tf_arms(arms);
                let a3 = self.mark_arms_exec(a2);
                let out = Expr::Match { scrutinee: Box::new(s3), arms: a3 };
                proof {
                    assert((expr_view(out), self.vars()) == tf_expr_s(cfg0, vars00, ev));
                }
                out
            },
        }
    }

    /// Transforms the target of an `else`.
    fn tf_else(&mut self, eb: ElseBranch) -> (r: ElseBranch)
        ensures
            old(self).keeps_config(*final(self)),
            (else_view(r), final(self).vars()) == tf_else_s(
                old(self).cfg(),
                old(self).vars(),
                else_view(eb),
            ),
        decreases size_else(eb),
    {
        match eb {
            ElseBranch::ElseBlock { block } => {
                let b2 = self.tf_block(block);
                ElseBranch::ElseBlock { block: b2 }
            },
            ElseBranch::ElseIf { expr } => {
                let e2 = self.tf_expr(expr);
                ElseBranch::ElseIf { expr: e2 }
            },
        }
    }

    /// Transforms a list of expressions, in order.
    #[verifier::rlimit(100)]
    fn tf_exprs(&mut self, v: Vec<Expr>) -> (r: Vec<Expr>)
        ensures
            old(self).keeps_config(*final(self)),
            (exprs_view(r@), final(self).vars()) == tf_exprs_s(
                old(self).cfg(),
                old(self).vars(),
                exprs_view(v@),
            ),
        decreases size_exprs(v@),
    {
        let mut v = v;
        if v.len() == 0 {
            v
        } else {
            let ghost v0 = v@;
            let e0 = v.remove(0);
            proof {
                lemma_exprs_view_index(v0);
                lemma_exprs_view_index(v@);
                assert(v@ =~= v0.subrange(1, v0.len() as int));
                assert(exprs_view(v@) =~= exprs_view(v0).subrange(
                    1,
                    exprs_view(v0).len() as int,
                ));
                assert(size_exprs(v0) == size_expr(v0[0]) + size_exprs(v0.subrange(1, v0.len() as int)));
                assert(size_exprs(v@) == size_exprs(v0.subrange(1, v0.len() as int)));
                lemma_size_exprs_pos(v0.subrange(1, v0.len() as int));
                lemma_size_expr_pos(v0[0]);
            }
            let e2 = self.tf_expr(e0);
            let mut rest = self.tf_exprs(v);
            let ghost rest0 = rest@;
            rest.insert(0, e2);
            proof {
                lemma_exprs_view_index(rest0);
                lemma_exprs_view_index(rest@);
                assert(exprs_view(rest@) =~= seq![expr_view(e2)] + exprs_view(rest0));
            }
            rest
        }
    }

    /// Transforms the arms of a `match`, in order (their bodies; the flow
    /// marking of the arms comes after).
    #[verifier::rlimit(100)]
    fn tf_arms(&mut self, v: Vec<Arm>) -> (r: Vec<Arm>)
        ensures
            old(self).keeps_config(*final(self)),
            (arms_view(r@), final(self).vars()) == tf_arms_s(
                old(self).cfg(),
                old(self).vars(),
                arms_view(v@),
            ),
        decreases size_arms(v@),
    {
        let mut v = v;
        if v.len() == 0 {
            v
        } else {
            let ghost v0 = v@;
            let a0 = v.remove(0);
            proof {
                lemma_arms_view_index(v0);
                lemma_arms_view_index(v@);
                assert(v@ =~= v0.subrange(1, v0.len() as int));
                assert(arms_view(v@) =~= arms_view(v0).subrange(
                    1,
                    arms_view(v0).len() as int,
                ));
                assert(size_arms(v0) == size_arm(v0[0]) + size_arms(v0.subrange(1, v0.len() as int)));
                assert(size_arms(v@) == size_arms(v0.subrange(1, v0.len() as int)));
                lemma_size_arms_pos(v0.subrange(1, v0.len() as int));
                lemma_size_arm_pos(v0[0]);
            }
            let Arm { pat, body } = a0;
            let b2 = self.tf_expr(body);
            let a2 = Arm { pat, body: b2 };
            let mut rest = self.tf_arms(v);
            let ghost rest0 = rest@;
            rest.insert(0, a2);
            proof {
                lemma_arms_view_index(rest0);
                lemma_arms_view_index(rest@);
                assert(arms_view(rest@) =~= seq![arm_view(a2)] + arms_view(rest0));
            }
            rest
        }
    }

    /// Transforms a block.
    fn tf_block(&mut self, b: Block) -> (r: Block)
        ensures
            old(self).keeps_config(*final(self)),
            (block_view(r), final(self).vars()) == tf_block_s(
                old(self).cfg(),
                old(self).vars(),
                block_view(b),
            ),
        decreases size_block(b),
    {
        let ss2 = self.tf_stmts(b.stmts);
        Block { stmts: ss2 }
    }

    /// Transforms a list of statements in program order, so that protected
    /// bindings are recorded before later statements are visited.
    #[verifier::rlimit(100)]
    fn tf_stmts(&mut self, v: Vec<Stmt>) -> (r: Vec<Stmt>)
        ensures
            old(self).keeps_config(*final(self)),
            (stmts_view(r@), final(self).vars()) == tf_stmts_s(
                old(self).cfg(),
                old(self).vars(),
                stmts_view(v@),
            ),
        decreases size_stmts(v@),
    {
        let mut v = v;
        if v.len() == 0 {
            v
        } else {
            let ghost v0 = v@;
            let s0 = v.remove(0);
            proof {
                lemma_stmts_view_index(v0);
                lemma_stmts_view_index(v@);
                assert(v@ =~= v0.subrange(1, v0.len() as int));
                assert(stmts_view(v@) =~= stmts_view(v0).subrange(
                    1,
                    stmts_view(v0).len() as int,
                ));
                assert(size_stmts(v0) == size_stmt(v0[0]) + size_stmts(v0.subrange(1, v0.len() as int)));
                assert(size_stmts(v@) == size_stmts(v0.subrange(1, v0.len() as int)));
                lemma_size_stmts_pos(v0.subrange(1, v0.len() as int));
                lemma_size_stmt_pos(v0[0]);
            }
            let s2 = self.tf_stmt(s0);
            let mut rest = self.tf_stmts(v);
            let ghost rest0 = rest@;
            rest.insert(0, s2);
            proof {
                lemma_stmts_view_index(rest0);
                lemma_stmts_view_index(rest@);
                assert(stmts_view(rest@) =~= seq![stmt_view(s2)] + stmts_view(rest0));
            }
            rest
        }
    }

    /// Transforms one statement.  A `let` whose initializer is already a
    /// protection call records its binding first.
    #[verifier::rlimit(100)]
    fn tf_stmt(&mut self, s: Stmt) -> (r: Stmt)
        ensures
            old(self).keeps_config(*final(self)),
            (stmt_view(r), final(self).vars()) == tf_stmt_s(
                old(self).cfg(),
                old(self).vars(),
                stmt_view(s),
            ),
        decreases size_stmt(s),
    {
        match s {
            Stmt::Local { pat, init } => {
                let is_protect = match &init {
                    Some(Expr::MacroExpr { name, str_arg }) => str_eq(
                        name.as_str(),
                        "obfuscate_string",
                    ),
                    _ => false,
                };
                if self.obfuscate_strings && is_protect {
                    if let Some(id) = pat_root_ident_exec(&pat) {
                        let ghost before = self.obfuscated_vars@;
                        self.obfuscated_vars.push(id);
                        proof {
                            assert(self.vars() =~= seq_views(before).push(id@));
                        }
                    }
                }
                match init {
                    None => Stmt::Local { pat, init: None },
                    Some(e) => {
                        let e2 = self.tf_expr(e);
                        Stmt::Local { pat, init: Some(e2) }
                    },
                }
            },
            Stmt::ExprStmt { expr, semi } => {
                let e2 = self.tf_expr(expr);
                Stmt::ExprStmt { expr: e2, semi }
            },
            Stmt::MacroStmt { name, str_arg } => Stmt::MacroStmt { name, str_arg },
            Stmt::ItemStmt { item } => {
                let i2 = self.tf_item(*item);
                Stmt::ItemStmt { item: Box::new(i2) }
            },
        }
    }

    /// Transforms one attribute; when the attribute gate is on, the walk
    /// does not descend into attributes at all.
    fn tf_attr(&mut self, a: Attr) -> (r: Attr)
        ensures
            old(self).keeps_config(*final(self)),
            (attr_view(r), final(self).vars()) == tf_attr_s(
                old(self).cfg(),
                old(self).vars(),
                attr_view(a),
            ),
        decreases size_attr(a),
    {
        if self.skip_attributes {
            return a;
        }
        let Attr { inner, meta } = a;
        match meta {
            AttrMeta::Path { path } => Attr { inner, meta: AttrMeta::Path { path } },
            AttrMeta::List { path, tokens } => Attr { inner, meta: AttrMeta::List { path, tokens } },
            AttrMeta::NameValue { path, value } => {
                let e2 = self.tf_expr(*value);
                Attr { inner, meta: AttrMeta::NameValue { path, value: Box::new(e2) } }
            },
        }
    }

    /// Transforms a list of attributes, in order.
    #[verifier::rlimit(100)]
    fn tf_attrs(&mut self, v: Vec<Attr>) -> (r: Vec<Attr>)
        ensures
            old(self).keeps_config(*final(self)),
            (attrs_view(r@), final(self).vars()) == tf_attrs_s(
                old(self).cfg(),
                old(self).vars(),
                attrs_view(v@),
            ),
        decreases size_attrs(v@),
    {
        let mut v = v;
        if v.len() == 0 {
            v
        } else {
            let ghost v0 = v@;
            let a0 = v.remove(0);
            proof {
                lemma_attrs_view_index(v0);
                lemma_attrs_view_index(v@);
                assert(v@ =~= v0.subrange(1, v0.len() as int));
                assert(attrs_view(v@) =~= attrs_view(v0).subrange(
                    1,
                    attrs_view(v0).len() as int,
                ));
                assert(size_attrs(v0) == size_attr(v0[0]) + size_attrs(v0.subrange(1, v0.len() as int)));
                assert(size_attrs(v@) == size_attrs(v0.subrange(1, v0.len() as int)));
                lemma_size_attrs_pos(v0.subrange(1, v0.len() as int));
                lemma_size_attr_pos(v0[0]);
            }
            let a2 = self.tf_attr(a0);
            let mut rest = self.tf_attrs(v);
            let ghost rest0 = rest@;
            rest.insert(0, a2);
            proof {
                lemma_attrs_view_index(rest0);
                lemma_attrs_view_index(rest@);
                assert(attrs_view(rest@) =~= seq![attr_view(a2)] + attrs_view(rest0));
            }
            rest
        }
    }

    /// Transforms one item.  A function item's own attributes and signature
    /// are not visited; only its body is.
    fn tf_item(&mut self, it: Item) -> (r: Item)
        ensures
            old(self).keeps_config(*final(self)),
            (item_view(r), final(self).vars()) == tf_item_s(
                old(self).cfg(),
                old(self).vars(),
                item_view(it),
            ),
        decreases size_item(it),
    {
        match it {
            Item::FnItem { attrs, name, sig, block } => {
                let b2 = self.tf_block(block);
                Item::FnItem { attrs, name, sig, block: b2 }
            },
            Item::ConstItem { attrs, name, ty, value } => {
                let aa2 = self.tf_attrs(attrs);
                let e2 = self.tf_expr(value);
                Item::ConstItem { attrs: aa2, name, ty, value: e2 }
            },
            Item::UseItem { text } => Item::UseItem { text },
            Item::OtherItem { attrs, text } => {
                let aa2 = self.tf_attrs(attrs);
                Item::OtherItem { attrs: aa2, text }
            },
        }
    }

    /// Transforms a list of items, in order.
    #[verifier::rlimit(100)]
    fn tf_items(&mut self, v: Vec<Item>) -> (r: Vec<Item>)
        ensures
            old(self).keeps_config(*final(self)),
            (items_view(r@), final(self).vars()) == tf_items_s(
                old(self).cfg(),
                old(self).vars(),
                items_view(v@),
            ),
        decreases size_items(v@),
    {
        let mut v = v;
        if v.len() == 0 {
            v
        } else {
            let ghost v0 = v@;
            let i0 = v.remove(0);
            proof {
                lemma_items_view_index(v0);
                lemma_items_view_index(v@);
                assert(v@ =~= v0.subrange(1, v0.len() as int));
                assert(items_view(v@) =~= items_view(v0).subrange(
                    1,
                    items_view(v0).len() as int,
                ));
                assert(size_items(v0) == size_item(v0[0]) + size_items(v0.subrange(1, v0.len() as int)));
                assert(size_items(v@) == size_items(v0.subrange(1, v0.len() as int)));
                lemma_size_items_pos(v0.subrange(1, v0.len() as int));
                lemma_size_item_pos(v0[0]);
            }
            let i2 = self.tf_item(i0);
            let mut rest = self.tf_items(v);
            let ghost rest0 = rest@;
            rest.insert(0, i2);
            proof {
                lemma_items_view_index(rest0);
                lemma_items_view_index(rest@);
                assert(items_view(rest@) =~= seq![item_view(i2)] + items_view(rest0));
            }
            rest
        }
    }

    /// Transforms a whole file: its leading attributes, then its items.
    fn tf_file(&mut self, f: SourceFile) -> (r: SourceFile)
        ensures
            old(self).keeps_config(*final(self)),
            (file_view(r), final(self).vars()) == tf_file_s(
                old(self).cfg(),
                old(self).vars(),
                file_view(f),
            ),
        decreases size_file(f),
    {
        let aa2 = self.tf_attrs(f.attrs);
        let ii2 = self.tf_items(f.items);
        SourceFile { attrs: aa2, items: ii2 }
    }
}


impl ObfuscationTransformer {
    /// Scans one expression without changing it: whether the literal pass
    /// would wrap something in it, and whether the flow pass would mark a
    /// block in it.
    #[verifier::rlimit(100)]
    fn scan_expr(&self, e: &Expr) -> (r: (bool, bool))
        ensures
            r.0 == lit_fires_expr(self.cfg(), expr_view(*e)),
            r.1 == flow_fires_expr(self.cfg().skip_attrs, expr_view(*e)),
        decreases size_expr(*e),
    {
        match e {
            Expr::StrLit { value } => (self.wrap_literal_exec(value), false),
            Expr::OtherLit { text } => (false, false),
            Expr::PathExpr { name } => (false, false),
            Expr::MacroExpr { name, str_arg } => (false, false),
            Expr::Verbatim { text } => (false, false),
            Expr::Call { callee, args } => {
                let a = self.scan_expr(callee);
                proof {
                    assert(args@.subrange(0, args@.len() as int) =~= args@);
                    assert(exprs_view(args@).subrange(0, args@.len() as int) =~= exprs_view(
                        args@,
                    )) by {
                        lemma_exprs_view_index(args@);
                    }
                }
                let b = self.scan_exprs_from(args, 0);
                ((a.0 || b.0), (a.1 || b.1))
            },
            Expr::MethodCall { recv, method, args } => {
                let a = self.scan_expr(recv);
                proof {
                    assert(args@.subrange(0, args@.len() as int) =~= args@);
                    assert(exprs_view(args@).subrange(0, args@.len() as int) =~= exprs_view(
                        args@,
                    )) by {
                        lemma_exprs_view_index(args@);
                    }
                }
                let b = self.scan_exprs_from(args, 0);
                ((a.0 || b.0), (a.1 || b.1))
            },
            Expr::Reference { mutable, expr } => self.scan_expr(expr),
            Expr::Deref { expr } => self.scan_expr(expr),
            Expr::Paren { expr } => self.scan_expr(expr),
            Expr::BlockExpr { block } => self.scan_block(block),
            Expr::If { cond, then_branch, else_branch } => {
                let a = self.scan_expr(cond);
                let b = self.scan_block(then_branch);
                let c = match else_branch {
                    None => (false, false),
                    Some(eb) => {
                        proof {
                            assert(size_else(**eb) < size_expr(*e));
                        }
                        match &**eb {
                            ElseBranch::ElseBlock { block } => {
                                proof {
                                    assert(size_block(*block) < size_else(**eb));
                                    assert(else_view(**eb) == (ElseBranchV::ElseBlock {
                                        block: block_view(*block),
                                    }));
                                }
                                self.scan_block(block)
                            },
                            ElseBranch::ElseIf { expr } => {
                                proof {
                                    assert(size_expr(*expr) < size_else(**eb));
                                    assert(else_view(**eb) == (ElseBranchV::ElseIf {
                                        expr: Box::new(expr_view(*expr)),
                                    }));
                                }
                                self.scan_expr(expr)
                            },
                        }
                    },
                };
                let out = ((a.0 || b.0 || c.0), true);
                proof {
                    assert(out.0 == lit_fires_expr(self.cfg(), expr_view(*e)));
                }
                out
            },
            Expr::While { cond, body } => {
                let a = self.scan_expr(cond);
                let b = self.scan_block(body);
                ((a.0 || b.0), true)
            },
            Expr::Loop { body } => {
                let b = self.scan_block(body);
                (b.0, true)
            },
            Expr::ForLoop { pat, iter, body } => {
                let a = self.scan_expr(iter);
                let b = self.scan_block(body);
                ((a.0 || b.0), true)
            },
            Expr::Match { scrutinee, arms } => {
                let a = self.scan_expr(scrutinee);
                proof {
                    assert(arms@.subrange(0, arms@.len() as int) =~= arms@);
                    assert(arms_view(arms@).subrange(0, arms@.len() as int) =~= arms_view(
                        arms@,
                    )) by {
                        lemma_arms_view_index(arms@);
                    }
                }
                let b = self.scan_arms_from(arms, 0);
                ((a.0 || b), (arms.len() > 0 || a.1))
            },
        }
    }

    fn scan_block(&self, b: &Block) -> (r: (bool, bool))
        ensures
            r.0 == lit_fires_block(self.cfg(), block_view(*b)),
            r.1 == flow_fires_block(self.cfg().skip_attrs, block_view(*b)),
        decreases size_block(*b),
    {
        proof {
            assert(b.stmts@.subrange(0, b.stmts@.len() as int) =~= b.stmts@);
            assert(stmts_view(b.stmts@).subrange(0, b.stmts@.len() as int) =~= stmts_view(
                b.stmts@,
            )) by {
                lemma_stmts_view_index(b.stmts@);
            }
        }
        self.scan_stmts_from(&b.stmts, 0)
    }

    fn scan_stmt(&self, st: &Stmt) -> (r: (bool, bool))
        ensures
            r.0 == lit_fires_stmt(self.cfg(), stmt_view(*st)),
            r.1 == flow_fires_stmt(self.cfg().skip_attrs, stmt_view(*st)),
        decreases size_stmt(*st),
    {
        match st {
            Stmt::Local { pat, init } => match init {
                Some(e) => self.scan_expr(e),
                None => (false, false),
            },
            Stmt::ExprStmt { expr, semi } => self.scan_expr(expr),
            Stmt::MacroStmt { name, str_arg } => (false, false),
            Stmt::ItemStmt { item } => self.scan_item(item),
        }
    }

    fn scan_attr(&self, a: &Attr) -> (r: (bool, bool))
        ensures
            r.0 == lit_fires_attr(self.cfg(), attr_view(*a)),
            r.1 == flow_fires_attr(self.cfg().skip_attrs, attr_view(*a)),
        decreases size_attr(*a),
    {
        if self.skip_attributes {
            return (false, false);
        }
        match &a.meta {
            AttrMeta::Path { path } => (false, false),
            AttrMeta::List { path, tokens } => (false, false),
            AttrMeta::NameValue { path, value } => self.scan_expr(value),
        }
    }

    #[verifier::rlimit(100)]
    fn scan_item(&self, it: &Item) -> (r: (bool, bool))
        ensures
            r.0 == lit_fires_item(self.cfg(), item_view(*it)),
            r.1 == flow_fires_item(self.cfg().skip_attrs, item_view(*it)),
        decreases size_item(*it),
    {
        match it {
            Item::FnItem { attrs, name, sig, block } => self.scan_block(block),
            Item::ConstItem { attrs, name, ty, value } => {
                proof {
                    assert(attrs@.subrange(0, attrs@.len() as int) =~= attrs@);
                    assert(attrs_view(attrs@).subrange(0, attrs@.len() as int) =~= attrs_view(
                        attrs@,
                    )) by {
                        lemma_attrs_view_index(attrs@);
                    }
                }
                let a = self.scan_attrs_from(attrs, 0);
                let b = self.scan_expr(value);
                ((a.0 || b.0), (a.1 || b.1))
            },
            Item::UseItem { text } => (false, false),
            Item::OtherItem { attrs, text } => {
                proof {
                    assert(attrs@.subrange(0, attrs@.len() as int) =~= attrs@);
                    assert(attrs_view(attrs@).subrange(0, attrs@.len() as int) =~= attrs_view(
                        attrs@,
                    )) by {
                        lemma_attrs_view_index(attrs@);
                    }
                }
                self.scan_attrs_from(attrs, 0)
            },
        }
    }

    #[verifier::rlimit(100)]
    fn scan_exprs_from(&self, v: &Vec<Expr>, i: usize) -> (r: (bool, bool))
        requires
            i <= v@.len(),
        ensures
            r.0 == lit_fires_exprs(self.cfg(), exprs_view(v@).subrange(i as int, v@.len() as int)),
            r.1 == flow_fires_exprs(self.cfg().skip_attrs, exprs_view(v@).subrange(
                i as int,
                v@.len() as int,
            )),
        decreases size_exprs(v@.subrange(i as int, v@.len() as int)),
    {
        if i == v.len() {
            proof {
                assert(exprs_view(v@).len() == v@.len()) by {
                    lemma_exprs_view_index(v@);
                }
                assert(exprs_view(v@).subrange(i as int, v@.len() as int)
                    =~= Seq::empty());
            }
            (false, false)
        } else {
            proof {
                lemma_exprs_view_index(v@);
                let w = exprs_view(v@);
                let wi = w.subrange(i as int, w.len() as int);
                assert(wi[0] == w[i as int]);
                assert(wi.subrange(1, wi.len() as int) =~= w.subrange(i + 1, w.len() as int));
                let ui = v@.subrange(i as int, v@.len() as int);
                assert(ui[0] == v@[i as int]);
                assert(ui.subrange(1, ui.len() as int) =~= v@.subrange(i + 1, v@.len() as int));
                lemma_size_exprs_pos(v@.subrange(i + 1, v@.len() as int));
                lemma_size_expr_pos(v@[i as int]);
                assert(size_exprs(ui) == size_expr(v@[i as int]) + size_exprs(
                    v@.subrange(i + 1, v@.len() as int),
                ));
            }
            let a = self.scan_expr(&v[i]);
            let b = self.scan_exprs_from(v, i + 1);
            ((a.0 || b.0), (a.1 || b.1))
        }
    }

    #[verifier::rlimit(100)]
    fn scan_arms_from(&self, v: &Vec<Arm>, i: usize) -> (r: bool)
        requires
            i <= v@.len(),
        ensures
            r == lit_fires_arms(self.cfg(), arms_view(v@).subrange(i as int, v@.len() as int)),
        decreases size_arms(v@.subrange(i as int, v@.len() as int)),
    {
        if i == v.len() {
            proof {
                assert(arms_view(v@).len() == v@.len()) by {
                    lemma_arms_view_index(v@);
                }
                assert(arms_view(v@).subrange(i as int, v@.len() as int)
                    =~= Seq::empty());
            }
            false
        } else {
            proof {
                lemma_arms_view_index(v@);
                let w = arms_view(v@);
                let wi = w.subrange(i as int, w.len() as int);
                assert(wi[0] == w[i as int]);
                assert(wi.subrange(1, wi.len() as int) =~= w.subrange(i + 1, w.len() as int));
                let ui = v@.subrange(i as int, v@.len() as int);
                assert(ui[0] == v@[i as int]);
                assert(ui.subrange(1, ui.len() as int) =~= v@.subrange(i + 1, v@.len() as int));
                lemma_size_arms_pos(v@.subrange(i + 1, v@.len() as int));
                lemma_size_arm_pos(v@[i as int]);
                assert(size_arms(ui) == size_arm(v@[i as int]) + size_arms(
                    v@.subrange(i + 1, v@.len() as int),
                ));
            }
            let a = self.scan_expr(&v[i].body).0;
            let b = self.scan_arms_from(v, i + 1);
            (a || b)
        }
    }

    #[verifier::rlimit(100)]
    fn scan_stmts_from(&self, v: &Vec<Stmt>, i: usize) -> (r: (bool, bool))
        requires
            i <= v@.len(),
        ensures
            r.0 == lit_fires_stmts(self.cfg(), stmts_view(v@).subrange(i as int, v@.len() as int)),
            r.1 == flow_fires_stmts(self.cfg().skip_attrs, stmts_view(v@).subrange(
                i as int,
                v@.len() as int,
            )),
        decreases size_stmts(v@.subrange(i as int, v@.len() as int)),
    {
        if i == v.len() {
            proof {
                assert(stmts_view(v@).len() == v@.len()) by {
                    lemma_stmts_view_index(v@);
                }
                assert(stmts_view(v@).subrange(i as int, v@.len() as int)
                    =~= Seq::empty());
            }
            (false, false)
        } else {
            proof {
                lemma_stmts_view_index(v@);
                let w = stmts_view(v@);
                let wi = w.subrange(i as int, w.len() as int);
                assert(wi[0] == w[i as int]);
                assert(wi.subrange(1, wi.len() as int) =~= w.subrange(i + 1, w.len() as int));
                let ui = v@.subrange(i as int, v@.len() as int);
                assert(ui[0] == v@[i as int]);
                assert(ui.subrange(1, ui.len() as int) =~= v@.subrange(i + 1, v@.len() as int));
                lemma_size_stmts_pos(v@.subrange(i + 1, v@.len() as int));
                lemma_size_stmt_pos(v@[i as int]);
                assert(size_stmts(ui) == size_stmt(v@[i as int]) + size_stmts(
                    v@.subrange(i + 1, v@.len() as int),
                ));
            }
            let a = self.scan_stmt(&v[i]);
            let b = self.scan_stmts_from(v, i + 1);
            ((a.0 || b.0), (a.1 || b.1))
        }
    }

    #[verifier::rlimit(100)]
    fn scan_attrs_from(&self, v: &Vec<Attr>, i: usize) -> (r: (bool, bool))
        requires
            i <= v@.len(),
        ensures
            r.0 == lit_fires_attrs(self.cfg(), attrs_view(v@).subrange(i as int, v@.len() as int)),
            r.1 == flow_fires_attrs(self.cfg().skip_attrs, attrs_view(v@).subrange(
                i as int,
                v@.len() as int,
            )),
        decreases size_attrs(v@.subrange(i as int, v@.len() as int)),
    {
        if i == v.len() {
            proof {
                assert(attrs_view(v@).len() == v@.len()) by {
                    lemma_attrs_view_index(v@);
                }
                assert(attrs_view(v@).subrange(i as int, v@.len() as int)
                    =~= Seq::empty());
            }
            (false, false)
        } else {
            proof {
                lemma_attrs_view_index(v@);
                let w = attrs_view(v@);
                let wi = w.subrange(i as int, w.len() as int);
                assert(wi[0] == w[i as int]);
                assert(wi.subrange(1, wi.len() as int) =~= w.subrange(i + 1, w.len() as int));
                let ui = v@.subrange(i as int, v@.len() as int);
                assert(ui[0] == v@[i as int]);
                assert(ui.subrange(1, ui.len() as int) =~= v@.subrange(i + 1, v@.len() as int));
                lemma_size_attrs_pos(v@.subrange(i + 1, v@.len() as int));
                lemma_size_attr_pos(v@[i as int]);
                assert(size_attrs(ui) == size_attr(v@[i as int]) + size_attrs(
                    v@.subrange(i + 1, v@.len() as int),
                ));
            }
            let a = self.scan_attr(&v[i]);
            let b = self.scan_attrs_from(v, i + 1);
            ((a.0 || b.0), (a.1 || b.1))
        }
    }

    #[verifier::rlimit(100)]
    fn scan_items_from(&self, v: &Vec<Item>, i: usize) -> (r: (bool, bool))
        requires
            i <= v@.len(),
        ensures
            r.0 == lit_fires_items(self.cfg(), items_view(v@).subrange(i as int, v@.len() as int)),
            r.1 == flow_fires_items(self.cfg().skip_attrs, items_view(v@).subrange(
                i as int,
                v@.len() as int,
            )),
        decreases size_items(v@.subrange(i as int, v@.len() as int)),
    {
        if i == v.len() {
            proof {
                assert(items_view(v@).len() == v@.len()) by {
                    lemma_items_view_index(v@);
                }
                assert(items_view(v@).subrange(i as int, v@.len() as int)
                    =~= Seq::empty());
            }
            (false, false)
        } else {
            proof {
                lemma_items_view_index(v@);
                let w = items_view(v@);
                let wi = w.subrange(i as int, w.len() as int);
                assert(wi[0] == w[i as int]);
                assert(wi.subrange(1, wi.len() as int) =~= w.subrange(i + 1, w.len() as int));
                let ui = v@.subrange(i as int, v@.len() as int);
                assert(ui[0] == v@[i as int]);
                assert(ui.subrange(1, ui.len() as int) =~= v@.subrange(i + 1, v@.len() as int));
                lemma_size_items_pos(v@.subrange(i + 1, v@.len() as int));
                lemma_size_item_pos(v@[i as int]);
                assert(size_items(ui) == size_item(v@[i as int]) + size_items(
                    v@.subrange(i + 1, v@.len() as int),
                ));
            }
            let a = self.scan_item(&v[i]);
            let b = self.scan_items_from(v, i + 1);
            ((a.0 || b.0), (a.1 || b.1))
        }
    }

    /// Scans a whole file without changing it: whether the literal pass
    /// would wrap something in it, and whether the flow pass would mark a
    /// block in it.
    fn scan_file(&self, f: &SourceFile) -> (r: (bool, bool))
        ensures
            r.0 == lit_fires_file(self.cfg(), file_view(*f)),
            r.1 == flow_fires_file(self.cfg().skip_attrs, file_view(*f)),
    {
        proof {
            assert(f.attrs@.subrange(0, f.attrs@.len() as int) =~= f.attrs@);
            assert(attrs_view(f.attrs@).subrange(0, f.attrs@.len() as int) =~= attrs_view(
                f.attrs@,
            )) by {
                lemma_attrs_view_index(f.attrs@);
            }
            assert(f.items@.subrange(0, f.items@.len() as int) =~= f.items@);
            assert(items_view(f.items@).subrange(0, f.items@.len() as int) =~= items_view(
                f.items@,
            )) by {
                lemma_items_view_index(f.items@);
            }
        }
        let a = self.scan_attrs_from(&f.attrs, 0);
        let b = self.scan_items_from(&f.items, 0);
        ((a.0 || b.0), (a.1 || b.1))
    }
}

impl ObfuscationTransformer {
    /// Ensures the companion import of each pass that fired is present
    /// exactly once: each owed import is added in front of the items and
    /// after the file's leading attributes, unless an existing import
    /// already names that macro.
    #[verifier::rlimit(100)]
    pub fn insert_companion_uses(&self, want_protect: bool, want_flow: bool, f: SourceFile) -> (r:
        SourceFile)
        ensures
            file_view(r) == insert_uses_gated(want_protect, want_flow, file_view(f)),
    {
        proof {
            lemma_items_view_index(f.items@);
        }
        let ghost iv = items_view(f.items@);
        let mut has_protect: bool = false;
        let mut has_flow: bool = false;
        let mut i: usize = 0;
        while i < f.items.len()
            invariant
                0 <= i <= f.items@.len(),
                iv == items_view(f.items@),
                iv.len() == f.items@.len(),
                forall|j: int| 0 <= j < f.items@.len() ==> iv[j] == item_view(f.items@[j]),
                has_protect == exists|j: int|
                    0 <= j < i && is_use_naming(#[trigger] iv[j], protect_name()),
                has_flow == exists|j: int|
                    0 <= j < i && is_use_naming(#[trigger] iv[j], flow_name()),
            decreases f.items@.len() - i,
        {
            let hits = match &f.items[i] {
                Item::UseItem { text } => (
                    str_contains(text.as_str(), "obfuscate_string"),
                    str_contains(text.as_str(), "obfuscate_flow"),
                ),
                _ => (false, false),
            };
            proof {
                assert(hits.0 == is_use_naming(iv[i as int], protect_name()));
                assert(hits.1 == is_use_naming(iv[i as int], flow_name()));
            }
            if hits.0 {
                has_protect = true;
            }
            if hits.1 {
                has_flow = true;
            }
            i = i + 1;
        }
        proof {
            assert(has_protect == has_use_of(iv, protect_name()));
            assert(has_flow == has_use_of(iv, flow_name()));
        }
        let mut new_items: Vec<Item> = Vec::new();
        if want_protect && !has_protect {
            new_items.push(Item::UseItem { text: "rust_code_obfuscator::obfuscate_string".to_owned() });
        }
        if want_flow && !has_flow {
            new_items.push(Item::UseItem { text: "rust_code_obfuscator::obfuscate_flow".to_owned() });
        }
        let ghost target = insert_uses_gated(want_protect, want_flow, file_view(f));
        proof {
            lemma_items_view_index(new_items@);
            assert(items_view(new_items@) + iv =~= target.items);
        }
        if new_items.len() == 0 {
            proof {
                assert(target.items =~= iv);
                assert(target == file_view(f));
            }
            return f;
        }
        let ghost cu = items_view(new_items@);
        let mut f = f;
        new_items.append(&mut f.items);
        proof {
            lemma_items_view_index(new_items@);
            assert(items_view(new_items@) =~= cu + iv);
        }
        SourceFile { attrs: f.attrs, items: new_items }
    }

    /// Transforms a whole file under this engine's configuration: the
    /// deterministic walk, the renaming pass when it is enabled, then the
    /// companion import of each pass that fired on the file.
    #[verifier::rlimit(100)]
    pub fn transform_source_file(&mut self, f: SourceFile) -> (r: SourceFile)
        ensures
            old(self).keeps_config(*final(self)),
            ({
                let (g, vs) = tf_file_s(old(self).cfg(), old(self).vars(), file_view(f));
                &&& final(self).vars() == vs
                &&& !old(self).rename_identifiers ==> file_view(r) == insert_uses_s(
                    old(self).cfg(),
                    file_view(f),
                    g,
                )
                &&& old(self).rename_identifiers ==> exists|h: SourceFileV|
                    crate::rename::ren_file(old(self).rncfg(), g, h) && file_view(r)
                        == insert_uses_s(old(self).cfg(), file_view(f), h)
            }),
    {
        let fired = self.scan_file(&f);
        let want_protect = self.obfuscate_strings && fired.0;
        let want_flow = self.obfuscate_flow && fired.1;
        proof {
            assert(want_protect == strings_fired(self.cfg(), file_view(f)));
            assert(want_flow == flow_fired(self.cfg(), file_view(f)));
        }
        let t1 = self.tf_file(f);
        let t2 = if self.rename_identifiers {
            let renamed = self.rn_file(t1);
            renamed
        } else {
            t1
        };
        let out = self.insert_companion_uses(want_protect, want_flow, t2);
        proof {
            assert(file_view(out) == insert_uses_gated(want_protect, want_flow, file_view(t2)));
            assert(insert_uses_gated(want_protect, want_flow, file_view(t2)) == insert_uses_s(
                old(self).cfg(),
                file_view(f),
                file_view(t2),
            ));
            let g = tf_file_s(old(self).cfg(), old(self).vars(), file_view(f)).0;
            if self.rename_identifiers {
                assert(crate::rename::ren_file(old(self).rncfg(), g, file_view(t2)));
                assert(file_view(out) == insert_uses_s(old(self).cfg(), file_view(f), file_view(t2)));
            } else {
                assert(file_view(t2) == g);
            }
        }
        out
    }

    /// Visits one expression in place, as the engine does during the walk.
    pub fn visit_expr_mut(&mut self, e: &mut Expr)
        ensures
            old(self).keeps_config(*final(self)),
            ({
                let (g, vs) = tf_expr_s(old(self).cfg(), old(self).vars(), expr_view(*old(e)));
                &&& final(self).vars() == vs
                &&& !old(self).rename_identifiers ==> expr_view(*final(e)) == g
                &&& old(self).rename_identifiers ==> crate::rename::ren_expr(
                    old(self).rncfg(),
                    g,
                    expr_view(*final(e)),
                )
            }),
    {
        let mut tmp = Expr::Verbatim { text: String::new() };
        core::mem::swap(e, &mut tmp);
        let t1 = self.tf_expr(tmp);
        let t2 = if self.rename_identifiers {
            self.rn_expr(t1)
        } else {
            t1
        };
        *e = t2;
    }

    /// Visits one statement in place; a `let` whose initializer is already
    /// a protection call records its binding.
    pub fn visit_stmt_mut(&mut self, s: &mut Stmt)
        ensures
            old(self).keeps_config(*final(self)),
            ({
                let (g, vs) = tf_stmt_s(old(self).cfg(), old(self).vars(), stmt_view(*old(s)));
                &&& final(self).vars() == vs
                &&& !old(self).rename_identifiers ==> stmt_view(*final(s)) == g
                &&& old(self).rename_identifiers ==> crate::rename::ren_stmt(
                    old(self).rncfg(),
                    g,
                    stmt_view(*final(s)),
                )
            }),
    {
        let mut tmp = Stmt::MacroStmt { name: String::new(), str_arg: None };
        core::mem::swap(s, &mut tmp);
        let t1 = self.tf_stmt(tmp);
        let t2 = if self.rename_identifiers {
            self.rn_stmt(t1)
        } else {
            t1
        };
        *s = t2;
    }

    /// Visits one attribute in place; under the attribute gate nothing is
    /// touched.
    pub fn visit_attribute_mut(&mut self, a: &mut Attr)
        ensures
            old(self).keeps_config(*final(self)),
            ({
                let (g, vs) = tf_attr_s(old(self).cfg(), old(self).vars(), attr_view(*old(a)));
                &&& final(self).vars() == vs
                &&& !old(self).rename_identifiers ==> attr_view(*final(a)) == g
                &&& old(self).rename_identifiers ==> crate::rename::ren_attr(
                    old(self).rncfg(),
                    g,
                    attr_view(*final(a)),
                )
            }),
    {
        let mut tmp = Attr { inner: false, meta: AttrMeta::Path { path: String::new() } };
        core::mem::swap(a, &mut tmp);
        let t1 = self.tf_attr(tmp);
        let t2 = if self.rename_identifiers {
            self.rn_attr(t1)
        } else {
            t1
        };
        *a = t2;
    }

    /// Visits a whole file in place: the walk, then the renaming pass when
    /// it is enabled.  Companion imports are a separate step; see
    /// [`Self::insert_companion_uses`].
    pub fn visit_file_mut(&mut self, f: &mut SourceFile)
        ensures
            old(self).keeps_config(*final(self)),
            ({
                let (g, vs) = tf_file_s(old(self).cfg(), old(self).vars(), file_view(*old(f)));
                &&& final(self).vars() == vs
                &&& !old(self).rename_identifiers ==> file_view(*final(f)) == g
                &&& old(self).rename_identifiers ==> crate::rename::ren_file(
                    old(self).rncfg(),
                    g,
                    file_view(*final(f)),
                )
            }),
    {
        let mut tmp = SourceFile { attrs: Vec::new(), items: Vec::new() };
        core::mem::swap(f, &mut tmp);
        let t1 = self.tf_file(tmp);
        let t2 = if self.rename_identifiers {
            self.rn_file(t1)
        } else {
            t1
        };
        *f = t2;
    }
}

} // verus!
