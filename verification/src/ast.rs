//! The syntax-tree model that the transformation engine works on.
//!
//! The external parser and pretty-printer translate program text to and
//! from this tree; the engine itself only ever sees these nodes.  Nodes the
//! passes never look inside are carried as `Verbatim` text so that a file
//! can round-trip unchanged.

use vstd::prelude::*;

verus! {

/// One attribute, e.g. `#[cfg(test)]` or `//! docs` (an inner `doc` attribute).
#[derive(Debug, PartialEq, Eq)]
pub struct Attr {
    /// `true` for inner attributes (`#![...]`, `//! ...`).
    pub inner: bool,
    pub meta: AttrMeta,
}

/// The content of an attribute.
#[derive(Debug, PartialEq, Eq)]
pub enum AttrMeta {
    /// `#[path]`
    Path { path: String },
    /// `#[path(tok, tok, ...)]`
    List { path: String, tokens: Vec<String> },
    /// `#[path = <expr>]`, e.g. `#[doc = "..."]`
    NameValue { path: String, value: Box<Expr> },
}

/// A pattern, as found in `let` bindings, `for` loops and match arms.
#[derive(Debug, PartialEq, Eq)]
pub enum Pat {
    /// A binding identifier.
    Ident { name: String },
    /// `pat: Type`
    Typed { pat: Box<Pat>, ty: String },
    /// `_`
    Wild,
    /// Any other pattern, kept as text.
    Other { text: String },
}

/// A block `{ stmt; ... }`.
#[derive(Debug, PartialEq, Eq)]
pub struct Block {
    pub stmts: Vec<Stmt>,
}

/// One arm of a `match` expression.
#[derive(Debug, PartialEq, Eq)]
pub struct Arm {
    pub pat: Pat,
    pub body: Expr,
}

/// A statement.
#[derive(Debug, PartialEq, Eq)]
pub enum Stmt {
    /// `let pat = init;`
    Local { pat: Pat, init: Option<Expr> },
    /// An expression statement; `semi` records a trailing semicolon.
    ExprStmt { expr: Expr, semi: bool },
    /// A macro invocation statement, `name!(...)`; `str_arg` is the argument
    /// when it is a single string literal, `None` when there is no argument.
    MacroStmt { name: String, str_arg: Option<String> },
    /// An item declared inside a block.
    ItemStmt { item: Box<Item> },
}

/// An expression.
#[derive(Debug, PartialEq, Eq)]
pub enum Expr {
    /// A string literal.
    StrLit { value: String },
    /// Any other literal, kept as text.
    OtherLit { text: String },
    /// A plain path expression, e.g. a variable name.
    PathExpr { name: String },
    /// A macro invocation, `name!(...)`; `str_arg` as in [`Stmt::MacroStmt`].
    MacroExpr { name: String, str_arg: Option<String> },
    /// `callee(args, ...)`
    Call { callee: Box<Expr>, args: Vec<Expr> },
    /// `recv.method(args, ...)`
    MethodCall { recv: Box<Expr>, method: String, args: Vec<Expr> },
    /// `&expr` / `&mut expr`
    Reference { mutable: bool, expr: Box<Expr> },
    /// `*expr`
    Deref { expr: Box<Expr> },
    /// `(expr)`
    Paren { expr: Box<Expr> },
    /// A block used as an expression.
    BlockExpr { block: Block },
    /// `if cond { then } else ...`; `else_branch` is a block, a further
    /// `if` (an `else if` chain), or absent.
    If { cond: Box<Expr>, then_branch: Block, else_branch: Option<Box<ElseBranch>> },
    /// `while cond { body }`
    While { cond: Box<Expr>, body: Block },
    /// `loop { body }`
    Loop { body: Block },
    /// `for pat in iter { body }`
    ForLoop { pat: Pat, iter: Box<Expr>, body: Block },
    /// `match scrutinee { arms }`
    Match { scrutinee: Box<Expr>, arms: Vec<Arm> },
    /// Anything else, kept as text and left untouched.
    Verbatim { text: String },
}

/// The target of an `else`.
#[derive(Debug, PartialEq, Eq)]
pub enum ElseBranch {
    /// `else { ... }`
    ElseBlock { block: Block },
    /// `else if ...` (recurses as a further `if` expression).
    ElseIf { expr: Expr },
}

/// A top-level item.
#[derive(Debug, PartialEq, Eq)]
pub enum Item {
    /// `fn name(...) { block }`; the signature besides the name is kept as text.
    FnItem { attrs: Vec<Attr>, name: String, sig: String, block: Block },
    /// `const name: ty = value;`
    ConstItem { attrs: Vec<Attr>, name: String, ty: String, value: Expr },
    /// `use path;`, with the path kept as text.
    UseItem { text: String },
    /// Any other item, kept as text.
    OtherItem { attrs: Vec<Attr>, text: String },
}

/// A whole source file: its inner attributes followed by its items.
#[derive(Debug, PartialEq, Eq)]
pub struct SourceFile {
    pub attrs: Vec<Attr>,
    pub items: Vec<Item>,
}

} // verus!

use vstd::prelude::*;

verus! {

// ----------------------------------------------------------------------
// The mathematical view of the tree: the same shape, with strings as
// character sequences and lists as sequences.  Contracts and the
// transformation's specification speak in these terms.
// ----------------------------------------------------------------------

/// View of [`Attr`].
pub ghost struct AttrV {
    pub inner: bool,
    pub meta: MetaV,
}

/// View of [`AttrMeta`].
pub ghost enum MetaV {
    Path { path: Seq<char> },
    List { path: Seq<char>, tokens: Seq<Seq<char>> },
    NameValue { path: Seq<char>, value: Box<ExprV> },
}

/// View of [`Pat`].
pub ghost enum PatV {
    Ident { name: Seq<char> },
    Typed { pat: Box<PatV>, ty: Seq<char> },
    Wild,
    Other { text: Seq<char> },
}

/// View of [`Block`].
pub ghost struct BlockV {
    pub stmts: Seq<StmtV>,
}

/// View of [`Arm`].
pub ghost struct ArmV {
    pub pat: PatV,
    pub body: Box<ExprV>,
}

/// View of [`Stmt`].
pub ghost enum StmtV {
    Local { pat: PatV, init: Option<Box<ExprV>> },
    ExprStmt { expr: Box<ExprV>, semi: bool },
    MacroStmt { name: Seq<char>, str_arg: Option<Seq<char>> },
    ItemStmt { item: Box<ItemV> },
}

/// View of [`Expr`].
pub ghost enum ExprV {
    StrLit { value: Seq<char> },
    OtherLit { text: Seq<char> },
    PathExpr { name: Seq<char> },
    MacroExpr { name: Seq<char>, str_arg: Option<Seq<char>> },
    Call { callee: Box<ExprV>, args: Seq<ExprV> },
    MethodCall { recv: Box<ExprV>, method: Seq<char>, args: Seq<ExprV> },
    Reference { mutable: bool, expr: Box<ExprV> },
    Deref { expr: Box<ExprV> },
    Paren { expr: Box<ExprV> },
    BlockExpr { block: BlockV },
    If { cond: Box<ExprV>, then_branch: BlockV, else_branch: Option<Box<ElseBranchV>> },
    While { cond: Box<ExprV>, body: BlockV },
    Loop { body: BlockV },
    ForLoop { pat: PatV, iter: Box<ExprV>, body: BlockV },
    Match { scrutinee: Box<ExprV>, arms: Seq<ArmV> },
    Verbatim { text: Seq<char> },
}

/// View of [`ElseBranch`].
pub ghost enum ElseBranchV {
    ElseBlock { block: BlockV },
    ElseIf { expr: Box<ExprV> },
}

/// View of [`Item`].
pub ghost enum ItemV {
    FnItem { attrs: Seq<AttrV>, name: Seq<char>, sig: Seq<char>, block: BlockV },
    ConstItem { attrs: Seq<AttrV>, name: Seq<char>, ty: Seq<char>, value: Box<ExprV> },
    UseItem { text: Seq<char> },
    OtherItem { attrs: Seq<AttrV>, text: Seq<char> },
}

/// View of [`SourceFile`].
pub ghost struct SourceFileV {
    pub attrs: Seq<AttrV>,
    pub items: Seq<ItemV>,
}

pub open spec fn attr_view(a: Attr) -> AttrV
    decreases a,
{
    AttrV { inner: a.inner, meta: meta_view(a.meta) }
}

pub open spec fn attrs_view(v: Seq<Attr>) -> Seq<AttrV>
    decreases v,
{
    if v.len() == 0 {
        Seq::empty()
    } else {
        seq![attr_view(v[0])] + attrs_view(v.subrange(1, v.len() as int))
    }
}

pub open spec fn meta_view(m: AttrMeta) -> MetaV
    decreases m,
{
    match m {
        AttrMeta::Path { path } => MetaV::Path { path: path@ },
        AttrMeta::List { path, tokens } => MetaV::List { path: path@, tokens: crate::strutil::seq_views(tokens@) },
        AttrMeta::NameValue { path, value } => MetaV::NameValue {
            path: path@,
            value: Box::new(expr_view(*value)),
        },
    }
}

pub open spec fn pat_view(p: Pat) -> PatV
    decreases p,
{
    match p {
        Pat::Ident { name } => PatV::Ident { name: name@ },
        Pat::Typed { pat, ty } => PatV::Typed { pat: Box::new(pat_view(*pat)), ty: ty@ },
        Pat::Wild => PatV::Wild,
        Pat::Other { text } => PatV::Other { text: text@ },
    }
}

pub open spec fn block_view(b: Block) -> BlockV
    decreases b,
{
    BlockV { stmts: stmts_view(b.stmts@) }
}

pub open spec fn stmts_view(v: Seq<Stmt>) -> Seq<StmtV>
    decreases v,
{
    if v.len() == 0 {
        Seq::empty()
    } else {
        seq![stmt_view(v[0])] + stmts_view(v.subrange(1, v.len() as int))
    }
}

pub open spec fn stmt_view(s: Stmt) -> StmtV
    decreases s,
{
    match s {
        Stmt::Local { pat, init } => StmtV::Local {
            pat: pat_view(pat),
            init: match init {
                Some(e) => Some(Box::new(expr_view(e))),
                None => None,
            },
        },
        Stmt::ExprStmt { expr, semi } => StmtV::ExprStmt {
            expr: Box::new(expr_view(expr)),
            semi,
        },
        Stmt::MacroStmt { name, str_arg } => StmtV::MacroStmt {
            name: name@,
            str_arg: match str_arg {
                Some(a) => Some(a@),
                None => None,
            },
        },
        Stmt::ItemStmt { item } => StmtV::ItemStmt { item: Box::new(item_view(*item)) },
    }
}

pub open spec fn exprs_view(v: Seq<Expr>) -> Seq<ExprV>
    decreases v,
{
    if v.len() == 0 {
        Seq::empty()
    } else {
        seq![expr_view(v[0])] + exprs_view(v.subrange(1, v.len() as int))
    }
}

pub open spec fn arms_view(v: Seq<Arm>) -> Seq<ArmV>
    decreases v,
{
    if v.len() == 0 {
        Seq::empty()
    } else {
        seq![arm_view(v[0])] + arms_view(v.subrange(1, v.len() as int))
    }
}

pub open spec fn arm_view(a: Arm) -> ArmV
    decreases a,
{
    ArmV { pat: pat_view(a.pat), body: Box::new(expr_view(a.body)) }
}

pub open spec fn expr_view(e: Expr) -> ExprV
    decreases e,
{
    match e {
        Expr::StrLit { value } => ExprV::StrLit { value: value@ },
        Expr::OtherLit { text } => ExprV::OtherLit { text: text@ },
        Expr::PathExpr { name } => ExprV::PathExpr { name: name@ },
        Expr::MacroExpr { name, str_arg } => ExprV::MacroExpr {
            name: name@,
            str_arg: match str_arg {
                Some(a) => Some(a@),
                None => None,
            },
        },
        Expr::Call { callee, args } => ExprV::Call {
            callee: Box::new(expr_view(*callee)),
            args: exprs_view(args@),
        },
        Expr::MethodCall { recv, method, args } => ExprV::MethodCall {
            recv: Box::new(expr_view(*recv)),
            method: method@,
            args: exprs_view(args@),
        },
        Expr::Reference { mutable, expr } => ExprV::Reference {
            mutable,
            expr: Box::new(expr_view(*expr)),
        },
        Expr::Deref { expr } => ExprV::Deref { expr: Box::new(expr_view(*expr)) },
        Expr::Paren { expr } => ExprV::Paren { expr: Box::new(expr_view(*expr)) },
        Expr::BlockExpr { block } => ExprV::BlockExpr { block: block_view(block) },
        Expr::If { cond, then_branch, else_branch } => ExprV::If {
            cond: Box::new(expr_view(*cond)),
            then_branch: block_view(then_branch),
            else_branch: match else_branch {
                Some(eb) => Some(Box::new(else_view(*eb))),
                None => None,
            },
        },
        Expr::While { cond, body } => ExprV::While {
            cond: Box::new(expr_view(*cond)),
            body: block_view(body),
        },
        Expr::Loop { body } => ExprV::Loop { body: block_view(body) },
        Expr::ForLoop { pat, iter, body } => ExprV::ForLoop {
            pat: pat_view(pat),
            iter: Box::new(expr_view(*iter)),
            body: block_view(body),
        },
        Expr::Match { scrutinee, arms } => ExprV::Match {
            scrutinee: Box::new(expr_view(*scrutinee)),
            arms: arms_view(arms@),
        },
        Expr::Verbatim { text } => ExprV::Verbatim { text: text@ },
    }
}

pub open spec fn else_view(eb: ElseBranch) -> ElseBranchV
    decreases eb,
{
    match eb {
        ElseBranch::ElseBlock { block } => ElseBranchV::ElseBlock { block: block_view(block) },
        ElseBranch::ElseIf { expr } => ElseBranchV::ElseIf { expr: Box::new(expr_view(expr)) },
    }
}

pub open spec fn item_view(it: Item) -> ItemV
    decreases it,
{
    match it {
        Item::FnItem { attrs, name, sig, block } => ItemV::FnItem {
            attrs: attrs_view(attrs@),
            name: name@,
            sig: sig@,
            block: block_view(block),
        },
        Item::ConstItem { attrs, name, ty, value } => ItemV::ConstItem {
            attrs: attrs_view(attrs@),
            name: name@,
            ty: ty@,
            value: Box::new(expr_view(value)),
        },
        Item::UseItem { text } => ItemV::UseItem { text: text@ },
        Item::OtherItem { attrs, text } => ItemV::OtherItem { attrs: attrs_view(attrs@), text: text@ },
    }
}

pub open spec fn items_view(v: Seq<Item>) -> Seq<ItemV>
    decreases v,
{
    if v.len() == 0 {
        Seq::empty()
    } else {
        seq![item_view(v[0])] + items_view(v.subrange(1, v.len() as int))
    }
}

pub open spec fn file_view(f: SourceFile) -> SourceFileV
    decreases f,
{
    SourceFileV { attrs: attrs_view(f.attrs@), items: items_view(f.items@) }
}

// ----------------------------------------------------------------------
// Indexing the view of a list of nodes is viewing the indexed node.
// ----------------------------------------------------------------------

pub proof fn lemma_attrs_view_index(v: Seq<Attr>)
    ensures
        attrs_view(v).len() == v.len(),
        forall|i: int| 0 <= i < v.len() ==> attrs_view(v)[i] == attr_view(v[i]),
    decreases v,
{
    if v.len() > 0 {
        lemma_attrs_view_index(v.subrange(1, v.len() as int));
        assert forall|i: int| 0 <= i < v.len() implies attrs_view(v)[i] == attr_view(v[i]) by {
            if i > 0 {
                assert(v.subrange(1, v.len() as int)[i - 1] == v[i]);
            }
        }
    }
}

pub proof fn lemma_stmts_view_index(v: Seq<Stmt>)
    ensures
        stmts_view(v).len() == v.len(),
        forall|i: int| 0 <= i < v.len() ==> stmts_view(v)[i] == stmt_view(v[i]),
    decreases v,
{
    if v.len() > 0 {
        lemma_stmts_view_index(v.subrange(1, v.len() as int));
        assert forall|i: int| 0 <= i < v.len() implies stmts_view(v)[i] == stmt_view(v[i]) by {
            if i > 0 {
                assert(v.subrange(1, v.len() as int)[i - 1] == v[i]);
            }
        }
    }
}

pub proof fn lemma_exprs_view_index(v: Seq<Expr>)
    ensures
        exprs_view(v).len() == v.len(),
        forall|i: int| 0 <= i < v.len() ==> exprs_view(v)[i] == expr_view(v[i]),
    decreases v,
{
    if v.len() > 0 {
        lemma_exprs_view_index(v.subrange(1, v.len() as int));
        assert forall|i: int| 0 <= i < v.len() implies exprs_view(v)[i] == expr_view(v[i]) by {
            if i > 0 {
                assert(v.subrange(1, v.len() as int)[i - 1] == v[i]);
            }
        }
    }
}

pub proof fn lemma_arms_view_index(v: Seq<Arm>)
    ensures
        arms_view(v).len() == v.len(),
        forall|i: int| 0 <= i < v.len() ==> arms_view(v)[i] == arm_view(v[i]),
    decreases v,
{
    if v.len() > 0 {
        lemma_arms_view_index(v.subrange(1, v.len() as int));
        assert forall|i: int| 0 <= i < v.len() implies arms_view(v)[i] == arm_view(v[i]) by {
            if i > 0 {
                assert(v.subrange(1, v.len() as int)[i - 1] == v[i]);
            }
        }
    }
}

pub proof fn lemma_items_view_index(v: Seq<Item>)
    ensures
        items_view(v).len() == v.len(),
        forall|i: int| 0 <= i < v.len() ==> items_view(v)[i] == item_view(v[i]),
    decreases v,
{
    if v.len() > 0 {
        lemma_items_view_index(v.subrange(1, v.len() as int));
        assert forall|i: int| 0 <= i < v.len() implies items_view(v)[i] == item_view(v[i]) by {
            if i > 0 {
                assert(v.subrange(1, v.len() as int)[i - 1] == v[i]);
            }
        }
    }
}

// ----------------------------------------------------------------------
// Sizes: a positive measure on every node, used as the termination
// measure of the executable walks.
// ----------------------------------------------------------------------

pub open spec fn size_pat(p: Pat) -> nat
    decreases p,
{
    1 + match p {
        Pat::Ident { name } => 0,
        Pat::Typed { pat, ty } => size_pat(*pat),
        Pat::Wild => 0,
        Pat::Other { text } => 0,
    }
}

pub open spec fn size_meta(m: AttrMeta) -> nat
    decreases m,
{
    1 + match m {
        AttrMeta::Path { path } => 0,
        AttrMeta::List { path, tokens } => 0,
        AttrMeta::NameValue { path, value } => size_expr(*value),
    }
}

pub open spec fn size_attr(a: Attr) -> nat
    decreases a,
{
    1 + size_meta(a.meta)
}

pub open spec fn size_attrs(v: Seq<Attr>) -> nat
    decreases v,
{
    if v.len() == 0 {
        1
    } else {
        size_attr(v[0]) + size_attrs(v.subrange(1, v.len() as int))
    }
}

pub open spec fn size_block(b: Block) -> nat
    decreases b,
{
    1 + size_stmts(b.stmts@)
}

pub open spec fn size_stmts(v: Seq<Stmt>) -> nat
    decreases v,
{
    if v.len() == 0 {
        1
    } else {
        size_stmt(v[0]) + size_stmts(v.subrange(1, v.len() as int))
    }
}

pub open spec fn size_stmt(s: Stmt) -> nat
    decreases s,
{
    1 + match s {
        Stmt::Local { pat, init } => size_pat(pat) + match init {
            Some(e) => size_expr(e),
            None => 0,
        },
        Stmt::ExprStmt { expr, semi } => size_expr(expr),
        Stmt::MacroStmt { name, str_arg } => 0,
        Stmt::ItemStmt { item } => size_item(*item),
    }
}

pub open spec fn size_exprs(v: Seq<Expr>) -> nat
    decreases v,
{
    if v.len() == 0 {
        1
    } else {
        size_expr(v[0]) + size_exprs(v.subrange(1, v.len() as int))
    }
}

pub open spec fn size_arm(a: Arm) -> nat
    decreases a,
{
    1 + size_pat(a.pat) + size_expr(a.body)
}

pub open spec fn size_arms(v: Seq<Arm>) -> nat
    decreases v,
{
    if v.len() == 0 {
        1
    } else {
        size_arm(v[0]) + size_arms(v.subrange(1, v.len() as int))
    }
}

pub open spec fn size_expr(e: Expr) -> nat
    decreases e,
{
    1 + match e {
        Expr::StrLit { value } => 0,
        Expr::OtherLit { text } => 0,
        Expr::PathExpr { name } => 0,
        Expr::MacroExpr { name, str_arg } => 0,
        Expr::Verbatim { text } => 0,
        Expr::Call { callee, args } => size_expr(*callee) + size_exprs(args@),
        Expr::MethodCall { recv, method, args } => size_expr(*recv) + size_exprs(args@),
        Expr::Reference { mutable, expr } => size_expr(*expr),
        Expr::Deref { expr } => size_expr(*expr),
        Expr::Paren { expr } => size_expr(*expr),
        Expr::BlockExpr { block } => size_block(block),
        Expr::If { cond, then_branch, else_branch } => size_expr(*cond) + size_block(then_branch)
            + match else_branch {
            Some(eb) => size_else(*eb),
            None => 0,
        },
        Expr::While { cond, body } => size_expr(*cond) + size_block(body),
        Expr::Loop { body } => size_block(body),
        Expr::ForLoop { pat, iter, body } => size_pat(pat) + size_expr(*iter) + size_block(body),
        Expr::Match { scrutinee, arms } => size_expr(*scrutinee) + size_arms(arms@),
    }
}

pub open spec fn size_else(eb: ElseBranch) -> nat
    decreases eb,
{
    1 + match eb {
        ElseBranch::ElseBlock { block } => size_block(block),
        ElseBranch::ElseIf { expr } => size_expr(expr),
    }
}

pub open spec fn size_item(it: Item) -> nat
    decreases it,
{
    1 + match it {
        Item::FnItem { attrs, name, sig, block } => size_attrs(attrs@) + size_block(block),
        Item::ConstItem { attrs, name, ty, value } => size_attrs(attrs@) + size_expr(value),
        Item::UseItem { text } => 0,
        Item::OtherItem { attrs, text } => size_attrs(attrs@),
    }
}

pub open spec fn size_items(v: Seq<Item>) -> nat
    decreases v,
{
    if v.len() == 0 {
        1
    } else {
        size_item(v[0]) + size_items(v.subrange(1, v.len() as int))
    }
}

pub open spec fn size_file(f: SourceFile) -> nat
    decreases f,
{
    1 + size_attrs(f.attrs@) + size_items(f.items@)
}

// Every node and list has size at least one.

pub proof fn lemma_size_expr_pos(e: Expr)
    ensures
        size_expr(e) >= 1,
{
}

pub proof fn lemma_size_stmt_pos(x: Stmt)
    ensures
        size_stmt(x) >= 1,
{
}

pub proof fn lemma_size_arm_pos(x: Arm)
    ensures
        size_arm(x) >= 1,
{
}

pub proof fn lemma_size_attr_pos(x: Attr)
    ensures
        size_attr(x) >= 1,
{
}

pub proof fn lemma_size_item_pos(x: Item)
    ensures
        size_item(x) >= 1,
{
}

pub proof fn lemma_size_exprs_pos(v: Seq<Expr>)
    ensures
        size_exprs(v) >= 1,
    decreases v,
{
    if v.len() > 0 {
        lemma_size_exprs_pos(v.subrange(1, v.len() as int));
        lemma_size_expr_pos(v[0]);
    }
}

pub proof fn lemma_size_stmts_pos(v: Seq<Stmt>)
    ensures
        size_stmts(v) >= 1,
    decreases v,
{
    if v.len() > 0 {
        lemma_size_stmts_pos(v.subrange(1, v.len() as int));
        lemma_size_stmt_pos(v[0]);
    }
}

pub proof fn lemma_size_arms_pos(v: Seq<Arm>)
    ensures
        size_arms(v) >= 1,
    decreases v,
{
    if v.len() > 0 {
        lemma_size_arms_pos(v.subrange(1, v.len() as int));
        lemma_size_arm_pos(v[0]);
    }
}

pub proof fn lemma_size_attrs_pos(v: Seq<Attr>)
    ensures
        size_attrs(v) >= 1,
    decreases v,
{
    if v.len() > 0 {
        lemma_size_attrs_pos(v.subrange(1, v.len() as int));
        lemma_size_attr_pos(v[0]);
    }
}

pub proof fn lemma_size_items_pos(v: Seq<Item>)
    ensures
        size_items(v) >= 1,
    decreases v,
{
    if v.len() > 0 {
        lemma_size_items_pos(v.subrange(1, v.len() as int));
        lemma_size_item_pos(v[0]);
    }
}

/// The view keeps the node kind: a view is a path expression exactly when
/// the node is.
pub proof fn lemma_expr_view_path(e: Expr)
    ensures
        (expr_view(e) is PathExpr) == (e is PathExpr),
{
    match e {
        Expr::StrLit { value } => {},
        Expr::OtherLit { text } => {},
        Expr::PathExpr { name } => {},
        Expr::MacroExpr { name, str_arg } => {},
        Expr::Verbatim { text } => {},
        Expr::Call { callee, args } => {},
        Expr::MethodCall { recv, method, args } => {},
        Expr::Reference { mutable, expr } => {},
        Expr::Deref { expr } => {},
        Expr::Paren { expr } => {},
        Expr::BlockExpr { block } => {},
        Expr::If { cond, then_branch, else_branch } => {},
        Expr::While { cond, body } => {},
        Expr::Loop { body } => {},
        Expr::ForLoop { pat, iter, body } => {},
        Expr::Match { scrutinee, arms } => {},
    }
}

} // verus!
