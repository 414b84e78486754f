//! Lowering of declarations.

use vstd::prelude::*;
use vstd::string::StringSliceAdditionalSpecFns;
use crate::ast::expr::ExprModel;
use crate::ast::literal::ranged;
use crate::ast::literal::ranged_text;
use crate::ast::pattern::Variable;
use crate::ast::statement::argument_models;
use crate::ast::statement::statement_models;
use crate::ast::statement::Argument;
use crate::ast::statement::ArgumentModel;
use crate::ast::statement::Preamble;
use crate::ast::statement::Statement;
use crate::ast::statement::StatementModel;
use crate::ast::statement::Stmt;
use crate::error::bad_shape;
use crate::error::collect;
use crate::error::fails;
use crate::error::gives;
use crate::error::LowerError;
use crate::lower::common::at_node;
use crate::lower::common::into_variable;
use crate::lower::common::name_of;
use crate::lower::common::node_text;
use crate::lower::common::optional_text;
use crate::lower::common::ranged_node_text;
use crate::lower::common::ranged_text_of;
use crate::lower::common::shape_error;
use crate::lower::common::wrap_node;
use crate::lower::expr::lower_ranged_expr;
use crate::lower::expr::ranged_expr_of;
use crate::lower::lists::argument_results;
use crate::lower::lists::lower_arguments;
use crate::lower::lists::lower_statements;
use crate::lower::lists::statement_results;
use crate::lower::pattern::lower_pattern;
use crate::lower::pattern::lower_ranged_pattern;
use crate::lower::pattern::pattern_of;
use crate::lower::pattern::ranged_pattern_of;
use crate::position::Ranged;
use crate::rule::Rule;
use crate::tree::Pair;
use crate::tree::Tree;

verus! {

/// What a parameter lowers to. A node of rule `arg` holds either the name
/// of an optional parameter or a pattern; a node of rule `pattern` is a
/// pattern itself.
#[verifier::opaque]
pub open spec fn argument_of(b: Seq<u8>, t: Tree) -> Result<ArgumentModel, LowerError> {
    if t.rule == Rule::pattern {
        match pattern_of(b, t) {
            Ok(p) => Ok(ArgumentModel::Pattern(p)),
            Err(e) => Err(e),
        }
    } else if t.rule != Rule::arg || t.children.len() < 1 {
        Err(bad_shape(t))
    } else if t.children[0].rule == Rule::var_ptn {
        match name_of(b, t.children[0]) {
            Ok(v) => Ok(ArgumentModel::Optional(v)),
            Err(e) => Err(e),
        }
    } else {
        match pattern_of(b, t.children[0]) {
            Ok(p) => Ok(ArgumentModel::Pattern(p)),
            Err(e) => Err(e),
        }
    }
}

/// What a parameter lowers to, with the node's range.
#[verifier::opaque]
pub open spec fn ranged_argument_of(b: Seq<u8>, t: Tree) -> Result<
    Ranged<ArgumentModel>,
    LowerError,
> {
    match argument_of(b, t) {
        Ok(v) => at_node(b, t, v),
        Err(e) => Err(e),
    }
}

/// What a `let` lowers to: the pattern of its first child, the parameters
/// if the second child holds some, and the expression of the last.
#[verifier::opaque]
pub open spec fn let_of(b: Seq<u8>, t: Tree) -> Result<StatementModel, LowerError>
    decreases t, 1nat,
{
    if t.children.len() < 2 {
        Err(bad_shape(t))
    } else if t.children[1].rule == Rule::stmt_argument && t.children.len() < 3 {
        Err(bad_shape(t))
    } else {
        match ranged_pattern_of(b, t.children[0]) {
            Err(e) => Err(e),
            Ok(ptn) => if t.children[1].rule == Rule::stmt_argument {
                match collect(
                    argument_results(b, t.children[1], 0, t.children[1].children.len() as int),
                ) {
                    Err(e) => Err(e),
                    Ok(args) => match ranged_expr_of(b, t.children[2]) {
                        Err(e) => Err(e),
                        Ok(expr) => Ok(StatementModel::Let { ptn, args, expr }),
                    },
                }
            } else {
                match ranged_expr_of(b, t.children[1]) {
                    Err(e) => Err(e),
                    Ok(expr) => Ok(StatementModel::Let { ptn, args: Seq::empty(), expr }),
                }
            },
        }
    }
}

/// Where the name of the command stands among the children of a
/// declaration of a command: behind the context variable, if the first
/// child is one.
pub open spec fn command_at(t: Tree) -> int {
    if t.children.len() > 0 && t.children[0].rule == Rule::var {
        1
    } else {
        0
    }
}

/// The context variable of the declaration of a command, if its first child
/// is one.
pub open spec fn command_context(b: Seq<u8>, t: Tree) -> Result<
    Option<Ranged<Seq<char>>>,
    LowerError,
> {
    if command_at(t) == 1 {
        match ranged_text_of(b, t.children[0]) {
            Ok(v) => Ok(Some(v)),
            Err(e) => Err(e),
        }
    } else {
        Ok(None)
    }
}

/// What the declaration of a command lowers to: the context variable if
/// the first child is one, the name of the command, the parameters, and the
/// expression of the last child.
#[verifier::opaque]
pub open spec fn let_command_of(b: Seq<u8>, t: Tree) -> Result<
    (Option<Ranged<Seq<char>>>, Ranged<Seq<char>>, Seq<Ranged<ArgumentModel>>, Ranged<ExprModel>),
    LowerError,
>
    decreases t, 1nat,
{
    if t.children.len() < command_at(t) + 2 {
        Err(bad_shape(t))
    } else {
        match command_context(b, t) {
            Err(e) => Err(e),
            Ok(ctx) => match ranged_text_of(b, t.children[command_at(t)]) {
                Err(e) => Err(e),
                Ok(name) => match collect(
                    argument_results(b, t, command_at(t) + 1, t.children.len() - 1),
                ) {
                    Err(e) => Err(e),
                    Ok(args) => match ranged_expr_of(b, t.children[t.children.len() - 1]) {
                        Err(e) => Err(e),
                        Ok(expr) => Ok((ctx, name, args, expr)),
                    },
                },
            },
        }
    }
}

/// What a `let-mutable` lowers to.
#[verifier::opaque]
pub open spec fn let_mutable_of(b: Seq<u8>, t: Tree) -> Result<StatementModel, LowerError>
    decreases t, 1nat,
{
    if t.children.len() < 2 {
        Err(bad_shape(t))
    } else {
        match ranged_text_of(b, t.children[0]) {
            Err(e) => Err(e),
            Ok(var) => match ranged_expr_of(b, t.children[1]) {
                Err(e) => Err(e),
                Ok(expr) => Ok(StatementModel::LetMutable { var, expr }),
            },
        }
    }
}

/// What a module lowers to: the name of its first child and the
/// declarations in the body, which is the last child.
#[verifier::opaque]
pub open spec fn module_of(b: Seq<u8>, t: Tree) -> Result<StatementModel, LowerError>
    decreases t, 1nat,
{
    let last = t.children.len() - 1;
    if t.children.len() < 2 {
        Err(bad_shape(t))
    } else if t.children[last].rule != Rule::struct_stmt {
        Err(bad_shape(t.children[last]))
    } else {
        match ranged_text_of(b, t.children[0]) {
            Err(e) => Err(e),
            Ok(name) => if t.children[last].children.len() < 1 {
                Ok(StatementModel::Module { name, body: Seq::empty() })
            } else {
                match preamble_of(b, t.children[last].children[0]) {
                    Err(e) => Err(e),
                    Ok(body) => Ok(StatementModel::Module { name, body }),
                }
            },
        }
    }
}

/// What a declaration lowers to, by the node's rule.
#[verifier::opaque]
pub open spec fn statement_of(b: Seq<u8>, t: Tree) -> Result<StatementModel, LowerError>
    decreases t, 2nat,
{
    match t.rule {
        Rule::let_stmt => let_of(b, t),
        Rule::let_inline_stmt => match let_command_of(b, t) {
            Ok(c) => Ok(StatementModel::LetInline { ctx: c.0, name: c.1, args: c.2, expr: c.3 }),
            Err(e) => Err(e),
        },
        Rule::let_block_stmt => match let_command_of(b, t) {
            Ok(c) => Ok(StatementModel::LetBlock { ctx: c.0, name: c.1, args: c.2, expr: c.3 }),
            Err(e) => Err(e),
        },
        Rule::let_math_stmt => match let_command_of(b, t) {
            Ok(c) => Ok(StatementModel::LetMath { name: c.1, args: c.2, expr: c.3 }),
            Err(e) => Err(e),
        },
        Rule::let_mutable_stmt => let_mutable_of(b, t),
        Rule::module_stmt => module_of(b, t),
        _ => Err(bad_shape(t)),
    }
}

/// What a declaration lowers to, with the node's range.
#[verifier::opaque]
pub open spec fn ranged_statement_of(b: Seq<u8>, t: Tree) -> Result<
    Ranged<StatementModel>,
    LowerError,
>
    decreases t, 3nat,
{
    match statement_of(b, t) {
        Ok(v) => at_node(b, t, v),
        Err(e) => Err(e),
    }
}

/// What a preamble lowers to: the declarations of its children.
#[verifier::opaque]
pub open spec fn preamble_of(b: Seq<u8>, t: Tree) -> Result<
    Seq<Ranged<StatementModel>>,
    LowerError,
>
    decreases t, 1nat,
{
    collect(statement_results(b, t, 0, t.children.len() as int))
}

impl Statement {
    /// The kind of the declaration.
    pub open spec fn spec_kind(self) -> Stmt {
        match self {
            Statement::Let { .. } => Stmt::LetStmt,
            Statement::LetInline { .. } => Stmt::LetInlineStmt,
            Statement::LetBlock { .. } => Stmt::LetBlockStmt,
            Statement::LetMath { .. } => Stmt::LetMathStmt,
            Statement::LetMutable { .. } => Stmt::LetMutableStmt,
            Statement::Module { .. } => Stmt::ModuleStmt,
        }
    }

    /// The kind of the declaration.
    pub fn kind(&self) -> (k: Stmt)
        ensures
            k == self.spec_kind(),
    {
        match self {
            Statement::Let { .. } => Stmt::LetStmt,
            Statement::LetInline { .. } => Stmt::LetInlineStmt,
            Statement::LetBlock { .. } => Stmt::LetBlockStmt,
            Statement::LetMath { .. } => Stmt::LetMathStmt,
            Statement::LetMutable { .. } => Stmt::LetMutableStmt,
            Statement::Module { .. } => Stmt::ModuleStmt,
        }
    }
}

/// Lowers a parameter.
#[verifier::spinoff_prover]
pub fn lower_argument(text: &str, pair: &Pair) -> (r: Result<Argument, LowerError>)
    ensures
        r matches Ok(v) ==> gives(argument_of(text.spec_bytes(), pair@), v.model()),
        r matches Err(e) ==> fails(argument_of(text.spec_bytes(), pair@), e),
{
    proof {
        reveal(argument_of);
    }
    if pair.as_rule() == Rule::pattern {
        return match lower_pattern(text, pair) {
            Ok(p) => Ok(Argument::Pattern(p)),
            Err(e) => Err(e),
        };
    }
    if pair.as_rule() != Rule::arg || pair.child_count() < 1 {
        return Err(shape_error(pair));
    }
    let c = pair.child(0);
    if c.as_rule() == Rule::var_ptn {
        match node_text(text, c) {
            Ok(name) => Ok(Argument::Optional(Variable { name })),
            Err(e) => Err(e),
        }
    } else {
        match lower_pattern(text, c) {
            Ok(p) => Ok(Argument::Pattern(p)),
            Err(e) => Err(e),
        }
    }
}

/// Lowers a parameter and attaches its range.
#[verifier::spinoff_prover]
pub fn lower_ranged_argument(text: &str, pair: &Pair) -> (r: Result<Ranged<Argument>, LowerError>)
    ensures
        r matches Ok(v) ==> gives(
            ranged_argument_of(text.spec_bytes(), pair@),
            ranged(v, v.body.model()),
        ),
        r matches Err(e) ==> fails(ranged_argument_of(text.spec_bytes(), pair@), e),
{
    proof {
        reveal(ranged_argument_of);
    }
    match lower_argument(text, pair) {
        Ok(v) => wrap_node(v, text, pair),
        Err(e) => Err(e),
    }
}

/// Lowers a `let`.
#[verifier::spinoff_prover]
fn lower_let(text: &str, pair: &Pair) -> (r: Result<Statement, LowerError>)
    ensures
        r matches Ok(v) ==> gives(let_of(text.spec_bytes(), pair@), v.model()),
        r matches Err(e) ==> fails(let_of(text.spec_bytes(), pair@), e),
    decreases pair@, 1nat,
{
    proof {
        reveal(let_of);
    }
    let n = pair.child_count();
    if n < 2 {
        return Err(shape_error(pair));
    }
    let second = pair.child(1);
    let with_args = second.as_rule() == Rule::stmt_argument;
    if with_args && n < 3 {
        return Err(shape_error(pair));
    }
    let ptn = match lower_ranged_pattern(text, pair.child(0)) {
        Ok(v) => v,
        Err(e) => {
            return Err(e);
        },
    };
    if with_args {
        let args = match lower_arguments(text, second, 0, second.child_count()) {
            Ok(v) => v,
            Err(e) => {
                return Err(e);
            },
        };
        match lower_ranged_expr(text, pair.child(2)) {
            Ok(expr) => {
                proof {
                    assert(Statement::Let { ptn, args, expr }.model()->Let_args =~= argument_models(
                        args@,
                    ));
                }
                Ok(Statement::Let { ptn, args, expr })
            },
            Err(e) => Err(e),
        }
    } else {
        match lower_ranged_expr(text, second) {
            Ok(expr) => {
                let args: Vec<Ranged<Argument>> = Vec::new();
                proof {
                    assert(Statement::Let { ptn, args, expr }.model()->Let_args =~= Seq::<
                        Ranged<ArgumentModel>,
                    >::empty());
                }
                Ok(Statement::Let { ptn, args, expr })
            },
            Err(e) => Err(e),
        }
    }
}

/// Lowers the declaration of a command.
#[verifier::spinoff_prover]
fn lower_let_command(text: &str, pair: &Pair) -> (r: Result<
    (Option<Ranged<String>>, Ranged<String>, Vec<Ranged<Argument>>, Ranged<crate::ast::expr::Expr>),
    LowerError,
>)
    ensures
        r matches Ok(v) ==> gives(
            let_command_of(text.spec_bytes(), pair@),
            (
                optional_text(v.0),
                ranged_text(v.1),
                argument_models(v.2@),
                ranged(v.3, v.3.body.model()),
            ),
        ),
        r matches Err(e) ==> fails(let_command_of(text.spec_bytes(), pair@), e),
    decreases pair@, 1nat,
{
    proof {
        reveal(let_command_of);
    }
    let n = pair.child_count();
    let at: usize = if n > 0 && pair.child(0).as_rule() == Rule::var {
        1
    } else {
        0
    };
    if n < at + 2 {
        return Err(shape_error(pair));
    }
    let ctx = if at == 1 {
        match ranged_node_text(text, pair.child(0)) {
            Ok(v) => Some(v),
            Err(e) => {
                return Err(e);
            },
        }
    } else {
        None
    };
    let name = match ranged_node_text(text, pair.child(at)) {
        Ok(v) => v,
        Err(e) => {
            return Err(e);
        },
    };
    let args = match lower_arguments(text, pair, at + 1, n - 1) {
        Ok(v) => v,
        Err(e) => {
            return Err(e);
        },
    };
    match lower_ranged_expr(text, pair.child(n - 1)) {
        Ok(expr) => Ok((ctx, name, args, expr)),
        Err(e) => Err(e),
    }
}

/// The variable of a context, if there is one.
#[verifier::spinoff_prover]
fn into_context(ctx: Option<Ranged<String>>) -> (r: Option<Ranged<Variable>>)
    ensures
        match r {
            Some(v) => Some(crate::ast::pattern::ranged_variable(v)),
            None => None,
        } == optional_text(ctx),
{
    match ctx {
        Some(v) => Some(into_variable(v)),
        None => None,
    }
}

/// Lowers a `let-mutable`.
#[verifier::spinoff_prover]
fn lower_let_mutable(text: &str, pair: &Pair) -> (r: Result<Statement, LowerError>)
    ensures
        r matches Ok(v) ==> gives(let_mutable_of(text.spec_bytes(), pair@), v.model()),
        r matches Err(e) ==> fails(let_mutable_of(text.spec_bytes(), pair@), e),
    decreases pair@, 1nat,
{
    proof {
        reveal(let_mutable_of);
    }
    if pair.child_count() < 2 {
        return Err(shape_error(pair));
    }
    let var = match ranged_node_text(text, pair.child(0)) {
        Ok(v) => into_variable(v),
        Err(e) => {
            return Err(e);
        },
    };
    match lower_ranged_expr(text, pair.child(1)) {
        Ok(expr) => Ok(Statement::LetMutable { var, expr }),
        Err(e) => Err(e),
    }
}

/// Lowers a module.
#[verifier::spinoff_prover]
fn lower_module(text: &str, pair: &Pair) -> (r: Result<Statement, LowerError>)
    ensures
        r matches Ok(v) ==> gives(module_of(text.spec_bytes(), pair@), v.model()),
        r matches Err(e) ==> fails(module_of(text.spec_bytes(), pair@), e),
    decreases pair@, 1nat,
{
    proof {
        reveal(module_of);
    }
    let n = pair.child_count();
    if n < 2 {
        return Err(shape_error(pair));
    }
    let holder = pair.child(n - 1);
    if holder.as_rule() != Rule::struct_stmt {
        return Err(shape_error(holder));
    }
    let name = match ranged_node_text(text, pair.child(0)) {
        Ok(v) => v,
        Err(e) => {
            return Err(e);
        },
    };
    if holder.child_count() < 1 {
        let body: Vec<Ranged<Statement>> = Vec::new();
        proof {
            assert(Statement::Module { name, body }.model()->Module_body =~= Seq::<
                Ranged<StatementModel>,
            >::empty());
        }
        return Ok(Statement::Module { name, body });
    }
    match lower_preamble(text, holder.child(0)) {
        Ok(p) => {
            let body = p.0;
            proof {
                assert(Statement::Module { name, body }.model()->Module_body =~= statement_models(
                    body@,
                ));
                assert(p.model() =~= statement_models(body@));
            }
            Ok(Statement::Module { name, body })
        },
        Err(e) => Err(e),
    }
}

/// Lowers a declaration.
#[verifier::spinoff_prover]
pub fn lower_statement(text: &str, pair: &Pair) -> (r: Result<Statement, LowerError>)
    ensures
        r matches Ok(v) ==> gives(statement_of(text.spec_bytes(), pair@), v.model()),
        r matches Err(e) ==> fails(statement_of(text.spec_bytes(), pair@), e),
    decreases pair@, 2nat,
{
    proof {
        reveal(statement_of);
    }
    match pair.as_rule() {
        Rule::let_stmt => lower_let(text, pair),
        Rule::let_inline_stmt => match lower_let_command(text, pair) {
            Ok(c) => {
                let (ctx, name, args, expr) = c;
                let ctx = into_context(ctx);
                proof {
                    assert(Statement::LetInline { ctx, name, args, expr }.model()->LetInline_args
                        =~= argument_models(args@));
                }
                Ok(Statement::LetInline { ctx, name, args, expr })
            },
            Err(e) => Err(e),
        },
        Rule::let_block_stmt => match lower_let_command(text, pair) {
            Ok(c) => {
                let (ctx, name, args, expr) = c;
                let ctx = into_context(ctx);
                proof {
                    assert(Statement::LetBlock { ctx, name, args, expr }.model()->LetBlock_args
                        =~= argument_models(args@));
                }
                Ok(Statement::LetBlock { ctx, name, args, expr })
            },
            Err(e) => Err(e),
        },
        Rule::let_math_stmt => match lower_let_command(text, pair) {
            Ok(c) => {
                let (_, name, args, expr) = c;
                proof {
                    assert(Statement::LetMath { name, args, expr }.model()->LetMath_args
                        =~= argument_models(args@));
                }
                Ok(Statement::LetMath { name, args, expr })
            },
            Err(e) => Err(e),
        },
        Rule::let_mutable_stmt => lower_let_mutable(text, pair),
        Rule::module_stmt => lower_module(text, pair),
        _ => Err(shape_error(pair)),
    }
}

/// Lowers a declaration and attaches its range.
#[verifier::spinoff_prover]
pub fn lower_ranged_statement(text: &str, pair: &Pair) -> (r: Result<
    Ranged<Statement>,
    LowerError,
>)
    ensures
        r matches Ok(v) ==> gives(
            ranged_statement_of(text.spec_bytes(), pair@),
            ranged(v, v.body.model()),
        ),
        r matches Err(e) ==> fails(ranged_statement_of(text.spec_bytes(), pair@), e),
    decreases pair@, 3nat,
{
    proof {
        reveal(ranged_statement_of);
    }
    match lower_statement(text, pair) {
        Ok(v) => wrap_node(v, text, pair),
        Err(e) => Err(e),
    }
}

/// Lowers a preamble.
#[verifier::spinoff_prover]
pub fn lower_preamble(text: &str, pair: &Pair) -> (r: Result<Preamble, LowerError>)
    ensures
        r matches Ok(v) ==> gives(preamble_of(text.spec_bytes(), pair@), v.model()),
        r matches Err(e) ==> fails(preamble_of(text.spec_bytes(), pair@), e),
    decreases pair@, 1nat,
{
    proof {
        reveal(preamble_of);
    }
    match lower_statements(text, pair, 0, pair.child_count()) {
        Ok(items) => {
            proof {
                assert(Preamble(items).model() =~= statement_models(items@));
            }
            Ok(Preamble(items))
        },
        Err(e) => Err(e),
    }
}

} // verus!
