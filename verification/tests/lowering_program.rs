use satysfi_peg_parser::ast::content::Horizontal;
use satysfi_peg_parser::ast::content::HorizontalToken;
use satysfi_peg_parser::ast::content::Math;
use satysfi_peg_parser::ast::content::MathArg;
use satysfi_peg_parser::ast::content::MathGroup;
use satysfi_peg_parser::ast::content::MathUnary;
use satysfi_peg_parser::ast::content::Vertical;
use satysfi_peg_parser::ast::content::VerticalElement;
use satysfi_peg_parser::ast::expr::AppArg;
use satysfi_peg_parser::ast::expr::Application;
use satysfi_peg_parser::ast::expr::Expr;
use satysfi_peg_parser::ast::expr::Record;
use satysfi_peg_parser::ast::expr::Tuple;
use satysfi_peg_parser::ast::expr::Unary;
use satysfi_peg_parser::ast::header::Header;
use satysfi_peg_parser::ast::header::Program;
use satysfi_peg_parser::ast::header::Stage;
use satysfi_peg_parser::ast::literal::Literal;
use satysfi_peg_parser::ast::pattern::Pattern;
use satysfi_peg_parser::ast::statement::Argument;
use satysfi_peg_parser::ast::statement::Preamble;
use satysfi_peg_parser::ast::statement::Statement;
use satysfi_peg_parser::ast::statement::Stmt;
use satysfi_peg_parser::error::LowerError;
use satysfi_peg_parser::error::LowerErrorKind;
use satysfi_peg_parser::node::Error;
use satysfi_peg_parser::node::Grammar;
use satysfi_peg_parser::parser::ParseError;
use satysfi_peg_parser::parser::SatysfiParser;
use satysfi_peg_parser::position::Location;
use satysfi_peg_parser::position::Ranged;
use satysfi_peg_parser::position::Span;
use satysfi_peg_parser::rule::Rule;
use satysfi_peg_parser::tree::Pair;

fn assert_parsed<T: std::fmt::Debug + Grammar + PartialEq>(text: &str, expect: T) {
    let actual = T::parse(text).unwrap();
    assert_eq!(actual, expect);
}

fn assert_not_parsed<T: std::fmt::Debug + Grammar + PartialEq>(text: &str) {
    if SatysfiParser::parse(T::rule(), text).is_ok() {
        panic!("Text \"{}\" is successfully parsed by \"{:?}\" rule!", text, T::rule());
    }
}

fn ranged<T>(body: T, cols: (usize, usize)) -> Ranged<T> {
    Ranged {
        start: Location { row: 1, col: cols.0 },
        end: Location { row: 1, col: cols.1 },
        body,
    }
}

fn length_parts(e: &Ranged<Expr>) -> (f64, String) {
    match &e.body {
        Expr::Unary(u) => match &u.body {
            Unary::Literal(Literal::Length(l)) => {
                (l.value.body.text.parse().unwrap(), l.unit.body.clone())
            }
            other => panic!("not a length: {:?}", other),
        },
        other => panic!("not a unary: {:?}", other),
    }
}

fn int_of(e: &Ranged<Expr>) -> i32 {
    match &e.body {
        Expr::Unary(u) => match &u.body {
            Unary::Literal(Literal::Int(i)) => *i,
            other => panic!("not an integer: {:?}", other),
        },
        other => panic!("not a unary: {:?}", other),
    }
}

fn variable_of(e: &Ranged<Expr>) -> String {
    match &e.body {
        Expr::Unary(u) => match &u.body {
            Unary::Variable { modname: None, var } => var.body.name.clone(),
            other => panic!("not a variable: {:?}", other),
        },
        other => panic!("not a unary: {:?}", other),
    }
}

#[test]
fn parse_stage() {
    assert_parsed("@stage: 0\n", Stage::Stage0);
    assert_parsed("@stage:0\n", Stage::Stage0);
    assert_parsed("@stage: 1  \n", Stage::Stage1);
    assert_parsed("@stage: persistent\n", Stage::Persistent);
    assert_not_parsed::<Stage>("@stage: 2\n");
}

#[test]
fn test_stage() {
    assert_parsed("@stage: 0\n", Stage::Stage0);
    assert_parsed("@stage:0\n", Stage::Stage0);
    assert_parsed("@stage: 1  \n", Stage::Stage1);
    assert_parsed("@stage: persistent\n", Stage::Persistent);
    assert_not_parsed::<Stage>("@stage: 2\n");
}

#[test]
fn parse_header() {
    assert_parsed(
        "@require: code\n",
        Header::Require(ranged("code".to_string(), (11, 15))),
    );
    assert_parsed(
        "@require:code\n",
        Header::Require(ranged("code".to_string(), (10, 14))),
    );
    assert_parsed(
        "@require: base/ref\n",
        Header::Require(ranged("base/ref".to_string(), (11, 19))),
    );
    assert_parsed(
        "@require: $today\n",
        Header::Require(ranged("$today".to_string(), (11, 17))),
    );
    assert_parsed(
        "@import: hoge\n",
        Header::Import(ranged("hoge".to_string(), (10, 14))),
    );
    assert_parsed(
        "@import: ../../fuga\n",
        Header::Import(ranged("../../fuga".to_string(), (10, 20))),
    );
    assert_parsed(
        "@import: ../../fuga base\n",
        Header::Import(ranged("../../fuga base".to_string(), (10, 25))),
    );
    assert_not_parsed::<Header>("@require : base\n");
}

#[test]
fn test_header() {
    assert_parsed(
        "@require: code\n",
        Header::Require(ranged("code".to_string(), (11, 15))),
    );
    assert_parsed(
        "@require:code\n",
        Header::Require(ranged("code".to_string(), (10, 14))),
    );
    assert_parsed(
        "@require: base/ref\n",
        Header::Require(ranged("base/ref".to_string(), (11, 19))),
    );
    assert_parsed(
        "@require: $today\n",
        Header::Require(ranged("$today".to_string(), (11, 17))),
    );
    assert_parsed(
        "@import: hoge\n",
        Header::Import(ranged("hoge".to_string(), (10, 14))),
    );
    assert_parsed(
        "@import: ../../fuga\n",
        Header::Import(ranged("../../fuga".to_string(), (10, 20))),
    );
    assert_parsed(
        "@import: ../../fuga base\n",
        Header::Import(ranged("../../fuga base".to_string(), (10, 25))),
    );
    assert_not_parsed::<Header>("@require : base\n");
}

#[test]
fn test_tuple() {
    let Tuple(items) = Tuple::parse("(23, 34)").unwrap();
    assert_eq!(items.len(), 2);
    assert_eq!(int_of(&items[0]), 23);
    assert_eq!(int_of(&items[1]), 34);
    assert_eq!((items[0].start.col, items[0].end.col), (2, 4));
    assert_eq!((items[1].start.col, items[1].end.col), (6, 8));
}

#[test]
fn it_works() {
    let Vertical(elements) = Vertical::parse("+p{aaa}").unwrap();
    assert_eq!(elements.len(), 1);
    assert_eq!((elements[0].start, elements[0].end), (Location { row: 1, col: 1 }, Location { row: 1, col: 8 }));
    match &elements[0].body {
        VerticalElement::BlockCmd { name, args, opts } => {
            assert_eq!(name, &ranged("+p".to_owned(), (1, 3)));
            assert!(opts.is_empty());
            assert_eq!(args.len(), 1);
            match &args[0].body {
                Expr::Unary(u) => match &u.body {
                    Unary::HorizontalText(Horizontal::Single(single)) => {
                        assert_eq!(single.0.len(), 1);
                        assert_eq!(
                            single.0[0].body,
                            HorizontalToken::Text(ranged("aaa".to_owned(), (4, 7))),
                        );
                    }
                    other => panic!("not inline text: {:?}", other),
                },
                other => panic!("not a unary: {:?}", other),
            }
        }
        other => panic!("not a command: {:?}", other),
    }
}

#[test]
fn program_with_stage_and_header() {
    let text = "@stage: 0\n@require: hoge\nlet a = 1 in a";
    let program = Program::parse(text).unwrap();
    assert_eq!(program.stage.as_ref().map(|s| s.body), Some(Stage::Stage0));
    assert_eq!(program.header.len(), 1);
    assert_eq!(
        program.header[0].body,
        Header::Require(Ranged {
            body: "hoge".to_owned(),
            start: Location { row: 2, col: 11 },
            end: Location { row: 2, col: 15 },
        }),
    );
    assert!(program.preamble.is_none());
    assert_eq!(program.expr.start, Location { row: 3, col: 1 });
    assert_eq!(program.expr.end, Location { row: 3, col: 15 });
    match &program.expr.body {
        Expr::BindStmt { bind, body } => {
            assert_eq!(bind.body.kind(), Stmt::LetStmt);
            match &bind.body {
                Statement::Let { ptn, args, expr } => {
                    match &ptn.body {
                        Pattern::Variable(v) => assert_eq!(v.name, "a"),
                        other => panic!("not a variable: {:?}", other),
                    }
                    assert!(args.is_empty());
                    assert_eq!(int_of(expr), 1);
                }
                other => panic!("not a let: {:?}", other),
            }
            assert_eq!(variable_of(body), "a");
        }
        other => panic!("not a binding: {:?}", other),
    }
}

#[test]
fn program_with_preamble() {
    let program = Program::parse("let a = 1 let f x ?:y = 2 in a + b").unwrap();
    assert!(program.stage.is_none());
    assert!(program.header.is_empty());
    let Preamble(statements) = &program.preamble.as_ref().unwrap().body;
    assert_eq!(statements.len(), 2);
    match &statements[1].body {
        Statement::Let { args, .. } => {
            assert_eq!(args.len(), 2);
            assert!(matches!(&args[0].body, Argument::Pattern(Pattern::Variable(v)) if v.name == "x"));
            assert!(matches!(&args[1].body, Argument::Optional(v) if v.name == "y"));
        }
        other => panic!("not a let: {:?}", other),
    }
    match &program.expr.body {
        Expr::Dyadic { lhs, rhs, binop } => {
            assert_eq!(variable_of(lhs), "a");
            assert_eq!(variable_of(rhs), "b");
            assert_eq!(binop.body, "+");
        }
        other => panic!("not dyadic: {:?}", other),
    }
    assert_eq!(Program::parse("1").unwrap().preamble, None);
}

#[test]
fn malformed_header_is_a_syntax_error() {
    assert!(matches!(
        Header::parse("@require : base\n"),
        Err(Error::Syntax(ParseError::NoMatch { .. }))
    ));
    assert!(matches!(
        Program::parse("@require : base\n").unwrap_err(),
        Error::Syntax(ParseError::NoMatch { .. })
    ));
}

#[test]
fn vertical_command_without_arguments() {
    assert_parsed(
        "+par;",
        Vertical(vec![ranged(
            VerticalElement::BlockCmd {
                name: ranged("+par".to_owned(), (1, 5)),
                args: vec![],
                opts: vec![],
            },
            (1, 6),
        )]),
    );
    assert_parsed(
        "#Mod.x;",
        Vertical(vec![ranged(
            VerticalElement::BlockTextEmbedding {
                mod_name: Some(ranged("Mod".to_owned(), (2, 5))),
                name: ranged("x".to_owned(), (6, 7)),
            },
            (1, 8),
        )]),
    );
}

#[test]
fn command_arguments_and_options() {
    let Vertical(elements) = Vertical::parse("+ctx?:(1)?*(2)<+par;>{a}").unwrap();
    match &elements[0].body {
        VerticalElement::BlockCmd { opts, args, .. } => {
            assert_eq!(opts.len(), 2);
            assert!(opts[0].body.is_some());
            assert_eq!(opts[1].body, None);
            assert_eq!(args.len(), 3);
            assert!(matches!(&args[1].body, Expr::Unary(u) if matches!(u.body, Unary::BlockText(_))));
            assert!(matches!(&args[2].body, Expr::Unary(u) if matches!(u.body, Unary::HorizontalText(_))));
        }
        other => panic!("not a command: {:?}", other),
    }
}

#[test]
fn tuple_of_lengths() {
    let expr = Expr::parse("(1pt, 2pt)").unwrap();
    match expr {
        Expr::Unary(u) => match u.body {
            Unary::Tuple(Tuple(items)) => {
                assert_eq!(items.len(), 2);
                assert_eq!(length_parts(&items[0]), (1.0, "pt".to_owned()));
                assert_eq!(length_parts(&items[1]), (2.0, "pt".to_owned()));
            }
            other => panic!("not a tuple: {:?}", other),
        },
        other => panic!("not a unary: {:?}", other),
    }
}

#[test]
fn parentheses_are_no_tuple() {
    match Unary::parse("(1pt)").unwrap() {
        Unary::Expr { modname: None, expr } => assert_eq!(length_parts(&expr), (1.0, "pt".to_owned())),
        other => panic!("not an expression in parentheses: {:?}", other),
    }
    assert_eq!(Unary::parse("()").unwrap(), Unary::Literal(Literal::Unit));
    assert!(matches!(Tuple::parse("(1pt)"), Err(Error::Syntax(ParseError::NoMatch { .. }))));
    let lone = Pair {
        rule: Rule::tuple,
        start: 0,
        end: 5,
        children: vec![SatysfiParser::parse(Rule::expr, "(1pt)").unwrap()],
    };
    assert_eq!(
        Tuple::parse_pair("(1pt)", &lone),
        Err(LowerError { kind: LowerErrorKind::Shape, rule: Rule::tuple, start: 0, end: 5 }),
    );
}

#[test]
fn records() {
    assert_eq!(Record::parse("(||)").unwrap(), Record::Mapping(vec![]));
    match Record::parse("(| a = 1; b = 2pt |)").unwrap() {
        Record::Mapping(units) => {
            assert_eq!(units.len(), 2);
            assert_eq!(units[0].key, ranged("a".to_owned(), (4, 5)));
            assert_eq!(int_of(&units[0].val), 1);
            assert_eq!(units[1].key.body, "b");
        }
        other => panic!("not a plain record: {:?}", other),
    }
    match Record::parse("(| rec with a = 1 |)").unwrap() {
        Record::MapWithDefault { map, default } => {
            assert_eq!(map.len(), 1);
            assert!(matches!(&default.body, Unary::Variable { var, .. } if var.body.name == "rec"));
        }
        other => panic!("not a record with default: {:?}", other),
    }
    let text = "(| rec with a = 1 |)";
    let mut pair = SatysfiParser::parse(Rule::record, text).unwrap();
    pair.children[1].children.clear();
    let inner = (pair.children[1].start, pair.children[1].end);
    assert_eq!(
        Record::parse_pair(text, &pair),
        Err(LowerError { kind: LowerErrorKind::Shape, rule: Rule::record_inner, start: inner.0, end: inner.1 }),
    );
}

#[test]
fn applications() {
    match Application::parse("Mod.f ?:x ?* Some `s` y").unwrap() {
        Application::General { modname, var, args } => {
            assert_eq!(modname.unwrap().body, "Mod");
            assert_eq!(var.body.name, "f");
            assert_eq!(args.len(), 5);
            assert!(matches!(&args[0].body, AppArg::Optional(Unary::Variable { .. })));
            assert_eq!(args[1].body, AppArg::Omitted);
            assert!(matches!(&args[2].body, AppArg::Variant(v) if v.name == "Some"));
            assert_eq!(args[3].body, AppArg::Unary(Unary::Literal(Literal::String("s".to_owned()))));
        }
        other => panic!("not a general application: {:?}", other),
    }
    assert_eq!(
        Application::parse("command \\code").unwrap(),
        Application::Command(ranged("\\code".to_owned(), (9, 14))),
    );
}

#[test]
fn expressions_of_every_kind() {
    assert!(matches!(Expr::parse("match x with | 1 -> 2 | y when y > 1 -> 3").unwrap(), Expr::Match { arms, .. } if arms.len() == 2 && arms[0].body.when.is_none() && arms[1].body.when.is_some()));
    assert!(matches!(Expr::parse("while x do y").unwrap(), Expr::CtrlFlowWhile { .. }));
    assert!(matches!(Expr::parse("if x then y else z").unwrap(), Expr::CtrlFlowIf { .. }));
    assert!(matches!(Expr::parse("- x").unwrap(), Expr::UnaryOperatorExpr { unaryop, .. } if unaryop.body == "-"));
    assert!(matches!(Expr::parse("Some(x)").unwrap(), Expr::VariantConstructor { variant, args: Some(_) } if variant.body.name == "Some"));
    assert!(matches!(Expr::parse("None").unwrap(), Expr::VariantConstructor { args: None, .. }));
    assert!(matches!(Expr::parse("f x").unwrap(), Expr::Application(_)));
    assert!(matches!(Expr::parse("r#x").unwrap(), Expr::RecordMember { member, .. } if member.body.name == "x"));
    assert!(matches!(Expr::parse("(+)").unwrap(), Expr::Unary(u) if u.body == Unary::BinOperator("+".to_owned())));
    assert!(matches!(Expr::parse("Mod.(1)").unwrap(), Expr::Unary(u) if matches!(&u.body, Unary::Expr { modname: Some(m), .. } if m.body == "Mod")));
    assert!(matches!(Expr::parse("${a^2}").unwrap(), Expr::Unary(u) if matches!(&u.body, Unary::MathText(Math::Single(s)) if s.0.len() == 1 && s.0[0].body.sup.is_some())));
    assert!(matches!(Expr::parse("[1; 2; 3]").unwrap(), Expr::Unary(u) if matches!(&u.body, Unary::List(l) if l.0.len() == 3)));
    match Expr::parse("1 + 2 + 3").unwrap() {
        Expr::Dyadic { lhs, rhs, .. } => {
            assert_eq!(int_of(&lhs), 1);
            assert!(matches!(rhs.body, Expr::Dyadic { .. }));
        }
        other => panic!("not dyadic: {:?}", other),
    }
}

#[test]
fn patterns_of_every_kind() {
    assert_eq!(Pattern::parse("_").unwrap(), Pattern::Wildcard);
    assert_eq!(Pattern::parse("42").unwrap(), Pattern::Literal(Literal::Int(42)));
    assert!(matches!(Pattern::parse("x").unwrap(), Pattern::Variable(v) if v.name == "x"));
    assert!(matches!(Pattern::parse("[a; _]").unwrap(), Pattern::List(ps) if ps.len() == 2));
    assert!(matches!(Pattern::parse("(a, b, c)").unwrap(), Pattern::Tuple(ps) if ps.len() == 3));
    assert!(matches!(Pattern::parse("Some x").unwrap(), Pattern::Variant { name, arg: Some(_) } if name.body.name == "Some"));
    assert!(matches!(Pattern::parse("x :: rest").unwrap(), Pattern::Cons { .. }));
    assert!(matches!(Pattern::parse("[a] as b").unwrap(), Pattern::As { var, .. } if var.body.name == "b"));
    assert!(matches!(Pattern::parse("(x)").unwrap(), Pattern::Variable(v) if v.name == "x"));
}

#[test]
fn statements_of_every_kind() {
    assert_eq!(Statement::parse("let x = 1").unwrap().kind(), Stmt::LetStmt);
    let preamble = Preamble::parse(
        "let-inline ctx \\a x = y let-block +b = '<> let-math \\c = z let-mutable m <- 1 \
         module M = struct let q = 1 end",
    )
    .unwrap();
    let kinds: Vec<Stmt> = preamble.0.iter().map(|s| s.body.kind()).collect();
    assert_eq!(
        kinds,
        vec![Stmt::LetInlineStmt, Stmt::LetBlockStmt, Stmt::LetMathStmt, Stmt::LetMutableStmt, Stmt::ModuleStmt],
    );
    match &preamble.0[0].body {
        Statement::LetInline { ctx, name, args, .. } => {
            assert_eq!(ctx.as_ref().unwrap().body.name, "ctx");
            assert_eq!(name.body, "\\a");
            assert_eq!(args.len(), 1);
        }
        other => panic!("not let-inline: {:?}", other),
    }
    assert!(matches!(&preamble.0[1].body, Statement::LetBlock { ctx: None, .. }));
    assert!(matches!(&preamble.0[4].body, Statement::Module { name, body } if name.body == "M" && body.len() == 1));
}

#[test]
fn inline_text_of_every_kind() {
    match Horizontal::parse("a\\@#x;\\f(1);${b}`c`").unwrap() {
        Horizontal::Single(single) => {
            let tokens = &single.0;
            assert_eq!(tokens.len(), 6);
            assert!(matches!(&tokens[0].body, HorizontalToken::Text(t) if t.body == "a"));
            assert!(matches!(&tokens[1].body, HorizontalToken::SpecialChar(t) if t.body == "@"));
            assert!(matches!(&tokens[2].body, HorizontalToken::HorizontalTextEmbedding { name, .. } if name.body == "x"));
            assert!(matches!(&tokens[3].body, HorizontalToken::InlineCmd { name, args, .. } if name.body == "\\f" && args.len() == 1));
            assert!(matches!(&tokens[4].body, HorizontalToken::Math(m) if matches!(&m.body, Math::Single(s) if s.0.len() == 1)));
            assert!(matches!(&tokens[5].body, HorizontalToken::StringLiteral(s) if s.body == Literal::String("c".to_owned())));
        }
        other => panic!("not a single run: {:?}", other),
    }
    assert!(matches!(Horizontal::parse("|a|b|").unwrap(), Horizontal::List(runs) if runs.len() == 2));
    match Horizontal::parse("* a ** b").unwrap() {
        Horizontal::BulletList(items) => {
            assert_eq!(items.len(), 2);
            assert_eq!(items[0].body.indent, 1);
            assert_eq!(items[1].body.indent, 2);
        }
        other => panic!("not a bullet list: {:?}", other),
    }
}

#[test]
fn nodes_of_unexpected_form() {
    let text = "true";
    let stray = Pair { rule: Rule::headers, start: 0, end: 4, children: vec![] };
    let literal = Pair { rule: Rule::literal, start: 0, end: 4, children: vec![stray] };
    assert_eq!(
        Literal::parse_pair(text, &literal),
        Err(LowerError { kind: LowerErrorKind::Shape, rule: Rule::headers, start: 0, end: 4 }),
    );
    let empty = Pair { rule: Rule::literal, start: 0, end: 4, children: vec![] };
    assert_eq!(
        Literal::parse_pair(text, &empty),
        Err(LowerError { kind: LowerErrorKind::Shape, rule: Rule::literal, start: 0, end: 4 }),
    );
    let wrong = Pair { rule: Rule::bool_const, start: 0, end: 3, children: vec![] };
    assert_eq!(bool::parse_pair(text, &wrong).unwrap_err().kind, LowerErrorKind::Shape);
    let stage = Pair {
        rule: Rule::header_stage,
        start: 0,
        end: 4,
        children: vec![Pair { rule: Rule::stage, start: 0, end: 4, children: vec![] }],
    };
    assert_eq!(Stage::parse_pair(text, &stage).unwrap_err().rule, Rule::stage);
}

#[test]
fn ranges_outside_the_text() {
    let text = "あ";
    let inside = Pair { rule: Rule::var, start: 1, end: 3, children: vec![] };
    assert_eq!(
        Pattern::parse_pair_ranged(text, &inside),
        Err(LowerError { kind: LowerErrorKind::Span, rule: Rule::var, start: 1, end: 3 }),
    );
    let beyond = Pair { rule: Rule::pat_wildcard, start: 0, end: 9, children: vec![] };
    assert_eq!(Pattern::parse_pair(text, &beyond), Ok(Pattern::Wildcard));
    assert_eq!(Pattern::parse_pair_ranged(text, &beyond).unwrap_err().kind, LowerErrorKind::Span);
    let backwards = Span { input: text, start: 3, end: 0 };
    assert_eq!(Ranged::wrap((), &backwards), None);
    let whole = Span { input: text, start: 0, end: 3 };
    assert_eq!(
        Ranged::wrap(7, &whole),
        Some(Ranged { body: 7, start: Location { row: 1, col: 1 }, end: Location { row: 1, col: 2 } }),
    );
}

#[test]
fn locations_count_rows_and_characters() {
    let text = "a\r\nいう\nb";
    let at = |pos: usize| Ranged::wrap((), &Span { input: text, start: pos, end: pos }).unwrap().start;
    assert_eq!(at(0), Location { row: 1, col: 1 });
    assert_eq!(at(1), Location { row: 1, col: 2 });
    assert_eq!(at(2), Location { row: 1, col: 3 });
    assert_eq!(at(3), Location { row: 2, col: 1 });
    assert_eq!(at(6), Location { row: 2, col: 2 });
    assert_eq!(at(9), Location { row: 2, col: 3 });
    assert_eq!(at(10), Location { row: 3, col: 1 });
    assert_eq!(at(11), Location { row: 3, col: 2 });
    assert!(Location { row: 1, col: 9 }.precedes(&Location { row: 2, col: 1 }));
    assert!(!Location { row: 2, col: 2 }.precedes(&Location { row: 2, col: 1 }));
}

#[test]
fn nesting_has_a_limit() {
    let deep = format!("{}{}", "+a<".repeat(150), ">".repeat(150));
    assert_eq!(SatysfiParser::parse(Rule::vertical_mode, &deep), Err(ParseError::TooDeep));
    let shallow = format!("{}{}", "+a<".repeat(20), ">".repeat(20));
    let pair = SatysfiParser::parse(Rule::vertical_mode, &shallow).unwrap();
    assert_eq!((pair.start, pair.end), (0, shallow.len()));
    assert!(Vertical::parse_pair(&shallow, &pair).is_ok());
}

#[test]
fn parsing_twice_gives_the_same() {
    let text = "let hoge = `` a` `` in f hoge 0x1F 2.5pt";
    assert_eq!(SatysfiParser::parse(Rule::expr, text), SatysfiParser::parse(Rule::expr, text));
    assert_eq!(Expr::parse(text), Expr::parse(text));
    let parser = SatysfiParser::new();
    assert_eq!(parser.recognise(Rule::expr, text), SatysfiParser::parse(Rule::expr, text));
}

#[test]
fn children_lie_inside_their_parents() {
    fn check(pair: &Pair, len: usize) {
        assert!(pair.start <= pair.end && pair.end <= len);
        let mut at = pair.start;
        for child in &pair.children {
            assert!(at <= child.start && child.end <= pair.end);
            at = child.end;
            check(child, len);
        }
    }
    let text = "@stage: 1\n@import: a\nlet f x = (| a = [1; 2] |) in '< +p{ b \\c(f 1); } >";
    let pair = SatysfiParser::parse(Rule::program, text).unwrap();
    check(&pair, text.len());
    let program = Program::parse(text).unwrap();
    assert!(program.expr.start.precedes(&program.expr.end));
    assert!(program.header[0].start.precedes(&program.header[0].end));
}

#[test]
fn math_text_of_every_kind() {
    match Math::parse("x^2_{i j} := \\frac?:{a}{b}!(1pt) \\{").unwrap() {
        Math::Single(single) => {
            let tokens = &single.0;
            assert_eq!(tokens.len(), 4);
            assert_eq!(tokens[0].body.base, ranged(MathUnary::Char("x".to_owned()), (1, 2)));
            match &tokens[0].body.sup {
                Some(g) => assert_eq!(g.body, MathGroup::Unary(MathUnary::Char("2".to_owned()))),
                None => panic!("nothing above"),
            }
            match &tokens[0].body.sub {
                Some(g) => assert!(matches!(&g.body, MathGroup::Single(s) if s.0.len() == 2)),
                None => panic!("nothing below"),
            }
            assert_eq!(tokens[1].body.base.body, MathUnary::Symbol(":=".to_owned()));
            match &tokens[2].body.base.body {
                MathUnary::Cmd { name, args, opts } => {
                    assert_eq!(name.body, "\\frac");
                    assert_eq!(opts.len(), 1);
                    assert!(matches!(&opts[0].body, MathArg::Math(_)));
                    assert_eq!(args.len(), 2);
                    assert!(matches!(&args[0].body, MathArg::Math(Math::Single(s)) if s.0.len() == 1));
                    assert!(matches!(&args[1].body, MathArg::Expr(Unary::Expr { .. })));
                }
                other => panic!("not a command: {:?}", other),
            }
            assert_eq!(tokens[3].body.base.body, MathUnary::SpecialChar("{".to_owned()));
        }
        other => panic!("not a single run: {:?}", other),
    }
    assert!(matches!(Math::parse("|a|b c|").unwrap(), Math::List(runs) if runs.len() == 2 && runs[1].body.0.len() == 2));
    assert!(matches!(Math::parse("\\x!{a}!<+p;>").unwrap(), Math::Single(s) if matches!(&s.0[0].body.base.body, MathUnary::Cmd { args, .. } if matches!(&args[0].body, MathArg::Horizontal(_)) && matches!(&args[1].body, MathArg::Vertical(_)))));
}

#[test]
fn parts_lie_inside_what_holds_them() {
    fn inside<T, U>(inner: &Ranged<T>, outer: &Ranged<U>) -> bool {
        outer.start.precedes(&inner.start) && inner.start.precedes(&inner.end) && inner.end.precedes(&outer.end)
    }
    fn check(e: &Ranged<Expr>) {
        match &e.body {
            Expr::Dyadic { lhs, rhs, binop } => {
                assert!(inside(lhs, e) && inside(rhs, e) && inside(binop, e));
                check(lhs);
                check(rhs);
            }
            Expr::BindStmt { bind, body } => {
                assert!(inside(bind, e) && inside(body, e));
                check(body);
            }
            Expr::Unary(u) => {
                assert!(inside(u, e));
                if let Unary::Tuple(Tuple(items)) = &u.body {
                    for item in items {
                        assert!(inside(item, u));
                        check(item);
                    }
                }
            }
            _ => {}
        }
    }
    let text = "let a =\n  1 in\n(a + 2,\n  a + (3, 4) + 5)";
    let program = Program::parse(text).unwrap();
    check(&program.expr);
    assert_eq!(program.expr.start, Location { row: 1, col: 1 });
    assert_eq!(program.expr.end, Location { row: 4, col: 18 });
}

#[test]
fn syntax_errors_say_where_and_what() {
    match SatysfiParser::parse(Rule::header_stage, "@stage: 2\n") {
        Err(ParseError::NoMatch { pos, expected }) => {
            assert_eq!(pos, 8);
            assert_eq!(expected, vec![Rule::stage]);
        }
        other => panic!("no syntax error: {:?}", other),
    }
    let text = "let a = 1 in";
    match Program::parse(text) {
        Err(Error::Syntax(ParseError::NoMatch { pos, expected })) => {
            assert_eq!(pos, text.len());
            assert!(expected.contains(&Rule::expr));
            assert!(expected.contains(&Rule::unary));
            let mut once = expected.clone();
            once.sort_by_key(|r| format!("{:?}", r));
            once.dedup();
            assert_eq!(once.len(), expected.len());
        }
        other => panic!("no syntax error: {:?}", other),
    }
    match SatysfiParser::parse(Rule::literal, "") {
        Err(ParseError::NoMatch { pos, expected }) => {
            assert_eq!(pos, 0);
            assert_eq!(expected.last(), Some(&Rule::literal));
        }
        other => panic!("no syntax error: {:?}", other),
    }
    match SatysfiParser::parse(Rule::var, "let") {
        Err(ParseError::NoMatch { pos, expected }) => {
            assert_eq!(pos, 0);
            assert_eq!(expected, vec![Rule::var]);
        }
        other => panic!("no syntax error: {:?}", other),
    }
}

#[test]
fn nested_expressions_are_matched_once() {
    let depth = 60;
    let text = format!("{}1, 2{}", "(".repeat(depth), ")".repeat(depth));
    let mut expr = Expr::parse(&text).unwrap();
    let mut levels = 0;
    loop {
        expr = match expr {
            Expr::Unary(u) => match u.body {
                Unary::Expr { expr, .. } => {
                    levels += 1;
                    expr.body
                }
                Unary::Tuple(Tuple(items)) => {
                    assert_eq!(items.len(), 2);
                    break;
                }
                other => panic!("neither parentheses nor a tuple: {:?}", other),
            },
            other => panic!("not a unary: {:?}", other),
        };
    }
    assert_eq!(levels, depth - 1);
    let calls = format!("{}x{}", "f (g ".repeat(30), ")".repeat(30));
    assert!(matches!(Expr::parse(&calls).unwrap(), Expr::Application(_)));
    let sums = format!("{}1", "(r#a + ".repeat(30)) + &")".repeat(30);
    assert!(matches!(Expr::parse(&sums), Ok(Expr::Unary(_))));
}

#[test]
fn expression_in_an_expression_is_no_expression() {
    let text = "()";
    let inner = SatysfiParser::parse(Rule::expr, text).unwrap();
    assert_eq!(Expr::parse_pair(text, &inner), Ok(Expr::parse(text).unwrap()));
    let outer = Pair { rule: Rule::expr, start: 0, end: 2, children: vec![inner] };
    assert_eq!(
        Expr::parse_pair(text, &outer),
        Err(LowerError { kind: LowerErrorKind::Shape, rule: Rule::expr, start: 0, end: 2 }),
    );
    let stray = Pair {
        rule: Rule::expr,
        start: 0,
        end: 2,
        children: vec![Pair { rule: Rule::headers, start: 0, end: 2, children: vec![] }],
    };
    assert_eq!(Expr::parse_pair(text, &stray).unwrap_err().rule, Rule::headers);
}
