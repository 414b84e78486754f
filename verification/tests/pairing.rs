use satysfi_peg_parser::ast::expr::Application;
use satysfi_peg_parser::ast::literal::Decimal;
use satysfi_peg_parser::ast::expr::Expr;
use satysfi_peg_parser::ast::header::Header;
use satysfi_peg_parser::ast::content::Horizontal;
use satysfi_peg_parser::ast::content::HorizontalSingle;
use satysfi_peg_parser::ast::content::HorizontalToken;
use satysfi_peg_parser::ast::literal::Length;
use satysfi_peg_parser::ast::expr::List;
use satysfi_peg_parser::ast::literal::Literal;
use satysfi_peg_parser::ast::expr::MatchArm;
use satysfi_peg_parser::ast::content::Math;
use satysfi_peg_parser::ast::content::MathSingle;
use satysfi_peg_parser::ast::content::MathToken;
use satysfi_peg_parser::ast::pattern::Pattern;
use satysfi_peg_parser::ast::statement::Preamble;
use satysfi_peg_parser::ast::header::Program;
use satysfi_peg_parser::ast::expr::Record;
use satysfi_peg_parser::ast::expr::RecordUnit;
use satysfi_peg_parser::ast::header::Stage;
use satysfi_peg_parser::ast::statement::Statement;
use satysfi_peg_parser::ast::expr::Tuple;
use satysfi_peg_parser::ast::expr::Unary;
use satysfi_peg_parser::ast::content::Vertical;
use satysfi_peg_parser::node::Grammar;
use satysfi_peg_parser::parser::SatysfiParser;
use satysfi_peg_parser::rule::Rule;

fn lowers<T: Grammar + std::fmt::Debug>(rule: Rule, texts: &[&str]) {
    for text in texts {
        let pair = SatysfiParser::parse(rule, text).unwrap();
        assert_eq!((pair.start, pair.end), (0, text.len()), "{:?} on {:?}", rule, text);
        if let Err(e) = T::parse_pair(text, &pair) {
            panic!("{:?} on {:?} does not lower: {:?}", rule, text, e);
        }
        if let Err(e) = T::parse_pair_ranged(text, &pair) {
            panic!("{:?} on {:?} has no range: {:?}", rule, text, e);
        }
    }
}

#[test]
fn what_matches_lowers_to_expr() {
    lowers::<Expr>(
        Rule::expr,
        &[
            "let hoge =\n              let fuga = {aaa} in\n              read-block ctx '<\n                +p{\n                  あああ\\ctx(set-font-size (12pt +' 3pt)){いいい} #fuga;\n                }\n              >\n            in\n            hoge +++ block-nil",
            "let hoge = 1pt in 1pt",
            "1pt +' 3cm",
            "read-inline ctx it",
            "inline-nil",
            "let hoge = 1pt in hoge +' fuga",
            "math-char MathOrd `α`",
        ],
    );
    lowers::<Expr>(
        Rule::dyadic_expr,
        &[
            "1pt +' 2pt",
            "`a` ^ `b`",
            "`a` ^ `b` ^ `c`",
            "a ^ b",
            "mira ^ #`` `fuga` `` ^ kimyo",
        ],
    );
    lowers::<Expr>(
        Rule::unary_operator_expr,
        &[
            "-2.0pt",
            "-2",
            "-2.5",
            "not true",
            "not (x > y)",
        ],
    );
    lowers::<Expr>(
        Rule::variant_constructor,
        &[
            "Variant",
            "Variant 1",
            "Variant(1)",
            "Variant(1, x)",
            "Variant (1, x)",
        ],
    );
    lowers::<Expr>(
        Rule::application,
        &[
            "set-font-size 12pt",
            "read-inline ctx it",
            "math-char MathOrd `α`",
            "hoge ?:fuga",
            "hoge ?*",
            "hoge ?* ?:fuga",
            "command \\code",
        ],
    );
    lowers::<Expr>(
        Rule::record_member,
        &[
            "hoge#fuga",
            "hoge # fuga",
            "(hoge fuga)#fuga",
        ],
    );
    lowers::<Expr>(
        Rule::match_expr,
        &[
            "match x with 1 -> 2",
            "match x with\n            | 1 -> 2",
            "match x with\n            | 1 -> 2\n            | 2 -> 4\n            | _ -> 0",
        ],
    );
    lowers::<Expr>(
        Rule::ctrl_while,
        &[
            "while x > 2 do loop",
        ],
    );
    lowers::<Expr>(
        Rule::ctrl_if,
        &[
            "if x > 2 then x else 2",
            "if let y = 1 in x > y then x else 2",
        ],
    );
    lowers::<Expr>(
        Rule::unary,
        &[
            "'< +par; >",
            "{あああ}",
            "{* あああ}",
            "{* あああ \\textbf{いいい} \\ctx(set-font-size 12pt){ううう}}",
            "(|hoge = 1pt|)",
            "[hoge;]",
            "(1pt, `hoge`)",
            "(let x = 3 in x + 4)",
            "(+)",
            "( + )",
            "inline-nil",
            "Mod.text",
            "Mod.(let x = 3 in x + 4)",
            "`constant`",
        ],
    );
}

#[test]
fn what_matches_lowers_to_unary() {
    lowers::<Unary>(
        Rule::unary,
        &[
            "'< +par; >",
            "{あああ}",
            "{* あああ}",
            "{* あああ \\textbf{いいい} \\ctx(set-font-size 12pt){ううう}}",
            "(|hoge = 1pt|)",
            "[hoge;]",
            "(1pt, `hoge`)",
            "(let x = 3 in x + 4)",
            "(+)",
            "( + )",
            "inline-nil",
            "Mod.text",
            "Mod.(let x = 3 in x + 4)",
            "`constant`",
        ],
    );
}

#[test]
fn what_matches_lowers_to_record() {
    lowers::<Record>(
        Rule::record,
        &[
            "(||)",
            "(| |)",
            "(| a = 1 |)",
            "(| a = 1; b = 2pt |)",
            "(| a = 1; b = 2pt; |)",
            "(| a = 1; b = 2pt; c = 3pt |)",
            "(|a=1;b=2pt;c=3pt|)",
            "(| rec with a = 1 |)",
            "(| rec with a = 1; b = 2pt; c = 3pt |)",
        ],
    );
}

#[test]
fn what_matches_lowers_to_record_unit() {
    lowers::<RecordUnit>(
        Rule::record_unit,
        &[
            "hoge = 1pt",
            "hoge = let x = 1 in x + 2",
            "hoge = 2pt + 3cm",
        ],
    );
}

#[test]
fn what_matches_lowers_to_list() {
    lowers::<List>(
        Rule::list,
        &[
            "[]",
            "[ ]",
            "[1]",
            "[ 1 ]",
            "[1;]",
            "[1; 2]",
            "[1; 2;]",
            "[1; 2; 3]",
            "[hoge fuga]",
            "[hoge fuga;]",
            "[hoge; piyo]",
            "[hoge; piyo;]",
        ],
    );
}

#[test]
fn what_matches_lowers_to_tuple() {
    lowers::<Tuple>(
        Rule::tuple,
        &[
            "(1pt, 2pt)",
            "(1pt, let x = 1 in x + 2)",
        ],
    );
}

#[test]
fn what_matches_lowers_to_application() {
    lowers::<Application>(
        Rule::application,
        &[
            "set-font-size 12pt",
            "read-inline ctx it",
            "math-char MathOrd `α`",
            "hoge ?:fuga",
            "hoge ?*",
            "hoge ?* ?:fuga",
            "command \\code",
        ],
    );
}

#[test]
fn what_matches_lowers_to_match_arm() {
    lowers::<MatchArm>(
        Rule::match_arm,
        &[
            "_ -> 0",
            "x -> let y = 2 + 1 in x + y",
            "x when x > 3 -> let y = 2 + 1 in x + y",
        ],
    );
}

#[test]
fn what_matches_lowers_to_pattern() {
    lowers::<Pattern>(
        Rule::pattern,
        &[
            "[hoge; fuga]",
            "(hoge)",
            "_",
            "hoge",
            "42",
        ],
    );
    lowers::<Pattern>(
        Rule::match_ptn,
        &[
            "[a1; a2] as a",
            "x :: rest",
            "x :: [x2; x3]",
        ],
    );
    lowers::<Pattern>(
        Rule::pat_list,
        &[
            "[]",
            "[1]",
            "[1;]",
            "[1; 2]",
            "[1; 2;]",
            "[hoge; _; 3]",
        ],
    );
    lowers::<Pattern>(
        Rule::pat_tuple,
        &[
            "(x, y)",
            "(_, y)",
            "(_, y, 1)",
        ],
    );
    lowers::<Pattern>(
        Rule::pat_variant,
        &[
            "Variant",
            "Variant x",
            "Variant(x)",
            "Variant (x)",
            "Variant(x, y)",
        ],
    );
}

#[test]
fn what_matches_lowers_to_statement() {
    lowers::<Statement>(
        Rule::let_stmt,
        &[
            "let hoge = 1",
            "let hoge = fuga",
            "let hoge = let fuga = 2 in 1 + fuga",
            "let hoge = let fuga = 2 in let piyo = 3 in fuga + piyo",
        ],
    );
    lowers::<Statement>(
        Rule::let_inline_stmt,
        &[
            "let-inline \\ctx={}",
            "let-inline \\ctx = {}",
            "let-inline \\ctx arg = {}",
            "let-inline \\ctx arg1 arg2 = {}",
            "let-inline ctx \\ctx = inline-fil",
            "let-inline ctx \\ctx arg = inline-fil",
            "let-inline ctx \\ctx arg1 arg2 = inline-fil",
            "let-inline ctx \\ctx ?:arg1 arg2 = inline-fil",
        ],
    );
    lowers::<Statement>(
        Rule::let_block_stmt,
        &[
            "let-block +p='<>",
            "let-block +p = '<>",
            "let-block +p arg = '<>",
            "let-block +p arg1 arg2 = '<>",
            "let-block ctx +p = block-nil",
            "let-block ctx +p arg = block-nil",
            "let-block ctx +p arg1 arg2 = block-nil",
            "let-block ctx +p ?:arg1 arg2 = block-nil",
        ],
    );
    lowers::<Statement>(
        Rule::let_math_stmt,
        &[
            "let-math \\alpha = math-char MathOrd `α`",
        ],
    );
    lowers::<Statement>(
        Rule::let_mutable_stmt,
        &[
            "let-mutable x <- 1",
            "let-mutable x <- embed-string `hoge`",
        ],
    );
    lowers::<Statement>(
        Rule::module_stmt,
        &[
            "module Color : sig\n              val gray   : float -> color\n              val rgb    : float -> float -> float -> color\n              val black  : color\n            end = struct\n              let gray x = Gray(x)\n              let rgb r g b = RGB(r, g, b)\n              let black  = gray 0.\n              let white  = gray 1.\n            end",
        ],
    );
}

#[test]
fn what_matches_lowers_to_preamble() {
    lowers::<Preamble>(
        Rule::preamble,
        &[
            "let hoge = `a` let fuga = 2",
            "let hoge = 1 let fuga = 2",
            "let hoge = a let fuga = 2",
        ],
    );
}

#[test]
fn what_matches_lowers_to_program() {
    lowers::<Program>(
        Rule::program,
        &[
            "let a = 1 in 1",
            "1",
            "let a = 1 let b = 2 in a + b",
            "let a = 1 in let b = 2 in a + b",
            "let a = let b = 2 in a + b in a",
        ],
    );
}

#[test]
fn what_matches_lowers_to_vertical() {
    lowers::<Vertical>(
        Rule::vertical_mode,
        &[
            "+par;",
            "+par; +p(hoge);",
            "#par; +p(hoge);",
        ],
    );
}

#[test]
fn what_matches_lowers_to_horizontal() {
    lowers::<Horizontal>(
        Rule::horizontal_mode,
        &[
            "hoge",
            "|hoge|",
            "*hoge",
        ],
    );
}

#[test]
fn what_matches_lowers_to_horizontal_single() {
    lowers::<HorizontalSingle>(
        Rule::horizontal_single,
        &[
            "",
            "hoge",
            "hoge\\textbf();fuga",
            "hoge`code`fuga",
            "hoge `code` fuga",
            "hoge % comment\n fuga",
            "hoge \\ctx(set-font-size 12pt){fuga} piyo",
        ],
    );
}

#[test]
fn what_matches_lowers_to_horizontal_token() {
    lowers::<HorizontalToken>(
        Rule::horizontal_token,
        &[
            "`a`",
            "\\textbf;",
            "\\textbf();",
            "\\textbf<>",
            "\\ctx(set-font-size 12pt){fuga}",
            "#text;",
            "\\$",
            "aaa",
            "aaa: bbb",
            "„ÅÇ„ÅÑ „ÅÜ„Åà„Åä",
            "ü§îü§îü§î",
        ],
    );
}

#[test]
fn what_matches_lowers_to_literal() {
    lowers::<Literal>(
        Rule::literal,
        &[
            "(  )",
            "true",
            "#` hoge`",
            "2.3pt",
            "2.3",
            "2",
        ],
    );
}

#[test]
fn what_matches_lowers_to_length() {
    lowers::<Length>(
        Rule::length_const,
        &[
            "0pt",
            "0cm",
            "0aa",
            "12pt",
            "12.3pt",
            ".3pt",
            ".3pt2",
        ],
    );
}

#[test]
fn what_matches_lowers_to_bool() {
    lowers::<bool>(
        Rule::bool_const,
        &[
            "true",
            "false",
        ],
    );
}

#[test]
fn what_matches_lowers_to_i32() {
    lowers::<i32>(
        Rule::int_const,
        &[
            "123",
            "0x2f1f",
            "0x2F1F",
        ],
    );
}

#[test]
fn what_matches_lowers_to_decimal() {
    lowers::<Decimal>(
        Rule::float_const,
        &[
            "123.56",
            ".56",
            "123.",
        ],
    );
}

#[test]
fn what_matches_lowers_to_math() {
    lowers::<Math>(
        Rule::math_mode,
        &[
            "abc",
            "|abc|",
            "||",
            "|abc|def|",
        ],
    );
}

#[test]
fn what_matches_lowers_to_math_single() {
    lowers::<MathSingle>(
        Rule::math_single,
        &[
            "a",
            "\\alpha",
            "\\alpha\\beta",
            "\\alpha \\beta",
            "x = \\frac{-b \\pm \\sqrt{b^2 - 4ac}}{2a}",
        ],
    );
}

#[test]
fn what_matches_lowers_to_math_token() {
    lowers::<MathToken>(
        Rule::math_token,
        &[
            "a",
            "a^b",
            "a_b",
            "a^b_c",
            "a^{b\\alpha}",
        ],
    );
}

#[test]
fn what_matches_lowers_to_stage() {
    lowers::<Stage>(
        Rule::header_stage,
        &[
            "@stage: 0\n",
            "@stage: 1\n",
            "@stage: persistent\n",
            "@stage:0\n",
            "@stage:   0\n",
        ],
    );
}

#[test]
fn what_matches_lowers_to_header() {
    lowers::<Header>(
        Rule::header,
        &[
            "@require: hoge\n",
            "@require:    hoge\n",
            "@import: hoge/fuga\n",
            "@import: hoge fuga\n",
        ],
    );
}
