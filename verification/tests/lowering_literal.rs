use satysfi_peg_parser::ast::literal::Decimal;
use satysfi_peg_parser::ast::literal::Length;
use satysfi_peg_parser::ast::literal::Literal;
use satysfi_peg_parser::error::LowerErrorKind;
use satysfi_peg_parser::node::Error;
use satysfi_peg_parser::node::Grammar;
use satysfi_peg_parser::parser::ParseError;
use satysfi_peg_parser::parser::SatysfiParser;
use satysfi_peg_parser::position::Location;
use satysfi_peg_parser::position::Ranged;
use satysfi_peg_parser::rule::Rule;

fn assert_parsed<T: std::fmt::Debug + Grammar + PartialEq>(text: &str, expect: T) {
    let actual = T::parse(text).unwrap();
    assert_eq!(actual, expect);
}

fn assert_not_parsed<T: std::fmt::Debug + Grammar + PartialEq>(text: &str) {
    if SatysfiParser::parse(T::rule(), text).is_ok() {
        panic!("Text \"{}\" is successfully parsed by \"{:?}\" rule!", text, T::rule());
    }
}

fn ranged<T>(body: T, cols: (usize, usize)) -> Ranged<T> {
    Ranged {
        start: Location { row: 1, col: cols.0 },
        end: Location { row: 1, col: cols.1 },
        body,
    }
}

fn ranged_rows<T>(body: T, rows: (usize, usize), cols: (usize, usize)) -> Ranged<T> {
    Ranged {
        start: Location { row: rows.0, col: cols.0 },
        end: Location { row: rows.1, col: cols.1 },
        body,
    }
}

fn float_of(lit: &Literal) -> f64 {
    match lit {
        Literal::Float(d) => d.text.parse().unwrap(),
        other => panic!("not a float: {:?}", other),
    }
}

fn assert_float(text: &str, expect: f64) {
    assert_eq!(float_of(&Literal::parse(text).unwrap()), expect);
}

fn assert_length(text: &str, value: Ranged<f64>, unit: Ranged<String>) {
    match Literal::parse(text).unwrap() {
        Literal::Length(Length { value: v, unit: u }) => {
            let number: f64 = v.body.text.parse().unwrap();
            assert_eq!(number, value.body);
            assert_eq!((v.start, v.end), (value.start, value.end));
            assert_eq!(u, unit);
        }
        other => panic!("not a length: {:?}", other),
    }
}

fn ranged_literal(text: &str) -> Ranged<Literal> {
    let pair = SatysfiParser::parse(Rule::literal, text).unwrap();
    Literal::parse_pair_ranged(text, &pair).unwrap()
}

#[test]
fn tests_parse_literal() {
    assert_parsed("()", Literal::Unit);
    assert_parsed("(  )", Literal::Unit);

    assert_parsed("true", Literal::Bool(true));
    assert_parsed("false", Literal::Bool(false));
    assert_not_parsed::<Literal>("True");
    assert_not_parsed::<Literal>("TRUE");

    assert_parsed("123", Literal::Int(123));
    assert_parsed("0x123", Literal::Int(0x123));
    assert_parsed("0x2f1f", Literal::Int(0x2f1f));
    assert_parsed("0x2F1F", Literal::Int(0x2f1f));

    assert_float("123.56", 123.56);
    assert_float(".56", 0.56);
    assert_float("123.", 123.0);

    assert_length("0pt", ranged(0.0, (1, 2)), ranged("pt".to_owned(), (2, 4)));
    assert_length("0cm", ranged(0.0, (1, 2)), ranged("cm".to_owned(), (2, 4)));
    assert_length("0aa", ranged(0.0, (1, 2)), ranged("aa".to_owned(), (2, 4)));
    assert_length("12pt", ranged(12.0, (1, 3)), ranged("pt".to_owned(), (3, 5)));
    assert_length("12.3pt", ranged(12.3, (1, 5)), ranged("pt".to_owned(), (5, 7)));
    assert_length("12.pt", ranged(12.0, (1, 4)), ranged("pt".to_owned(), (4, 6)));
    assert_length(".3pt", ranged(0.3, (1, 3)), ranged("pt".to_owned(), (3, 5)));
    assert_length(".3pt2", ranged(0.3, (1, 3)), ranged("pt2".to_owned(), (3, 6)));

    assert_parsed("` `", Literal::String("".to_owned()));
    assert_parsed("`a`", Literal::String("a".to_owned()));
    assert_parsed("`` a` ``", Literal::String("a`".to_owned()));
    assert_parsed("`` hoge`fuga ``", Literal::String("hoge`fuga".to_owned()));
    assert_parsed("`` hogefuga ``", Literal::String("hogefuga".to_owned()));
    assert_parsed("#`` hoge`fuga ``", Literal::String(" hoge`fuga".to_owned()));
    assert_parsed(
        "#`` hoge`fuga ``#",
        Literal::String(" hoge`fuga ".to_owned()),
    );
    assert_parsed(
        "#```` hoge```fuga ````#",
        Literal::String(" hoge```fuga ".to_owned()),
    );
    assert_parsed("` hoge % fuga `", Literal::String("hoge % fuga".to_owned()));
    assert_parsed("` hoge\nfuga `", Literal::String("hoge\nfuga".to_owned()));
    assert_not_parsed::<Literal>("``");
}

#[test]
fn literal_parse_literal() {
    assert_eq!(ranged_literal("()"), ranged(Literal::Unit, (1, 3)));
    assert_eq!(ranged_literal("(  )"), ranged(Literal::Unit, (1, 5)));

    assert_eq!(ranged_literal("true"), ranged(Literal::Bool(true), (1, 5)));
    assert_eq!(ranged_literal("false"), ranged(Literal::Bool(false), (1, 6)));

    assert_eq!(ranged_literal("123"), ranged(Literal::Int(123), (1, 4)));
    assert_eq!(ranged_literal("0x2f1f"), ranged(Literal::Int(0x2f1f), (1, 7)));
    assert_eq!(ranged_literal("0x2F1F"), ranged(Literal::Int(0x2f1f), (1, 7)));

    for (text, value, end) in [("123.56", 123.56, 7), (".56", 0.56, 4), ("123.", 123.0, 5)] {
        let lit = ranged_literal(text);
        assert_eq!(float_of(&lit.body), value);
        assert_eq!((lit.start, lit.end), (Location { row: 1, col: 1 }, Location { row: 1, col: end }));
    }

    for (text, value, unit, end) in [
        ("0pt", 0.0, "pt", 4),
        ("0cm", 0.0, "cm", 4),
        ("0aa", 0.0, "aa", 4),
        ("12pt", 12.0, "pt", 5),
        ("12.3pt", 12.3, "pt", 7),
        ("12.pt", 12.0, "pt", 6),
        (".3pt", 0.3, "pt", 5),
        (".3pt2", 0.3, "pt2", 6),
    ] {
        let lit = ranged_literal(text);
        assert_eq!((lit.start, lit.end), (Location { row: 1, col: 1 }, Location { row: 1, col: end }));
        match lit.body {
            Literal::Length(l) => {
                let number: f64 = l.value.body.text.parse().unwrap();
                assert_eq!(number, value);
                assert_eq!(l.unit.body, unit.to_owned());
            }
            other => panic!("not a length: {:?}", other),
        }
    }

    assert_eq!(ranged_literal("`a`"), ranged(Literal::String("a".to_owned()), (1, 4)));
    assert_eq!(
        ranged_literal("`` a` ``"),
        ranged(Literal::String("a`".to_owned()), (1, 9)),
    );
    assert_eq!(
        ranged_literal("`` hoge`fuga ``"),
        ranged(Literal::String("hoge`fuga".to_owned()), (1, 16)),
    );
    assert_eq!(
        ranged_literal("`` hogefuga ``"),
        ranged(Literal::String("hogefuga".to_owned()), (1, 15)),
    );
    assert_eq!(
        ranged_literal("#`` hoge`fuga ``"),
        ranged(Literal::String(" hoge`fuga".to_owned()), (1, 17)),
    );
    assert_eq!(
        ranged_literal("#`` hoge`fuga ``#"),
        ranged(Literal::String(" hoge`fuga ".to_owned()), (1, 18)),
    );
    assert_eq!(
        ranged_literal("#```` hoge```fuga ````#"),
        ranged(Literal::String(" hoge```fuga ".to_owned()), (1, 24)),
    );
    assert_eq!(
        ranged_literal("` hoge % fuga `"),
        ranged(Literal::String("hoge % fuga".to_owned()), (1, 16)),
    );
    assert_eq!(
        ranged_literal("` hoge\nfuga `"),
        ranged_rows(Literal::String("hoge\nfuga".to_owned()), (1, 2), (1, 7)),
    );
}

#[test]
fn hex_and_decimal_agree() {
    let hex = ranged_literal("0x2F1F");
    let dec = ranged_literal("12063");
    assert_eq!(hex.body, Literal::Int(12063));
    assert_eq!(dec.body, Literal::Int(12063));
    assert_eq!(hex.end, Location { row: 1, col: 7 });
    assert_eq!(dec.end, Location { row: 1, col: 6 });
    assert_eq!(i32::parse("0x2f1f"), Ok(12063));
}

#[test]
fn integers_at_the_limit() {
    assert_eq!(i32::parse("2147483647"), Ok(i32::MAX));
    assert_eq!(i32::parse("0x7fffffff"), Ok(i32::MAX));
    assert_eq!(i32::parse("0X7FFFFFFF"), Ok(i32::MAX));
    assert_eq!(i32::parse("0"), Ok(0));
    assert_eq!(i32::parse("007"), Ok(7));
    for text in ["2147483648", "0x80000000", "99999999999999999999999999"] {
        match i32::parse(text) {
            Err(Error::Lower(e)) => {
                assert_eq!(e.kind, LowerErrorKind::Overflow);
                assert_eq!((e.start, e.end), (0, text.len()));
            }
            other => panic!("no overflow for {}: {:?}", text, other),
        }
    }
    match Literal::parse("4294967296") {
        Err(Error::Lower(e)) => assert_eq!(e.kind, LowerErrorKind::Overflow),
        other => panic!("no overflow: {:?}", other),
    }
}

#[test]
fn booleans() {
    assert_eq!(bool::parse("true"), Ok(true));
    assert_eq!(bool::parse("false"), Ok(false));
    assert_eq!(
        bool::parse("True"),
        Err(Error::Syntax(ParseError::NoMatch { pos: 0, expected: vec![Rule::bool_const] })),
    );
}

#[test]
fn trim_policy() {
    assert_parsed("`a`", Literal::String("a".to_owned()));
    assert_parsed("#`` a ``#", Literal::String(" a ".to_owned()));
    assert_parsed("`` a ``#", Literal::String("a ".to_owned()));
    assert_parsed("#`` a ``", Literal::String(" a".to_owned()));
    assert_parsed("`\u{3000}a\u{2003}\t\n`", Literal::String("a".to_owned()));
    assert_parsed("#`\u{3000}a\u{a0}`#", Literal::String("\u{3000}a\u{a0}".to_owned()));
}

#[test]
fn fences_of_any_length() {
    for n in 1..6usize {
        let fence = "`".repeat(n);
        let mut body = String::from("x");
        for k in 1..n {
            body.push_str(&"`".repeat(k));
            body.push('y');
        }
        let text = format!("#{}{}{}#", fence, body, fence);
        assert_parsed(&text, Literal::String(body.clone()));
        let plain = format!("{} {} {}", fence, body, fence);
        assert_parsed(&plain, Literal::String(body));
    }
}

#[test]
fn decimals_keep_their_text() {
    assert_parsed("12.50", Literal::Float(Decimal { text: "12.50".to_owned() }));
    assert_eq!(Decimal::parse(".5"), Ok(Decimal { text: ".5".to_owned() }));
    assert_eq!(Length::parse("3mm").unwrap().value.body, Decimal { text: "3".to_owned() });
}

#[test]
fn string_literals_read_back() {
    let contents = ["", "a", "x`y", "caf\u{e9} \u{3042}\u{1f600}", "a``b`c", "two  words"];
    for n in 1..5usize {
        let fence = "`".repeat(n);
        for content in contents {
            if content.contains(&fence) {
                continue;
            }
            for (before, after) in [(false, false), (true, false), (false, true), (true, true)] {
                let head = if before { "#" } else { "" };
                let tail = if after { "#" } else { "" };
                let text = format!("{}{} {} {}{}", head, fence, content, fence, tail);
                let expect = if content.is_empty() {
                    if before && after { "  ".to_owned() } else { String::new() }
                } else {
                    format!(
                        "{}{}{}",
                        if before { " " } else { "" },
                        content,
                        if after { " " } else { "" }
                    )
                };
                let pair = SatysfiParser::parse(Rule::literal, &text).unwrap();
                assert_eq!((pair.start, pair.end), (0, text.len()));
                let value = Literal::parse_pair(&text, &pair).unwrap();
                assert_eq!(value, Literal::String(expect.clone()));
                assert_eq!(expect.trim(), content);
            }
        }
    }
}
