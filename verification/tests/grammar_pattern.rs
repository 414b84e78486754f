use satysfi_peg_parser::parser::SatysfiParser;
use satysfi_peg_parser::rule::Rule;

fn assert_success(rule: Rule, text: &str) {
    let pair = SatysfiParser::parse(rule, text).unwrap();
    let consumed = &text[pair.start..pair.end];
    if consumed != text {
        panic!("Not fully consumed. text: {}, consumed: {}", text, consumed);
    }
}

fn assert_fail(rule: Rule, text: &str) {
    if let Ok(pair) = SatysfiParser::parse(rule, text) {
        if &text[pair.start..pair.end] == text {
            panic!("Successfully parsed and fully consumed!: {}", text);
        }
    }
}

#[test]
fn pattern() {
    assert_success(Rule::pattern, "[hoge; fuga]");
    assert_success(Rule::pattern, "(hoge)");
    assert_success(Rule::pattern, "_");
    assert_success(Rule::pattern, "hoge");
    assert_success(Rule::pattern, "42");
}

#[test]
fn pat_list() {
    assert_success(Rule::pat_list, "[]");
    assert_success(Rule::pat_list, "[1]");
    assert_success(Rule::pat_list, "[1;]");
    assert_success(Rule::pat_list, "[1; 2]");
    assert_success(Rule::pat_list, "[1; 2;]");
    assert_success(Rule::pat_list, "[hoge; _; 3]");
}

#[test]
fn pat_tuple() {
    assert_success(Rule::pat_tuple, "(x, y)");
    assert_success(Rule::pat_tuple, "(_, y)");
    assert_success(Rule::pat_tuple, "(_, y, 1)");
    assert_fail(Rule::pat_tuple, "(x, )");
}

#[test]
fn pat_variant() {
    assert_success(Rule::pat_variant, "Variant");
    assert_success(Rule::pat_variant, "Variant x");
    assert_success(Rule::pat_variant, "Variant(x)");
    assert_success(Rule::pat_variant, "Variant (x)");
    assert_success(Rule::pat_variant, "Variant(x, y)");
    assert_fail(Rule::pat_variant, "Variant 1 2");
}

#[test]
fn match_ptn() {
    assert_success(Rule::match_ptn, "[a1; a2] as a");
    assert_success(Rule::match_ptn, "x :: rest");
    assert_success(Rule::match_ptn, "x :: [x2; x3]");
    assert_fail(Rule::match_ptn, "");
}
