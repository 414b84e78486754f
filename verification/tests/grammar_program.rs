use satysfi_peg_parser::parser::SatysfiParser;
use satysfi_peg_parser::rule::Rule;

fn assert_success(rule: Rule, text: &str) {
    let pair = SatysfiParser::parse(rule, text).unwrap();
    let consumed = &text[pair.start..pair.end];
    if consumed != text {
        panic!("Not fully consumed. text: {}, consumed: {}", text, consumed);
    }
}

fn assert_fail(rule: Rule, text: &str) {
    if let Ok(pair) = SatysfiParser::parse(rule, text) {
        if &text[pair.start..pair.end] == text {
            panic!("Successfully parsed and fully consumed!: {}", text);
        }
    }
}

#[test]
fn program() {
    assert_success(Rule::program, "let a = 1 in 1");
    assert_success(Rule::program, "1");
    assert_success(Rule::program, "let a = 1 let b = 2 in a + b");
    assert_success(Rule::program, "let a = 1 in let b = 2 in a + b");
    assert_success(Rule::program, "let a = let b = 2 in a + b in a");

    assert_fail(Rule::program, "let a = 1 in");
}
