use satysfi_peg_parser::parser::SatysfiParser;
use satysfi_peg_parser::rule::Rule;

fn assert_success(rule: Rule, text: &str) {
    let pair = SatysfiParser::parse(rule, text).unwrap();
    let consumed = &text[pair.start..pair.end];
    if consumed != text {
        panic!("Not fully consumed. text: {}, consumed: {}", text, consumed);
    }
}

fn assert_fail(rule: Rule, text: &str) {
    if let Ok(pair) = SatysfiParser::parse(rule, text) {
        if &text[pair.start..pair.end] == text {
            panic!("Successfully parsed and fully consumed!: {}", text);
        }
    }
}

#[test]
fn header_stage() {
    assert_success(Rule::header_stage, "@stage: 0\n");
    assert_success(Rule::header_stage, "@stage: 1\n");
    assert_success(Rule::header_stage, "@stage: persistent\n");
    assert_success(Rule::header_stage, "@stage:0\n");
    assert_success(Rule::header_stage, "@stage:   0\n");
    assert_fail(Rule::header_stage, "@stage: 2\n");
    assert_fail(Rule::header_stage, "@stage : 2\n");
}

#[test]
fn header() {
    assert_success(Rule::header, "@require: hoge\n");
    assert_success(Rule::header, "@require:    hoge\n");
    assert_success(Rule::header, "@import: hoge/fuga\n");
    assert_success(Rule::header, "@import: hoge fuga\n");
    assert_fail(Rule::header, "@require : hoge\n");
    assert_fail(Rule::header, "@require : hoge\nfuga");
}
