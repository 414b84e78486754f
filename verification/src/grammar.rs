//! The grammar: for every rule the parsing expression that it stands for.
//!
//! The rules are written in the notation of parsing expression grammars.
//! `"text"` matches the text, `[a-z]` one byte of the range, `ANY` one
//! character and `_` any blanks and comments. `a b` matches `a` and then `b`,
//! `a / b` matches `a` or, where that fails, `b`. `a?`, `a*` and `a+` match `a`
//! at most once, any number of times and at least once. `!a` and `&a` match
//! nothing, the first where `a` fails and the second where it matches. A
//! rule's name matches what the rule matches and makes a node of it.
//! `fork(r: a, b, c)` matches `a b` and makes a node of rule `r` of it or,
//! where `b` fails, matches `a c` and makes no node of it: what a longer and a
//! shorter form have in common is matched once. `fenced(r)` matches a string
//! between two runs of backticks of one length and makes a node of rule `r` of
//! the text between them.

pub mod expressions;
pub mod headers;
pub mod horizontal;
pub mod literals;
pub mod math;
pub mod modules;
pub mod patterns;
pub mod shared;
pub mod statements;
pub mod types;
pub mod vertical;

use vstd::prelude::*;
use crate::peg::Peg;
use crate::rule::Rule;
use crate::rule::RULE_COUNT;

verus! {

/// The parsing expression of a rule.
#[verifier::allow_in_spec]
pub fn rule_body(r: Rule) -> Peg
    returns
        match r {
            Rule::program => headers::program(),
            Rule::header_stage => headers::header_stage(),
            Rule::stage => headers::stage(),
            Rule::headers => headers::headers(),
            Rule::header => headers::header(),
            Rule::header_kind => headers::header_kind(),
            Rule::pkgname => headers::pkgname(),
            Rule::preamble => statements::preamble(),
            Rule::let_stmt => statements::let_stmt(),
            Rule::let_inline_stmt => statements::let_inline_stmt(),
            Rule::let_block_stmt => statements::let_block_stmt(),
            Rule::let_math_stmt => statements::let_math_stmt(),
            Rule::let_mutable_stmt => statements::let_mutable_stmt(),
            Rule::stmt_argument => statements::stmt_argument(),
            Rule::arg => statements::arg(),
            Rule::bind_stmt => statements::bind_stmt(),
            Rule::module_stmt => modules::module_stmt(),
            Rule::sig_stmt => modules::sig_stmt(),
            Rule::struct_stmt => modules::struct_stmt(),
            Rule::sig_inner => modules::sig_inner(),
            Rule::sig_type_stmt => modules::sig_type_stmt(),
            Rule::sig_val_stmt => modules::sig_val_stmt(),
            Rule::sig_direct_stmt => modules::sig_direct_stmt(),
            Rule::type_expr => types::type_expr(),
            Rule::type_prod => types::type_prod(),
            Rule::type_unary => types::type_unary(),
            Rule::type_application => types::type_application(),
            Rule::type_list => types::type_list(),
            Rule::type_record => types::type_record(),
            Rule::type_record_unit => types::type_record_unit(),
            Rule::type_ident => types::type_ident(),
            Rule::type_param => types::type_param(),
            Rule::constraint => types::constraint(),
            Rule::match_ptn => patterns::match_ptn(),
            Rule::pat_as => patterns::pat_as(),
            Rule::pat_cons => patterns::pat_cons(),
            Rule::pat_variant => patterns::pat_variant(),
            Rule::pattern => patterns::pattern(),
            Rule::pat_list => patterns::pat_list(),
            Rule::pat_tuple => patterns::pat_tuple(),
            Rule::pat_wildcard => patterns::pat_wildcard(),
            Rule::expr => expressions::expr(),
            Rule::match_expr => expressions::match_expr(),
            Rule::match_arm => expressions::match_arm(),
            Rule::match_guard => expressions::match_guard(),
            Rule::ctrl_while => expressions::ctrl_while(),
            Rule::ctrl_if => expressions::ctrl_if(),
            Rule::dyadic_expr => expressions::dyadic_expr(),
            Rule::unary_operator_expr => expressions::unary_operator_expr(),
            Rule::unary_operator => expressions::unary_operator(),
            Rule::variant_constructor => expressions::variant_constructor(),
            Rule::application => expressions::application(),
            Rule::app_opt_arg => expressions::app_opt_arg(),
            Rule::app_opt_omit => expressions::app_opt_omit(),
            Rule::record_member => expressions::record_member(),
            Rule::unary => expressions::unary(),
            Rule::expr_with_mod => expressions::expr_with_mod(),
            Rule::modvar => expressions::modvar(),
            Rule::var => expressions::var(),
            Rule::var_ptn => expressions::var_ptn(),
            Rule::module_name => expressions::module_name(),
            Rule::variant_name => expressions::variant_name(),
            Rule::reserved_word => expressions::reserved_word(),
            Rule::bin_operator => expressions::bin_operator(),
            Rule::record => expressions::record(),
            Rule::record_inner => expressions::record_inner(),
            Rule::record_unit => expressions::record_unit(),
            Rule::list => expressions::list(),
            Rule::tuple => expressions::tuple(),
            Rule::block_text => expressions::block_text(),
            Rule::horizontal_text => expressions::horizontal_text(),
            Rule::math_text => expressions::math_text(),
            Rule::literal => literals::literal(),
            Rule::unit_const => literals::unit_const(),
            Rule::bool_const => literals::bool_const(),
            Rule::int_const => literals::int_const(),
            Rule::int_hex_const => literals::int_hex_const(),
            Rule::int_decimal_const => literals::int_decimal_const(),
            Rule::float_const => literals::float_const(),
            Rule::length_const => literals::length_const(),
            Rule::length_digit => literals::length_digit(),
            Rule::length_unit => literals::length_unit(),
            Rule::string_const => literals::string_const(),
            Rule::string_interior => literals::string_interior(),
            Rule::string_omit_space_identifier => literals::string_omit_space_identifier(),
            Rule::vertical_mode => vertical::vertical_mode(),
            Rule::vertical_element => vertical::vertical_element(),
            Rule::block_cmd => vertical::block_cmd(),
            Rule::block_cmd_name => vertical::block_cmd_name(),
            Rule::block_text_embedding => vertical::block_text_embedding(),
            Rule::cmd_expr_arg => vertical::cmd_expr_arg(),
            Rule::cmd_expr_option => vertical::cmd_expr_option(),
            Rule::cmd_text_arg => vertical::cmd_text_arg(),
            Rule::horizontal_mode => horizontal::horizontal_mode(),
            Rule::horizontal_single => horizontal::horizontal_single(),
            Rule::horizontal_list => horizontal::horizontal_list(),
            Rule::horizontal_bullet_list => horizontal::horizontal_bullet_list(),
            Rule::horizontal_bullet => horizontal::horizontal_bullet(),
            Rule::horizontal_bullet_star => horizontal::horizontal_bullet_star(),
            Rule::horizontal_token => horizontal::horizontal_token(),
            Rule::regular_text => horizontal::regular_text(),
            Rule::horizontal_escaped_char => horizontal::horizontal_escaped_char(),
            Rule::horizontal_special_char => horizontal::horizontal_special_char(),
            Rule::inline_cmd => horizontal::inline_cmd(),
            Rule::inline_cmd_name => horizontal::inline_cmd_name(),
            Rule::horizontal_text_embedding => horizontal::horizontal_text_embedding(),
            Rule::math_mode => math::math_mode(),
            Rule::math_single => math::math_single(),
            Rule::math_list => math::math_list(),
            Rule::math_token => math::math_token(),
            Rule::math_sup => math::math_sup(),
            Rule::math_sub => math::math_sub(),
            Rule::math_group => math::math_group(),
            Rule::math_unary => math::math_unary(),
            Rule::math_escaped_char => math::math_escaped_char(),
            Rule::math_special_char => math::math_special_char(),
            Rule::math_char => math::math_char(),
            Rule::math_cmd => math::math_cmd(),
            Rule::math_cmd_name => math::math_cmd_name(),
            Rule::math_cmd_expr_arg => math::math_cmd_expr_arg(),
            Rule::math_cmd_expr_option => math::math_cmd_expr_option(),
            Rule::math_symbol => math::math_symbol(),
        },
{
    match r {
        Rule::program => headers::program(),
        Rule::header_stage => headers::header_stage(),
        Rule::stage => headers::stage(),
        Rule::headers => headers::headers(),
        Rule::header => headers::header(),
        Rule::header_kind => headers::header_kind(),
        Rule::pkgname => headers::pkgname(),
        Rule::preamble => statements::preamble(),
        Rule::let_stmt => statements::let_stmt(),
        Rule::let_inline_stmt => statements::let_inline_stmt(),
        Rule::let_block_stmt => statements::let_block_stmt(),
        Rule::let_math_stmt => statements::let_math_stmt(),
        Rule::let_mutable_stmt => statements::let_mutable_stmt(),
        Rule::stmt_argument => statements::stmt_argument(),
        Rule::arg => statements::arg(),
        Rule::bind_stmt => statements::bind_stmt(),
        Rule::module_stmt => modules::module_stmt(),
        Rule::sig_stmt => modules::sig_stmt(),
        Rule::struct_stmt => modules::struct_stmt(),
        Rule::sig_inner => modules::sig_inner(),
        Rule::sig_type_stmt => modules::sig_type_stmt(),
        Rule::sig_val_stmt => modules::sig_val_stmt(),
        Rule::sig_direct_stmt => modules::sig_direct_stmt(),
        Rule::type_expr => types::type_expr(),
        Rule::type_prod => types::type_prod(),
        Rule::type_unary => types::type_unary(),
        Rule::type_application => types::type_application(),
        Rule::type_list => types::type_list(),
        Rule::type_record => types::type_record(),
        Rule::type_record_unit => types::type_record_unit(),
        Rule::type_ident => types::type_ident(),
        Rule::type_param => types::type_param(),
        Rule::constraint => types::constraint(),
        Rule::match_ptn => patterns::match_ptn(),
        Rule::pat_as => patterns::pat_as(),
        Rule::pat_cons => patterns::pat_cons(),
        Rule::pat_variant => patterns::pat_variant(),
        Rule::pattern => patterns::pattern(),
        Rule::pat_list => patterns::pat_list(),
        Rule::pat_tuple => patterns::pat_tuple(),
        Rule::pat_wildcard => patterns::pat_wildcard(),
        Rule::expr => expressions::expr(),
        Rule::match_expr => expressions::match_expr(),
        Rule::match_arm => expressions::match_arm(),
        Rule::match_guard => expressions::match_guard(),
        Rule::ctrl_while => expressions::ctrl_while(),
        Rule::ctrl_if => expressions::ctrl_if(),
        Rule::dyadic_expr => expressions::dyadic_expr(),
        Rule::unary_operator_expr => expressions::unary_operator_expr(),
        Rule::unary_operator => expressions::unary_operator(),
        Rule::variant_constructor => expressions::variant_constructor(),
        Rule::application => expressions::application(),
        Rule::app_opt_arg => expressions::app_opt_arg(),
        Rule::app_opt_omit => expressions::app_opt_omit(),
        Rule::record_member => expressions::record_member(),
        Rule::unary => expressions::unary(),
        Rule::expr_with_mod => expressions::expr_with_mod(),
        Rule::modvar => expressions::modvar(),
        Rule::var => expressions::var(),
        Rule::var_ptn => expressions::var_ptn(),
        Rule::module_name => expressions::module_name(),
        Rule::variant_name => expressions::variant_name(),
        Rule::reserved_word => expressions::reserved_word(),
        Rule::bin_operator => expressions::bin_operator(),
        Rule::record => expressions::record(),
        Rule::record_inner => expressions::record_inner(),
        Rule::record_unit => expressions::record_unit(),
        Rule::list => expressions::list(),
        Rule::tuple => expressions::tuple(),
        Rule::block_text => expressions::block_text(),
        Rule::horizontal_text => expressions::horizontal_text(),
        Rule::math_text => expressions::math_text(),
        Rule::literal => literals::literal(),
        Rule::unit_const => literals::unit_const(),
        Rule::bool_const => literals::bool_const(),
        Rule::int_const => literals::int_const(),
        Rule::int_hex_const => literals::int_hex_const(),
        Rule::int_decimal_const => literals::int_decimal_const(),
        Rule::float_const => literals::float_const(),
        Rule::length_const => literals::length_const(),
        Rule::length_digit => literals::length_digit(),
        Rule::length_unit => literals::length_unit(),
        Rule::string_const => literals::string_const(),
        Rule::string_interior => literals::string_interior(),
        Rule::string_omit_space_identifier => literals::string_omit_space_identifier(),
        Rule::vertical_mode => vertical::vertical_mode(),
        Rule::vertical_element => vertical::vertical_element(),
        Rule::block_cmd => vertical::block_cmd(),
        Rule::block_cmd_name => vertical::block_cmd_name(),
        Rule::block_text_embedding => vertical::block_text_embedding(),
        Rule::cmd_expr_arg => vertical::cmd_expr_arg(),
        Rule::cmd_expr_option => vertical::cmd_expr_option(),
        Rule::cmd_text_arg => vertical::cmd_text_arg(),
        Rule::horizontal_mode => horizontal::horizontal_mode(),
        Rule::horizontal_single => horizontal::horizontal_single(),
        Rule::horizontal_list => horizontal::horizontal_list(),
        Rule::horizontal_bullet_list => horizontal::horizontal_bullet_list(),
        Rule::horizontal_bullet => horizontal::horizontal_bullet(),
        Rule::horizontal_bullet_star => horizontal::horizontal_bullet_star(),
        Rule::horizontal_token => horizontal::horizontal_token(),
        Rule::regular_text => horizontal::regular_text(),
        Rule::horizontal_escaped_char => horizontal::horizontal_escaped_char(),
        Rule::horizontal_special_char => horizontal::horizontal_special_char(),
        Rule::inline_cmd => horizontal::inline_cmd(),
        Rule::inline_cmd_name => horizontal::inline_cmd_name(),
        Rule::horizontal_text_embedding => horizontal::horizontal_text_embedding(),
        Rule::math_mode => math::math_mode(),
        Rule::math_single => math::math_single(),
        Rule::math_list => math::math_list(),
        Rule::math_token => math::math_token(),
        Rule::math_sup => math::math_sup(),
        Rule::math_sub => math::math_sub(),
        Rule::math_group => math::math_group(),
        Rule::math_unary => math::math_unary(),
        Rule::math_escaped_char => math::math_escaped_char(),
        Rule::math_special_char => math::math_special_char(),
        Rule::math_char => math::math_char(),
        Rule::math_cmd => math::math_cmd(),
        Rule::math_cmd_name => math::math_cmd_name(),
        Rule::math_cmd_expr_arg => math::math_cmd_expr_arg(),
        Rule::math_cmd_expr_option => math::math_cmd_expr_option(),
        Rule::math_symbol => math::math_symbol(),
    }
}

/// The grammar as a table: at every rule's index the rule's expression.
pub open spec fn grammar() -> Seq<Peg> {
    Seq::new(RULE_COUNT as nat, |i: int| rule_body(Rule::at(i as usize)))
}

/// Builds the table of the grammar.
pub fn build_grammar() -> (table: Vec<Peg>)
    ensures
        table@ == grammar(),
{
    let mut table: Vec<Peg> = Vec::new();
    let mut i: usize = 0;
    while i < RULE_COUNT
        invariant
            i <= RULE_COUNT,
            table@.len() == i,
            forall|j: int| 0 <= j < i ==> table@[j] == rule_body(Rule::at(j as usize)),
        decreases RULE_COUNT - i,
    {
        match Rule::from_index(i) {
            Some(r) => {
                table.push(rule_body(r));
            },
            None => {
                return table;
            },
        }
        i = i + 1;
    }
    proof {
        assert(table@ =~= grammar());
    }
    table
}

} // verus!
