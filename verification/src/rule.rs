//! The names of the grammar's rules. Every node of a parse tree is tagged
//! with the rule that matched it.

use vstd::prelude::*;

verus! {

/// Number of grammar rules.
pub const RULE_COUNT: usize = 122;

/// A grammar rule.
#[allow(non_camel_case_types)]
#[derive(Debug, Clone, Copy, PartialEq, Eq, Hash, Structural)]
pub enum Rule {
    program,
    header_stage,
    stage,
    headers,
    header,
    header_kind,
    pkgname,
    preamble,
    let_stmt,
    let_inline_stmt,
    let_block_stmt,
    let_math_stmt,
    let_mutable_stmt,
    stmt_argument,
    arg,
    bind_stmt,
    module_stmt,
    sig_stmt,
    struct_stmt,
    sig_inner,
    sig_type_stmt,
    sig_val_stmt,
    sig_direct_stmt,
    type_expr,
    type_prod,
    type_unary,
    type_application,
    type_list,
    type_record,
    type_record_unit,
    type_ident,
    type_param,
    constraint,
    match_ptn,
    pat_as,
    pat_cons,
    pat_variant,
    pattern,
    pat_list,
    pat_tuple,
    pat_wildcard,
    expr,
    match_expr,
    match_arm,
    match_guard,
    ctrl_while,
    ctrl_if,
    dyadic_expr,
    unary_operator_expr,
    unary_operator,
    variant_constructor,
    application,
    app_opt_arg,
    app_opt_omit,
    record_member,
    unary,
    expr_with_mod,
    modvar,
    var,
    var_ptn,
    module_name,
    variant_name,
    reserved_word,
    bin_operator,
    record,
    record_inner,
    record_unit,
    list,
    tuple,
    block_text,
    horizontal_text,
    math_text,
    literal,
    unit_const,
    bool_const,
    int_const,
    int_hex_const,
    int_decimal_const,
    float_const,
    length_const,
    length_digit,
    length_unit,
    string_const,
    string_interior,
    string_omit_space_identifier,
    vertical_mode,
    vertical_element,
    block_cmd,
    block_cmd_name,
    block_text_embedding,
    cmd_expr_arg,
    cmd_expr_option,
    cmd_text_arg,
    horizontal_mode,
    horizontal_single,
    horizontal_list,
    horizontal_bullet_list,
    horizontal_bullet,
    horizontal_bullet_star,
    horizontal_token,
    regular_text,
    horizontal_escaped_char,
    horizontal_special_char,
    inline_cmd,
    inline_cmd_name,
    horizontal_text_embedding,
    math_mode,
    math_single,
    math_list,
    math_token,
    math_sup,
    math_sub,
    math_group,
    math_unary,
    math_escaped_char,
    math_special_char,
    math_char,
    math_cmd,
    math_cmd_name,
    math_cmd_expr_arg,
    math_cmd_expr_option,
    math_symbol,
}

impl Rule {
    /// Position of the rule in the grammar table.
    pub open spec fn spec_index(self) -> nat {
        match self {
            Rule::program => 0,
            Rule::header_stage => 1,
            Rule::stage => 2,
            Rule::headers => 3,
            Rule::header => 4,
            Rule::header_kind => 5,
            Rule::pkgname => 6,
            Rule::preamble => 7,
            Rule::let_stmt => 8,
            Rule::let_inline_stmt => 9,
            Rule::let_block_stmt => 10,
            Rule::let_math_stmt => 11,
            Rule::let_mutable_stmt => 12,
            Rule::stmt_argument => 13,
            Rule::arg => 14,
            Rule::bind_stmt => 15,
            Rule::module_stmt => 16,
            Rule::sig_stmt => 17,
            Rule::struct_stmt => 18,
            Rule::sig_inner => 19,
            Rule::sig_type_stmt => 20,
            Rule::sig_val_stmt => 21,
            Rule::sig_direct_stmt => 22,
            Rule::type_expr => 23,
            Rule::type_prod => 24,
            Rule::type_unary => 25,
            Rule::type_application => 26,
            Rule::type_list => 27,
            Rule::type_record => 28,
            Rule::type_record_unit => 29,
            Rule::type_ident => 30,
            Rule::type_param => 31,
            Rule::constraint => 32,
            Rule::match_ptn => 33,
            Rule::pat_as => 34,
            Rule::pat_cons => 35,
            Rule::pat_variant => 36,
            Rule::pattern => 37,
            Rule::pat_list => 38,
            Rule::pat_tuple => 39,
            Rule::pat_wildcard => 40,
            Rule::expr => 41,
            Rule::match_expr => 42,
            Rule::match_arm => 43,
            Rule::match_guard => 44,
            Rule::ctrl_while => 45,
            Rule::ctrl_if => 46,
            Rule::dyadic_expr => 47,
            Rule::unary_operator_expr => 48,
            Rule::unary_operator => 49,
            Rule::variant_constructor => 50,
            Rule::application => 51,
            Rule::app_opt_arg => 52,
            Rule::app_opt_omit => 53,
            Rule::record_member => 54,
            Rule::unary => 55,
            Rule::expr_with_mod => 56,
            Rule::modvar => 57,
            Rule::var => 58,
            Rule::var_ptn => 59,
            Rule::module_name => 60,
            Rule::variant_name => 61,
            Rule::reserved_word => 62,
            Rule::bin_operator => 63,
            Rule::record => 64,
            Rule::record_inner => 65,
            Rule::record_unit => 66,
            Rule::list => 67,
            Rule::tuple => 68,
            Rule::block_text => 69,
            Rule::horizontal_text => 70,
            Rule::math_text => 71,
            Rule::literal => 72,
            Rule::unit_const => 73,
            Rule::bool_const => 74,
            Rule::int_const => 75,
            Rule::int_hex_const => 76,
            Rule::int_decimal_const => 77,
            Rule::float_const => 78,
            Rule::length_const => 79,
            Rule::length_digit => 80,
            Rule::length_unit => 81,
            Rule::string_const => 82,
            Rule::string_interior => 83,
            Rule::string_omit_space_identifier => 84,
            Rule::vertical_mode => 85,
            Rule::vertical_element => 86,
            Rule::block_cmd => 87,
            Rule::block_cmd_name => 88,
            Rule::block_text_embedding => 89,
            Rule::cmd_expr_arg => 90,
            Rule::cmd_expr_option => 91,
            Rule::cmd_text_arg => 92,
            Rule::horizontal_mode => 93,
            Rule::horizontal_single => 94,
            Rule::horizontal_list => 95,
            Rule::horizontal_bullet_list => 96,
            Rule::horizontal_bullet => 97,
            Rule::horizontal_bullet_star => 98,
            Rule::horizontal_token => 99,
            Rule::regular_text => 100,
            Rule::horizontal_escaped_char => 101,
            Rule::horizontal_special_char => 102,
            Rule::inline_cmd => 103,
            Rule::inline_cmd_name => 104,
            Rule::horizontal_text_embedding => 105,
            Rule::math_mode => 106,
            Rule::math_single => 107,
            Rule::math_list => 108,
            Rule::math_token => 109,
            Rule::math_sup => 110,
            Rule::math_sub => 111,
            Rule::math_group => 112,
            Rule::math_unary => 113,
            Rule::math_escaped_char => 114,
            Rule::math_special_char => 115,
            Rule::math_char => 116,
            Rule::math_cmd => 117,
            Rule::math_cmd_name => 118,
            Rule::math_cmd_expr_arg => 119,
            Rule::math_cmd_expr_option => 120,
            Rule::math_symbol => 121,
        }
    }

    /// Position of the rule in the grammar table.
    pub fn index(self) -> (i: usize)
        ensures
            i == self.spec_index(),
            i < RULE_COUNT,
    {
        match self {
            Rule::program => 0,
            Rule::header_stage => 1,
            Rule::stage => 2,
            Rule::headers => 3,
            Rule::header => 4,
            Rule::header_kind => 5,
            Rule::pkgname => 6,
            Rule::preamble => 7,
            Rule::let_stmt => 8,
            Rule::let_inline_stmt => 9,
            Rule::let_block_stmt => 10,
            Rule::let_math_stmt => 11,
            Rule::let_mutable_stmt => 12,
            Rule::stmt_argument => 13,
            Rule::arg => 14,
            Rule::bind_stmt => 15,
            Rule::module_stmt => 16,
            Rule::sig_stmt => 17,
            Rule::struct_stmt => 18,
            Rule::sig_inner => 19,
            Rule::sig_type_stmt => 20,
            Rule::sig_val_stmt => 21,
            Rule::sig_direct_stmt => 22,
            Rule::type_expr => 23,
            Rule::type_prod => 24,
            Rule::type_unary => 25,
            Rule::type_application => 26,
            Rule::type_list => 27,
            Rule::type_record => 28,
            Rule::type_record_unit => 29,
            Rule::type_ident => 30,
            Rule::type_param => 31,
            Rule::constraint => 32,
            Rule::match_ptn => 33,
            Rule::pat_as => 34,
            Rule::pat_cons => 35,
            Rule::pat_variant => 36,
            Rule::pattern => 37,
            Rule::pat_list => 38,
            Rule::pat_tuple => 39,
            Rule::pat_wildcard => 40,
            Rule::expr => 41,
            Rule::match_expr => 42,
            Rule::match_arm => 43,
            Rule::match_guard => 44,
            Rule::ctrl_while => 45,
            Rule::ctrl_if => 46,
            Rule::dyadic_expr => 47,
            Rule::unary_operator_expr => 48,
            Rule::unary_operator => 49,
            Rule::variant_constructor => 50,
            Rule::application => 51,
            Rule::app_opt_arg => 52,
            Rule::app_opt_omit => 53,
            Rule::record_member => 54,
            Rule::unary => 55,
            Rule::expr_with_mod => 56,
            Rule::modvar => 57,
            Rule::var => 58,
            Rule::var_ptn => 59,
            Rule::module_name => 60,
            Rule::variant_name => 61,
            Rule::reserved_word => 62,
            Rule::bin_operator => 63,
            Rule::record => 64,
            Rule::record_inner => 65,
            Rule::record_unit => 66,
            Rule::list => 67,
            Rule::tuple => 68,
            Rule::block_text => 69,
            Rule::horizontal_text => 70,
            Rule::math_text => 71,
            Rule::literal => 72,
            Rule::unit_const => 73,
            Rule::bool_const => 74,
            Rule::int_const => 75,
            Rule::int_hex_const => 76,
            Rule::int_decimal_const => 77,
            Rule::float_const => 78,
            Rule::length_const => 79,
            Rule::length_digit => 80,
            Rule::length_unit => 81,
            Rule::string_const => 82,
            Rule::string_interior => 83,
            Rule::string_omit_space_identifier => 84,
            Rule::vertical_mode => 85,
            Rule::vertical_element => 86,
            Rule::block_cmd => 87,
            Rule::block_cmd_name => 88,
            Rule::block_text_embedding => 89,
            Rule::cmd_expr_arg => 90,
            Rule::cmd_expr_option => 91,
            Rule::cmd_text_arg => 92,
            Rule::horizontal_mode => 93,
            Rule::horizontal_single => 94,
            Rule::horizontal_list => 95,
            Rule::horizontal_bullet_list => 96,
            Rule::horizontal_bullet => 97,
            Rule::horizontal_bullet_star => 98,
            Rule::horizontal_token => 99,
            Rule::regular_text => 100,
            Rule::horizontal_escaped_char => 101,
            Rule::horizontal_special_char => 102,
            Rule::inline_cmd => 103,
            Rule::inline_cmd_name => 104,
            Rule::horizontal_text_embedding => 105,
            Rule::math_mode => 106,
            Rule::math_single => 107,
            Rule::math_list => 108,
            Rule::math_token => 109,
            Rule::math_sup => 110,
            Rule::math_sub => 111,
            Rule::math_group => 112,
            Rule::math_unary => 113,
            Rule::math_escaped_char => 114,
            Rule::math_special_char => 115,
            Rule::math_char => 116,
            Rule::math_cmd => 117,
            Rule::math_cmd_name => 118,
            Rule::math_cmd_expr_arg => 119,
            Rule::math_cmd_expr_option => 120,
            Rule::math_symbol => 121,
        }
    }

    /// The rule at a position of the grammar table. Positions out of range
    /// stand for the first rule.
    pub open spec fn at(i: usize) -> Rule {
        match i {
            1 => Rule::header_stage,
            2 => Rule::stage,
            3 => Rule::headers,
            4 => Rule::header,
            5 => Rule::header_kind,
            6 => Rule::pkgname,
            7 => Rule::preamble,
            8 => Rule::let_stmt,
            9 => Rule::let_inline_stmt,
            10 => Rule::let_block_stmt,
            11 => Rule::let_math_stmt,
            12 => Rule::let_mutable_stmt,
            13 => Rule::stmt_argument,
            14 => Rule::arg,
            15 => Rule::bind_stmt,
            16 => Rule::module_stmt,
            17 => Rule::sig_stmt,
            18 => Rule::struct_stmt,
            19 => Rule::sig_inner,
            20 => Rule::sig_type_stmt,
            21 => Rule::sig_val_stmt,
            22 => Rule::sig_direct_stmt,
            23 => Rule::type_expr,
            24 => Rule::type_prod,
            25 => Rule::type_unary,
            26 => Rule::type_application,
            27 => Rule::type_list,
            28 => Rule::type_record,
            29 => Rule::type_record_unit,
            30 => Rule::type_ident,
            31 => Rule::type_param,
            32 => Rule::constraint,
            33 => Rule::match_ptn,
            34 => Rule::pat_as,
            35 => Rule::pat_cons,
            36 => Rule::pat_variant,
            37 => Rule::pattern,
            38 => Rule::pat_list,
            39 => Rule::pat_tuple,
            40 => Rule::pat_wildcard,
            41 => Rule::expr,
            42 => Rule::match_expr,
            43 => Rule::match_arm,
            44 => Rule::match_guard,
            45 => Rule::ctrl_while,
            46 => Rule::ctrl_if,
            47 => Rule::dyadic_expr,
            48 => Rule::unary_operator_expr,
            49 => Rule::unary_operator,
            50 => Rule::variant_constructor,
            51 => Rule::application,
            52 => Rule::app_opt_arg,
            53 => Rule::app_opt_omit,
            54 => Rule::record_member,
            55 => Rule::unary,
            56 => Rule::expr_with_mod,
            57 => Rule::modvar,
            58 => Rule::var,
            59 => Rule::var_ptn,
            60 => Rule::module_name,
            61 => Rule::variant_name,
            62 => Rule::reserved_word,
            63 => Rule::bin_operator,
            64 => Rule::record,
            65 => Rule::record_inner,
            66 => Rule::record_unit,
            67 => Rule::list,
            68 => Rule::tuple,
            69 => Rule::block_text,
            70 => Rule::horizontal_text,
            71 => Rule::math_text,
            72 => Rule::literal,
            73 => Rule::unit_const,
            74 => Rule::bool_const,
            75 => Rule::int_const,
            76 => Rule::int_hex_const,
            77 => Rule::int_decimal_const,
            78 => Rule::float_const,
            79 => Rule::length_const,
            80 => Rule::length_digit,
            81 => Rule::length_unit,
            82 => Rule::string_const,
            83 => Rule::string_interior,
            84 => Rule::string_omit_space_identifier,
            85 => Rule::vertical_mode,
            86 => Rule::vertical_element,
            87 => Rule::block_cmd,
            88 => Rule::block_cmd_name,
            89 => Rule::block_text_embedding,
            90 => Rule::cmd_expr_arg,
            91 => Rule::cmd_expr_option,
            92 => Rule::cmd_text_arg,
            93 => Rule::horizontal_mode,
            94 => Rule::horizontal_single,
            95 => Rule::horizontal_list,
            96 => Rule::horizontal_bullet_list,
            97 => Rule::horizontal_bullet,
            98 => Rule::horizontal_bullet_star,
            99 => Rule::horizontal_token,
            100 => Rule::regular_text,
            101 => Rule::horizontal_escaped_char,
            102 => Rule::horizontal_special_char,
            103 => Rule::inline_cmd,
            104 => Rule::inline_cmd_name,
            105 => Rule::horizontal_text_embedding,
            106 => Rule::math_mode,
            107 => Rule::math_single,
            108 => Rule::math_list,
            109 => Rule::math_token,
            110 => Rule::math_sup,
            111 => Rule::math_sub,
            112 => Rule::math_group,
            113 => Rule::math_unary,
            114 => Rule::math_escaped_char,
            115 => Rule::math_special_char,
            116 => Rule::math_char,
            117 => Rule::math_cmd,
            118 => Rule::math_cmd_name,
            119 => Rule::math_cmd_expr_arg,
            120 => Rule::math_cmd_expr_option,
            121 => Rule::math_symbol,
            _ => Rule::program,
        }
    }

    /// The rule at a position of the grammar table, if the position is in
    /// range.
    pub fn from_index(i: usize) -> (r: Option<Rule>)
        ensures
            r == (if i < RULE_COUNT { Some(Rule::at(i)) } else { None }),
    {
        match i {
            0 => Some(Rule::program),
            1 => Some(Rule::header_stage),
            2 => Some(Rule::stage),
            3 => Some(Rule::headers),
            4 => Some(Rule::header),
            5 => Some(Rule::header_kind),
            6 => Some(Rule::pkgname),
            7 => Some(Rule::preamble),
            8 => Some(Rule::let_stmt),
            9 => Some(Rule::let_inline_stmt),
            10 => Some(Rule::let_block_stmt),
            11 => Some(Rule::let_math_stmt),
            12 => Some(Rule::let_mutable_stmt),
            13 => Some(Rule::stmt_argument),
            14 => Some(Rule::arg),
            15 => Some(Rule::bind_stmt),
            16 => Some(Rule::module_stmt),
            17 => Some(Rule::sig_stmt),
            18 => Some(Rule::struct_stmt),
            19 => Some(Rule::sig_inner),
            20 => Some(Rule::sig_type_stmt),
            21 => Some(Rule::sig_val_stmt),
            22 => Some(Rule::sig_direct_stmt),
            23 => Some(Rule::type_expr),
            24 => Some(Rule::type_prod),
            25 => Some(Rule::type_unary),
            26 => Some(Rule::type_application),
            27 => Some(Rule::type_list),
            28 => Some(Rule::type_record),
            29 => Some(Rule::type_record_unit),
            30 => Some(Rule::type_ident),
            31 => Some(Rule::type_param),
            32 => Some(Rule::constraint),
            33 => Some(Rule::match_ptn),
            34 => Some(Rule::pat_as),
            35 => Some(Rule::pat_cons),
            36 => Some(Rule::pat_variant),
            37 => Some(Rule::pattern),
            38 => Some(Rule::pat_list),
            39 => Some(Rule::pat_tuple),
            40 => Some(Rule::pat_wildcard),
            41 => Some(Rule::expr),
            42 => Some(Rule::match_expr),
            43 => Some(Rule::match_arm),
            44 => Some(Rule::match_guard),
            45 => Some(Rule::ctrl_while),
            46 => Some(Rule::ctrl_if),
            47 => Some(Rule::dyadic_expr),
            48 => Some(Rule::unary_operator_expr),
            49 => Some(Rule::unary_operator),
            50 => Some(Rule::variant_constructor),
            51 => Some(Rule::application),
            52 => Some(Rule::app_opt_arg),
            53 => Some(Rule::app_opt_omit),
            54 => Some(Rule::record_member),
            55 => Some(Rule::unary),
            56 => Some(Rule::expr_with_mod),
            57 => Some(Rule::modvar),
            58 => Some(Rule::var),
            59 => Some(Rule::var_ptn),
            60 => Some(Rule::module_name),
            61 => Some(Rule::variant_name),
            62 => Some(Rule::reserved_word),
            63 => Some(Rule::bin_operator),
            64 => Some(Rule::record),
            65 => Some(Rule::record_inner),
            66 => Some(Rule::record_unit),
            67 => Some(Rule::list),
            68 => Some(Rule::tuple),
            69 => Some(Rule::block_text),
            70 => Some(Rule::horizontal_text),
            71 => Some(Rule::math_text),
            72 => Some(Rule::literal),
            73 => Some(Rule::unit_const),
            74 => Some(Rule::bool_const),
            75 => Some(Rule::int_const),
            76 => Some(Rule::int_hex_const),
            77 => Some(Rule::int_decimal_const),
            78 => Some(Rule::float_const),
            79 => Some(Rule::length_const),
            80 => Some(Rule::length_digit),
            81 => Some(Rule::length_unit),
            82 => Some(Rule::string_const),
            83 => Some(Rule::string_interior),
            84 => Some(Rule::string_omit_space_identifier),
            85 => Some(Rule::vertical_mode),
            86 => Some(Rule::vertical_element),
            87 => Some(Rule::block_cmd),
            88 => Some(Rule::block_cmd_name),
            89 => Some(Rule::block_text_embedding),
            90 => Some(Rule::cmd_expr_arg),
            91 => Some(Rule::cmd_expr_option),
            92 => Some(Rule::cmd_text_arg),
            93 => Some(Rule::horizontal_mode),
            94 => Some(Rule::horizontal_single),
            95 => Some(Rule::horizontal_list),
            96 => Some(Rule::horizontal_bullet_list),
            97 => Some(Rule::horizontal_bullet),
            98 => Some(Rule::horizontal_bullet_star),
            99 => Some(Rule::horizontal_token),
            100 => Some(Rule::regular_text),
            101 => Some(Rule::horizontal_escaped_char),
            102 => Some(Rule::horizontal_special_char),
            103 => Some(Rule::inline_cmd),
            104 => Some(Rule::inline_cmd_name),
            105 => Some(Rule::horizontal_text_embedding),
            106 => Some(Rule::math_mode),
            107 => Some(Rule::math_single),
            108 => Some(Rule::math_list),
            109 => Some(Rule::math_token),
            110 => Some(Rule::math_sup),
            111 => Some(Rule::math_sub),
            112 => Some(Rule::math_group),
            113 => Some(Rule::math_unary),
            114 => Some(Rule::math_escaped_char),
            115 => Some(Rule::math_special_char),
            116 => Some(Rule::math_char),
            117 => Some(Rule::math_cmd),
            118 => Some(Rule::math_cmd_name),
            119 => Some(Rule::math_cmd_expr_arg),
            120 => Some(Rule::math_cmd_expr_option),
            121 => Some(Rule::math_symbol),
            _ => None,
        }
    }

    /// A rule stands in the table at its index.
    pub proof fn lemma_at_index(self)
        ensures
            self.spec_index() < RULE_COUNT,
            Rule::at(self.spec_index() as usize) == self,
    {
    }
}

} // verus!
