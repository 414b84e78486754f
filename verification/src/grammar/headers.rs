//! The program as a whole and its header lines.

use vstd::prelude::*;
use crate::notation::blanks;
use crate::notation::cat;
use crate::notation::cat3;
use crate::notation::cat5;
use crate::notation::cat6;
use crate::notation::or3;
use crate::notation::end_of_input;
use crate::notation::kw;
use crate::notation::line_end;
use crate::notation::lit;
use crate::notation::many;
use crate::notation::many1;
use crate::notation::not;
use crate::notation::opt;
use crate::notation::or;
use crate::notation::rule;
use crate::peg::Peg;
use crate::rule::Rule;

verus! {

/// `program = _ header_stage? _ headers _ (expr _ end_of_input / preamble _
/// kw("in") _ expr _ end_of_input)`
#[verifier::allow_in_spec]
pub fn program() -> Peg
    returns
        cat6(
            Peg::Skip,
            opt(rule(Rule::header_stage)),
            Peg::Skip,
            rule(Rule::headers),
            Peg::Skip,
            or(
                cat3(rule(Rule::expr), Peg::Skip, end_of_input()),
                cat6(
                    rule(Rule::preamble),
                    Peg::Skip,
                    kw("in"),
                    Peg::Skip,
                    rule(Rule::expr),
                    cat(Peg::Skip, end_of_input()),
                ),
            ),
        ),
{
    cat6(
        Peg::Skip,
        opt(rule(Rule::header_stage)),
        Peg::Skip,
        rule(Rule::headers),
        Peg::Skip,
        or(
            cat3(rule(Rule::expr), Peg::Skip, end_of_input()),
            cat6(
                rule(Rule::preamble),
                Peg::Skip,
                kw("in"),
                Peg::Skip,
                rule(Rule::expr),
                cat(Peg::Skip, end_of_input()),
            ),
        ),
    )
}

/// `header_stage = "@stage:" blanks stage blanks line_end`
#[verifier::allow_in_spec]
pub fn header_stage() -> Peg
    returns
        cat5(lit("@stage:"), blanks(), rule(Rule::stage), blanks(), line_end()),
{
    cat5(lit("@stage:"), blanks(), rule(Rule::stage), blanks(), line_end())
}

/// `stage = "0" / "1" / "persistent"`
#[verifier::allow_in_spec]
pub fn stage() -> Peg
    returns
        or3(lit("0"), lit("1"), lit("persistent")),
{
    or3(lit("0"), lit("1"), lit("persistent"))
}

/// `headers = (header _)*`
#[verifier::allow_in_spec]
pub fn headers() -> Peg
    returns
        many(cat(rule(Rule::header), Peg::Skip)),
{
    many(cat(rule(Rule::header), Peg::Skip))
}

/// `header = "@" header_kind ":" blanks pkgname line_end`
#[verifier::allow_in_spec]
pub fn header() -> Peg
    returns
        cat6(
            lit("@"),
            rule(Rule::header_kind),
            lit(":"),
            blanks(),
            rule(Rule::pkgname),
            line_end(),
        ),
{
    cat6(lit("@"), rule(Rule::header_kind), lit(":"), blanks(), rule(Rule::pkgname), line_end())
}

/// `header_kind = "require" / "import"`
#[verifier::allow_in_spec]
pub fn header_kind() -> Peg
    returns
        or(lit("require"), lit("import")),
{
    or(lit("require"), lit("import"))
}

/// `pkgname = (!("\n" / "\r") ANY)+`
#[verifier::allow_in_spec]
pub fn pkgname() -> Peg
    returns
        many1(cat(not(or(lit("\n"), lit("\r"))), Peg::Any)),
{
    many1(cat(not(or(lit("\n"), lit("\r"))), Peg::Any))
}

} // verus!
