//! The three recognisers of `nom` that the grammar is built from, each with
//! what it is relied on to do.
//!
//! Nothing in this file is proved: the contracts say what `nom` does, and
//! the rest of the crate is proved from them.

use vstd::prelude::*;

verus! {

/// `nom`'s error wrapper, which tells a recoverable error from a failure
/// and from a want of input.
#[verifier::external_type_specification]
#[verifier::external_body]
#[verifier::reject_recursive_types(E)]
pub struct ExNomErr<E>(nom::Err<E>);

/// `nom`'s plain error: the place in the input and the kind of recogniser
/// that gave up there.
#[verifier::external_type_specification]
#[verifier::external_body]
#[verifier::reject_recursive_types(I)]
pub struct ExNomError<I>(nom::error::Error<I>);

/// Whether `c` is one of the ten decimal digits `0` to `9`.
pub open spec fn is_digit(c: char) -> bool {
    '0' <= c && c <= '9'
}

/// `nom::character::complete::digit1` on a string slice.
///
/// It splits the input behind the longest run of decimal digits that the
/// input starts with, and hands back what follows the run and the run, in
/// that order. It gives an error exactly where that run is empty: on empty
/// input and on input that starts with something else.
#[verifier::external_body]
pub(crate) fn digit1<'a>(input: &'a str) -> (r: Result<
    (&'a str, &'a str),
    nom::Err<nom::error::Error<&'a str>>,
>)
    ensures
        match r {
            Ok((rest, digits)) => {
                &&& digits@ + rest@ == input@
                &&& digits@.len() > 0
                &&& forall|i: int| 0 <= i < digits@.len() ==> is_digit(#[trigger] digits@[i])
                &&& rest@.len() > 0 ==> !is_digit(rest@[0])
            },
            Err(_) => input@.len() == 0 || !is_digit(input@[0]),
        },
{
    nom::character::complete::digit1(input)
}

/// `nom::character::complete::char` on a string slice.
///
/// It succeeds exactly where the input starts with the character `c`, and
/// then hands back the input behind that character, and `c`.
#[verifier::external_body]
pub(crate) fn char_token<'a>(c: char, input: &'a str) -> (r: Result<
    (&'a str, char),
    nom::Err<nom::error::Error<&'a str>>,
>)
    ensures
        match r {
            Ok((rest, found)) => {
                &&& input@.len() > 0
                &&& input@[0] == c
                &&& found == c
                &&& rest@ == input@.skip(1)
            },
            Err(_) => input@.len() == 0 || input@[0] != c,
        },
{
    nom::character::complete::char(c)(input)
}

/// `nom::bytes::complete::tag` on string slices.
///
/// It succeeds exactly where the input starts with the text `pattern`, and
/// then hands back the input behind that text, and the part of the input
/// that matched.
#[verifier::external_body]
pub(crate) fn tag<'a>(pattern: &str, input: &'a str) -> (r: Result<
    (&'a str, &'a str),
    nom::Err<nom::error::Error<&'a str>>,
>)
    ensures
        match r {
            Ok((rest, found)) => {
                &&& pattern@.is_prefix_of(input@)
                &&& found@ == pattern@
                &&& rest@ == input@.skip(pattern@.len() as int)
            },
            Err(_) => !pattern@.is_prefix_of(input@),
        },
{
    nom::bytes::complete::tag(pattern)(input)
}

} // verus!
