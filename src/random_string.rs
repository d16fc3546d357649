use crate::sampler::{
    drawn_from, indices_below, select_symbols, small_rng_from_os, std_rng_from_os, GenerateError,
    UniformSource,
};
use rand::rngs::OsRng;
use vstd::prelude::*;

verus! {

/// Generates a string of `length` symbols, each drawn uniformly from `charset`
/// with a general-purpose generator (StdRng) seeded from the operating
/// system's source. Fails when `charset` is empty, or when a symbol is to be
/// drawn and that source is unavailable.
pub fn generate(length: usize, charset: &[u8]) -> (r: Result<String, GenerateError>)
    ensures
        charset@.len() == 0 <==> r == Err::<String, GenerateError>(GenerateError::InvalidArgument),
        charset@.len() > 0 ==> (r is Ok || r == Err::<String, GenerateError>(GenerateError::SourceUnavailable)),
        (length == 0 && charset@.len() > 0) ==> (r matches Ok(s) && s@.len() == 0),
        r matches Ok(s) ==> drawn_from(s@, length as nat, charset@),
{
    if charset.len() == 0 {
        return Err(GenerateError::InvalidArgument);
    }
    if length == 0 {
        let none: Vec<usize> = Vec::new();
        assert(indices_below(none@, charset@.len()));
        return Ok(select_symbols(charset, &none));
    }
    match std_rng_from_os() {
        Ok(mut rng) => generate_with_rng(length, charset, &mut rng),
        Err(_) => Err(GenerateError::SourceUnavailable),
    }
}

/// Generates a string as `generate` does, with a fast generator that is not
/// fit for secrets: a SmallRng seeded from the operating system's source.
pub fn generate_unsecure(length: usize, charset: &[u8]) -> (r: Result<String, GenerateError>)
    ensures
        charset@.len() == 0 <==> r == Err::<String, GenerateError>(GenerateError::InvalidArgument),
        charset@.len() > 0 ==> (r is Ok || r == Err::<String, GenerateError>(GenerateError::SourceUnavailable)),
        (length == 0 && charset@.len() > 0) ==> (r matches Ok(s) && s@.len() == 0),
        r matches Ok(s) ==> drawn_from(s@, length as nat, charset@),
{
    if charset.len() == 0 {
        return Err(GenerateError::InvalidArgument);
    }
    if length == 0 {
        let none: Vec<usize> = Vec::new();
        assert(indices_below(none@, charset@.len()));
        return Ok(select_symbols(charset, &none));
    }
    match small_rng_from_os() {
        Ok(mut rng) => generate_with_rng(length, charset, &mut rng),
        Err(_) => Err(GenerateError::SourceUnavailable),
    }
}

/// Generates a string as `generate` does, with the operating system's source
/// read afresh for every symbol; a failure of that source at any draw gives
/// `SourceUnavailable` and no string.
pub fn generate_os_secure(length: usize, charset: &[u8]) -> (r: Result<String, GenerateError>)
    ensures
        charset@.len() == 0 <==> r == Err::<String, GenerateError>(GenerateError::InvalidArgument),
        charset@.len() > 0 ==> (r is Ok || r == Err::<String, GenerateError>(GenerateError::SourceUnavailable)),
        (length == 0 && charset@.len() > 0) ==> (r matches Ok(s) && s@.len() == 0),
        r matches Ok(s) ==> drawn_from(s@, length as nat, charset@),
{
    let mut rng = OsRng::default();
    generate_with_rng(length, charset, &mut rng)
}

/// Generates a string of `length` symbols, each drawn uniformly from `charset`
/// with `rng`. Fails with `InvalidArgument` when `charset` is empty, and with
/// `SourceUnavailable`, producing no string, when a draw from `rng` fails.
pub fn generate_with_rng<R: UniformSource>(
    length: usize,
    charset: &[u8],
    rng: &mut R,
) -> (r: Result<String, GenerateError>)
    ensures
        charset@.len() == 0 <==> r == Err::<String, GenerateError>(GenerateError::InvalidArgument),
        charset@.len() > 0 ==> (r is Ok || r == Err::<String, GenerateError>(GenerateError::SourceUnavailable)),
        (length == 0 && charset@.len() > 0) ==> (r matches Ok(s) && s@.len() == 0),
        r matches Ok(s) ==> drawn_from(s@, length as nat, charset@),
        (length == 0 || charset@.len() == 0) ==> *final(rng) == *old(rng),
{
    crate::generate::generate_with_rng(length, charset, rng)
}

} // verus!
