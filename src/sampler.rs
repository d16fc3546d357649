use rand::distributions::Uniform;
use rand::rngs::{OsRng, SmallRng, StdRng};
use rand::{Rng, SeedableRng};
use vstd::prelude::*;

verus! {

/// Why a string could not be generated.
#[derive(Debug, Clone, Copy, PartialEq, Eq, Structural)]
pub enum GenerateError {
    /// The charset holds no symbol, so no index can be drawn.
    InvalidArgument,
    /// The randomness source could not produce a value.
    SourceUnavailable,
}

/// The character that a byte symbol stands for in the output.
pub open spec fn symbol(b: u8) -> char {
    b as char
}

/// The string spelled by reading `charset` at each of `indices`.
pub open spec fn spelled(charset: Seq<u8>, indices: Seq<usize>) -> Seq<char> {
    indices.map_values(|i: usize| symbol(charset[i as int]))
}

/// `c` is the character of some symbol of `charset`.
pub open spec fn is_member(c: char, charset: Seq<u8>) -> bool {
    exists|j: int| 0 <= j < charset.len() && symbol(#[trigger] charset[j]) == c
}

/// Every index points into a charset of `n` symbols.
pub open spec fn indices_below(indices: Seq<usize>, n: nat) -> bool {
    forall|k: int| 0 <= k < indices.len() ==> (#[trigger] indices[k]) < n
}

/// `s` is a string of `length` symbols, each drawn by some index from `charset`.
pub open spec fn drawn_from(s: Seq<char>, length: nat, charset: Seq<u8>) -> bool {
    exists|indices: Seq<usize>|
        #![trigger indices_below(indices, charset.len())]
        indices.len() == length && indices_below(indices, charset.len()) && s == spelled(
            charset,
            indices,
        )
}

/// A generated string has exactly the requested number of symbols.
pub proof fn lemma_drawn_length(s: Seq<char>, length: nat, charset: Seq<u8>)
    requires
        drawn_from(s, length, charset),
    ensures
        s.len() == length,
{
    let indices = choose|indices: Seq<usize>|
        #![trigger indices_below(indices, charset.len())]
        indices.len() == length && indices_below(indices, charset.len()) && s == spelled(
            charset,
            indices,
        );
    assert(s.len() == indices.len());
}

/// Every symbol of a generated string is a member of the charset.
pub proof fn lemma_drawn_members(s: Seq<char>, length: nat, charset: Seq<u8>)
    requires
        drawn_from(s, length, charset),
    ensures
        forall|k: int| 0 <= k < s.len() ==> is_member(#[trigger] s[k], charset),
{
    let indices = choose|indices: Seq<usize>|
        #![trigger indices_below(indices, charset.len())]
        indices.len() == length && indices_below(indices, charset.len()) && s == spelled(
            charset,
            indices,
        );
    assert forall|k: int| 0 <= k < s.len() implies is_member(#[trigger] s[k], charset) by {
        let j = indices[k] as int;
        assert(0 <= j < charset.len());
        assert(symbol(charset[j]) == s[k]);
    }
}

/// Over a charset of one symbol, every position of a generated string is that
/// symbol.
pub proof fn lemma_single_symbol(s: Seq<char>, length: nat, charset: Seq<u8>)
    requires
        drawn_from(s, length, charset),
        charset.len() == 1,
    ensures
        s.len() == length,
        forall|k: int| 0 <= k < s.len() ==> #[trigger] s[k] == symbol(charset[0]),
{
    lemma_drawn_length(s, length, charset);
    lemma_drawn_members(s, length, charset);
    assert forall|k: int| 0 <= k < s.len() implies #[trigger] s[k] == symbol(charset[0]) by {
        assert(is_member(s[k], charset));
        let j = choose|j: int| 0 <= j < charset.len() && symbol(#[trigger] charset[j]) == s[k];
        assert(j == 0);
    }
}

/// A string of length zero is empty, whatever the charset.
pub proof fn lemma_zero_length_empty(s: Seq<char>, charset: Seq<u8>)
    requires
        drawn_from(s, 0, charset),
    ensures
        s == Seq::<char>::empty(),
{
    lemma_drawn_length(s, 0, charset);
    assert(s =~= Seq::<char>::empty());
}

/// Relies on String::push: appends one character at the end.
#[verifier::external_body]
fn push_char(s: &mut String, c: char)
    ensures
        final(s)@ == old(s)@.push(c),
{
    s.push(c);
}

/// Spells the string that reading `charset` at each of `indices` gives.
pub fn select_symbols(charset: &[u8], indices: &Vec<usize>) -> (r: String)
    requires
        indices_below(indices@, charset@.len()),
    ensures
        r@ == spelled(charset@, indices@),
{
    let mut out = String::new();
    let mut k: usize = 0;
    while k < indices.len()
        invariant
            k <= indices@.len(),
            indices_below(indices@, charset@.len()),
            out@ == spelled(charset@, indices@.subrange(0, k as int)),
        decreases indices@.len() - k,
    {
        let b = charset[indices[k]];
        push_char(&mut out, b as char);
        proof {
            assert(indices@.subrange(0, k + 1) == indices@.subrange(0, k as int).push(indices@[k as int]));
        }
        k = k + 1;
    }
    assert(indices@.subrange(0, k as int) == indices@);
    out
}


/// A source of integers drawn uniformly from a range `[0, bound)`.
///
/// The library implements it for rand's `SmallRng`, `StdRng` and `OsRng`; a
/// caller with another generator implements it for that generator.
pub trait UniformSource {
    /// Draws one index below `bound`, or `None` when the source cannot
    /// produce a value.
    fn draw_below(&mut self, bound: usize) -> (r: Option<usize>)
        requires
            bound > 0,
        ensures
            r matches Some(v) ==> v < bound,
    ;
}

#[verifier::external_type_specification]
#[verifier::external_body]
pub struct ExSmallRng(SmallRng);

#[verifier::external_type_specification]
#[verifier::external_body]
pub struct ExStdRng(StdRng);

#[verifier::external_type_specification]
#[verifier::external_body]
pub struct ExOsRng(OsRng);

/// Relies on the derived Default of OsRng: a handle to the operating system's
/// source, which holds no state.
pub assume_specification[ <OsRng as core::default::Default>::default ]() -> OsRng;

#[verifier::external_type_specification]
#[verifier::external_body]
pub struct ExRandError(rand::Error);

/// Relies on SeedableRng::from_rng with OsRng: a SmallRng seeded from the
/// operating system's source, or the error that source reported.
#[verifier::external_body]
pub(crate) fn small_rng_from_os() -> (r: Result<SmallRng, rand::Error>) {
    SmallRng::from_rng(OsRng)
}

/// Relies on SeedableRng::from_rng with OsRng: a StdRng seeded from the
/// operating system's source, or the error that source reported.
#[verifier::external_body]
pub(crate) fn std_rng_from_os() -> (r: Result<StdRng, rand::Error>) {
    StdRng::from_rng(OsRng)
}

/// Relies on rand's Uniform::new(0, bound), which panics only when `bound` is 0,
/// and on Uniform::sample with SmallRng, which returns a value in `[0, bound)`.
#[verifier::external_body]
fn small_sample_below(rng: &mut SmallRng, bound: usize) -> (r: usize)
    requires
        bound > 0,
    ensures
        r < bound,
{
    rng.sample(Uniform::new(0, bound))
}

/// Relies on rand's Uniform::new(0, bound), which panics only when `bound` is 0,
/// and on Uniform::sample with StdRng, which returns a value in `[0, bound)`.
#[verifier::external_body]
fn std_sample_below(rng: &mut StdRng, bound: usize) -> (r: usize)
    requires
        bound > 0,
    ensures
        r < bound,
{
    rng.sample(Uniform::new(0, bound))
}

impl UniformSource for SmallRng {
    fn draw_below(&mut self, bound: usize) -> (r: Option<usize>) {
        Some(small_sample_below(self, bound))
    }
}

impl UniformSource for StdRng {
    fn draw_below(&mut self, bound: usize) -> (r: Option<usize>) {
        Some(std_sample_below(self, bound))
    }
}

/// Each draw reads fresh bytes from the operating system's source, through a
/// call that reports failure, and expands them with a cryptographically
/// secure generator.
impl UniformSource for OsRng {
    fn draw_below(&mut self, bound: usize) -> (r: Option<usize>) {
        match std_rng_from_os() {
            Ok(mut g) => Some(std_sample_below(&mut g, bound)),
            Err(_) => None,
        }
    }
}

} // verus!
