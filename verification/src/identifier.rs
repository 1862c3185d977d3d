//! Folder identifiers: sixteen symbols of a sixteen-symbol alphabet, drawn at
//! random until one is found that is not yet in use.

use vstd::prelude::*;

verus! {

/// Number of characters in a folder identifier.
pub const URI_LENGTH: usize = 16;

/// How many candidates are drawn before the generator gives up.
pub const MAX_ATTEMPTS: usize = 1000;

/// Why no identifier was produced.
#[derive(Clone, Copy, Debug, PartialEq, Eq, Structural)]
pub enum GenerateError {
    /// Every candidate drawn was already in use.
    Exhausted,
}

/// The alphabet of identifiers: `a` to `f` and the ten digits.
pub open spec fn in_alphabet(c: char) -> bool {
    ('a' <= c <= 'f') || ('0' <= c <= '9')
}

/// A well-formed identifier: sixteen characters, all of the alphabet.
pub open spec fn is_identifier(s: Seq<char>) -> bool {
    &&& s.len() == URI_LENGTH
    &&& forall|i: int| 0 <= i < s.len() ==> in_alphabet(#[trigger] s[i])
}

/// `s` is the text of one of `uris`.
pub open spec fn in_use(uris: Seq<&String>, s: Seq<char>) -> bool {
    exists|i: int| 0 <= i < uris.len() && (#[trigger] uris[i])@ == s
}

/// Trusted: `random_string::generate`. The claim is what its source shows of
/// every outcome: the string has `length` characters and each of them occurs
/// in `charset`. Which ones is left open, so two calls may differ. An empty
/// charset is kept out because the outside function panics on it; the bound
/// on `length` keeps the string within what an allocation may hold.
#[verifier::external_body]
fn random_text(length: usize, charset: &str) -> (r: String)
    requires
        charset@.len() > 0,
        4 * length <= isize::MAX,
    ensures
        r@.len() == length,
        forall|i: int| 0 <= i < r@.len() ==> charset@.contains(#[trigger] r@[i]),
{
    random_string::generate(length, charset)
}

/// Whether `candidate` is the text of one of `uris`.
pub fn is_in_use(uris: &Vec<&String>, candidate: &String) -> (b: bool)
    ensures
        b == in_use(uris@, candidate@),
{
    let mut i: usize = 0;
    while i < uris.len()
        invariant
            i <= uris@.len(),
            forall|j: int| 0 <= j < i ==> (#[trigger] uris@[j])@ != candidate@,
        decreases uris@.len() - i,
    {
        if *uris[i] == *candidate {
            return true;
        }
        i += 1;
    }
    false
}

/// Draws one candidate identifier at random.
pub fn draw_candidate() -> (r: String)
    ensures
        is_identifier(r@),
{
    let charset = "abcdef1234567890";
    proof {
        reveal_strlit("abcdef1234567890");
    }
    let r = random_text(URI_LENGTH, charset);
    assert forall|i: int| 0 <= i < r@.len() implies in_alphabet(#[trigger] r@[i]) by {
        let c = r@[i];
        let k = choose|k: int| 0 <= k < charset@.len() && charset@[k] == c;
        assert(in_alphabet(charset@[k]));
    }
    r
}

/// Some member of `uris` is itself a well-formed identifier.
pub open spec fn holds_identifier(uris: Seq<&String>) -> bool {
    exists|i: int| 0 <= i < uris.len() && is_identifier((#[trigger] uris[i])@)
}

/// A fresh folder identifier, found in at most `attempts` draws.
///
/// The draw is random, so the outcome is not a function of the arguments.
/// What is certain: an identifier that comes back is well-formed and not
/// in use; without a draw there is none; and a draw can only be wasted on a
/// member of `uris` that is itself a well-formed identifier.
pub fn generate_within(uris: Vec<&String>, attempts: usize) -> (r: Result<String, GenerateError>)
    ensures
        match r {
            Ok(id) => attempts > 0 && is_identifier(id@) && !in_use(uris@, id@),
            Err(e) => e == GenerateError::Exhausted && (attempts == 0 || holds_identifier(uris@)),
        },
{
    let mut drawn: usize = 0;
    let ghost mut hit: int = 0;
    while drawn < attempts
        invariant
            drawn <= attempts,
            drawn > 0 ==> 0 <= hit < uris@.len() && is_identifier(uris@[hit]@),
        decreases attempts - drawn,
    {
        let candidate = draw_candidate();
        if !is_in_use(&uris, &candidate) {
            return Ok(candidate);
        }
        proof {
            hit = choose|i: int| 0 <= i < uris@.len() && (#[trigger] uris@[i])@ == candidate@;
        }
        drawn += 1;
    }
    Err(GenerateError::Exhausted)
}

/// A fresh folder identifier: well-formed and not the text of any of `uris`.
///
/// Candidates are drawn until one is free, at most `MAX_ATTEMPTS` times. The
/// generator can only give up if some member of `uris` is itself a
/// well-formed identifier, because each rejected candidate was one.
pub fn generate_folder_uri(uris: Vec<&String>) -> (r: Result<String, GenerateError>)
    ensures
        match r {
            Ok(id) => is_identifier(id@) && !in_use(uris@, id@),
            Err(e) => e == GenerateError::Exhausted && holds_identifier(uris@),
        },
{
    generate_within(uris, MAX_ATTEMPTS)
}

} // verus!
