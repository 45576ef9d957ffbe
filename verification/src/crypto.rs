use vstd::prelude::*;

verus! {

/// Whether `bcrypt::verify(password, digest)` returns `Ok(true)`: the digest
/// embeds its own salt and cost, so the outcome is a function of the
/// password and the digest alone. A digest that `verify` cannot parse
/// matches no password.
pub uninterp spec fn bcrypt_matches(password: Seq<char>, digest: Seq<char>) -> bool;

/// Relies on `bcrypt::hash`: a fresh random salt is drawn and the produced
/// digest verifies against the hashed password. Fails when the cost is
/// outside the crate's accepted range or the salt cannot be drawn.
#[verifier::external_body]
pub(crate) fn hash_password(password: &String, cost: u32) -> (r: Option<String>)
    ensures
        r matches Some(d) ==> bcrypt_matches(password@, d@),
{
    bcrypt::hash(password, cost).ok()
}

/// Relies on `bcrypt::verify`: recomputes the digest with the salt and cost
/// embedded in `digest` and compares. `None` reports a digest that could
/// not be parsed, which matches no password.
#[verifier::external_body]
pub(crate) fn verify_password(password: &String, digest: &String) -> (r: Option<bool>)
    ensures
        r matches Some(b) ==> b == bcrypt_matches(password@, digest@),
        r is None ==> !bcrypt_matches(password@, digest@),
{
    bcrypt::verify(password, digest).ok()
}

} // verus!
