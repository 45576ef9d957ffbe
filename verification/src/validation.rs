use vstd::prelude::*;

verus! {

/// Whether a string is a well-formed email address, as the `validator`
/// crate's HTML5-style check decides it. The result depends on the
/// characters of the string alone.
pub uninterp spec fn email_ok(s: Seq<char>) -> bool;

/// Relies on `validator::ValidateEmail::validate_email` for `String`: the
/// HTML5 email shape check. Its source rejects the empty string and any
/// string without an `@` outright.
#[verifier::external_body]
pub(crate) fn is_valid_email(s: &String) -> (r: bool)
    ensures
        r == email_ok(s@),
        s@.len() == 0 ==> !r,
        !s@.contains('@') ==> !r,
{
    validator::ValidateEmail::validate_email(s)
}

} // verus!
