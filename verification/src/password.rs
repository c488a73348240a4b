use vstd::prelude::*;
use vstd::string::StrSliceExecFns;

verus! {

/// The outcome of pwhash's bcrypt verification on a candidate password and a
/// stored hash string. It is deterministic in both arguments: the salt, cost
/// and variant are read back out of the hash string itself.
pub uninterp spec fn bcrypt_verifies(pass: Seq<char>, hash: Seq<char>) -> bool;

/// Whether every character of a string is printable ASCII, space through
/// tilde. Every hash the scheme emits is; a stored string that is not fails
/// verification closed, without reaching the scheme's decoder.
pub open spec fn printable_ascii(s: Seq<char>) -> bool {
    forall|i: int|
        0 <= i < s.len() ==> 0x20 <= (#[trigger] s[i]) as u32 && s[i] as u32 <= 0x7e
}

/// Whether a candidate password verifies against a stored hash string: the
/// hash is printable ASCII — anything else fails closed — and bcrypt's
/// verification accepts the pair.
pub open spec fn password_matches(pass: Seq<char>, hash: Seq<char>) -> bool {
    printable_ascii(hash) && bcrypt_verifies(pass, hash)
}

/// Relies on pwhash::bcrypt::verify: it re-hashes `pass` with the salt, cost
/// and variant parsed from `hash` and compares in constant time, so the
/// outcome is a function of the two arguments alone; malformed fields yield
/// false rather than an error. Characters outside printable ASCII are kept
/// out by the precondition: the scheme's base64 decoder subtracts the space
/// character and indexes a 96-byte table, so a lower character or the code
/// point right past the table's reach would panic instead of failing.
#[verifier::external_body]
fn bcrypt_verify(pass: &str, hash: &str) -> (r: bool)
    requires
        printable_ascii(hash@),
    ensures
        r == bcrypt_verifies(pass@, hash@),
{
    pwhash::bcrypt::verify(pass, hash)
}

/// Relies on pwhash::bcrypt::hash: the salt is drawn fresh from the system's
/// random source on every call, so two hashes of one password differ, but any
/// hash it returns verifies against the password it was made from (over-long
/// passwords are truncated the same way on both sides). Per the source the
/// bcrypt scheme has no error path of its own — the error type serves the
/// crate's other schemes — so the result is always Ok: a printable-ASCII
/// string in bcrypt format. The one failure left is a panic, should the
/// system's random source itself fail.
#[verifier::external_body]
fn bcrypt_hash(pass: &str) -> (r: Result<String, String>)
    ensures
        r is Ok,
        r matches Ok(h) ==> bcrypt_verifies(pass@, h@) && printable_ascii(h@),
{
    pwhash::bcrypt::hash(pass).map_err(|err| err.to_string())
}

/// Check a credential pair at registration: the password must equal its
/// repeated confirmation and be at least four characters long. The accepted
/// password comes back unchanged; each failure carries its own message.
pub fn check_password_is_valid_when_register(
    password: String,
    repeated_password: String,
) -> (r: Result<String, String>)
    ensures
        r is Ok <==> (password@ == repeated_password@ && password@.len() >= 4),
        r matches Ok(p) ==> p@ == password@,
        password@ != repeated_password@ ==> (r matches Err(m) && m@ == "Passwords must be the same"@),
        password@ == repeated_password@ && password@.len() < 4 ==> (r matches Err(m) && m@
            == "Password must contain at least 4 characters"@),
{
    if password != repeated_password {
        return Err("Passwords must be the same".to_owned());
    }
    if password.as_str().unicode_len() < 4 {
        return Err("Password must contain at least 4 characters".to_owned());
    }
    Ok(password)
}

/// Hash a credential for storage. The output is salted and not reproducible
/// across calls; the hash handed back always verifies against `password`.
pub fn hash_password(password: String) -> (r: Result<String, String>)
    ensures
        r is Ok,
        r matches Ok(h) ==> password_matches(password@, h@),
{
    bcrypt_hash(password.as_str())
}

/// Check a candidate password against a stored bcrypt hash. There is no
/// error path: any mismatch, any malformed or non-printable hash, any
/// algorithm fault is false.
pub fn is_password_valid_with_hashed_password(password: String, hashed_password: String) -> (r:
    bool)
    ensures
        r == password_matches(password@, hashed_password@),
{
    let n = hashed_password.as_str().unicode_len();
    let mut i: usize = 0;
    while i < n
        invariant
            i <= n,
            n == hashed_password@.len(),
            forall|j: int|
                0 <= j < i ==> 0x20 <= (#[trigger] hashed_password@[j]) as u32
                    && hashed_password@[j] as u32 <= 0x7e,
        decreases n - i,
    {
        let c: u32 = hashed_password.as_str().get_char(i) as u32;
        if c < 0x20 || c > 0x7e {
            proof {
                assert(!printable_ascii(hashed_password@));
            }
            return false;
        }
        i += 1;
    }
    proof {
        assert(printable_ascii(hashed_password@));
    }
    bcrypt_verify(password.as_str(), hashed_password.as_str())
}

} // verus!
