//! The credential check: one shared password, kept as its SHA-256 digest.

use vstd::prelude::*;

verus! {

/// The lowercase hexadecimal SHA-256 digest of the UTF-8 bytes of a text.
pub uninterp spec fn sha256_hex(input: Seq<char>) -> Seq<char>;

/// Hashes a password with `sha256::digest`, which feeds the UTF-8 bytes of
/// the text to SHA-256 and hex-encodes the 32 bytes that come out. The
/// result depends on the text alone; that is all this contract claims.
#[verifier::external_body]
fn digest(input: &str) -> (hex: String)
    ensures
        hex@ == sha256_hex(input@),
{
    sha256::digest(input)
}

/// The body of a login request.
#[derive(Debug)]
pub struct Login {
    pub password: String,
}

/// The body of a change-password request.
#[derive(Debug)]
pub struct ChangePassword {
    pub old_password: String,
    pub new_password: String,
}

impl Clone for Login {
    fn clone(&self) -> (copy: Self)
        ensures
            copy.password@ == self.password@,
    {
        Login { password: self.password.clone() }
    }
}

impl Clone for ChangePassword {
    fn clone(&self) -> (copy: Self)
        ensures
            copy.old_password@ == self.old_password@,
            copy.new_password@ == self.new_password@,
    {
        ChangePassword {
            old_password: self.old_password.clone(),
            new_password: self.new_password.clone(),
        }
    }
}

/// The stored credential. Its value is the digest it holds.
#[derive(Debug)]
pub struct Credential {
    hash: String,
}

impl View for Credential {
    type V = Seq<char>;

    closed spec fn view(&self) -> Seq<char> {
        self.hash@
    }
}

impl Credential {
    /// The credential of a freshly initialised store: the digest of the
    /// default password, `password`.
    pub open spec fn initial_hash() -> Seq<char> {
        sha256_hex("password"@)
    }

    /// Creates the credential that a freshly initialised store holds.
    pub fn initial() -> (credential: Credential)
        ensures
            credential@ == Self::initial_hash(),
    {
        Credential { hash: digest("password") }
    }

    /// Wraps a digest that was read from the store.
    pub fn from_hash(hash: String) -> (credential: Credential)
        ensures
            credential@ == hash@,
    {
        Credential { hash }
    }

    /// The stored digest.
    pub fn hash(&self) -> (hash: &String)
        ensures
            hash@ == self@,
    {
        &self.hash
    }

    /// Compares a candidate's digest with the stored one.
    pub fn accepts(&self, candidate_digest: &String) -> (accepted: bool)
        ensures
            accepted == (candidate_digest@ == self@),
    {
        self.hash == *candidate_digest
    }

    /// Replaces the stored digest by `new_digest` if `old_digest` is the
    /// stored one, and says whether it did. A mismatch changes nothing.
    pub fn rotate(&mut self, old_digest: &String, new_digest: String) -> (changed: bool)
        ensures
            changed == (old_digest@ == old(self)@),
            final(self)@ == if changed {
                new_digest@
            } else {
                old(self)@
            },
    {
        if self.accepts(old_digest) {
            self.hash = new_digest;
            true
        } else {
            false
        }
    }

    /// Whether a store that holds the digest `stored` takes `candidate`
    /// for the password.
    pub open spec fn admits(stored: Seq<char>, candidate: Seq<char>) -> bool {
        sha256_hex(candidate) == stored
    }

    /// The digest that a store holds after a request to change the
    /// password from `old_password` to `new_password`.
    pub open spec fn after_change(
        stored: Seq<char>,
        old_password: Seq<char>,
        new_password: Seq<char>,
    ) -> Seq<char> {
        if Self::admits(stored, old_password) {
            sha256_hex(new_password)
        } else {
            stored
        }
    }

    /// Whether `candidate` is the current password. A wrong password is
    /// an ordinary `false`, never a failure.
    pub fn authenticate(&self, candidate: &str) -> (accepted: bool)
        ensures
            accepted == Self::admits(self@, candidate@),
    {
        let candidate_digest = digest(candidate);
        self.accepts(&candidate_digest)
    }

    /// Sets the password to `new_password` if `old_password` is the
    /// current one, and says whether it did. A wrong old password changes
    /// nothing.
    pub fn change_password(&mut self, old_password: &str, new_password: &str) -> (changed: bool)
        ensures
            changed == Self::admits(old(self)@, old_password@),
            final(self)@ == Self::after_change(old(self)@, old_password@, new_password@),
    {
        let old_digest = digest(old_password);
        let new_digest = digest(new_password);
        self.rotate(&old_digest, new_digest)
    }
}

/// A change with a wrong old password is refused and leaves the credential as
/// it was: a password that did not log in before does not log in after.
pub proof fn refused_change_keeps_password(
    stored: Seq<char>,
    old_password: Seq<char>,
    new_password: Seq<char>,
)
    requires
        !Credential::admits(stored, old_password),
        !Credential::admits(stored, new_password),
    ensures
        Credential::after_change(stored, old_password, new_password) == stored,
        !Credential::admits(
            Credential::after_change(stored, old_password, new_password),
            new_password,
        ),
{
}

/// After a change with the right old password, the new password is the
/// one that logs in.
pub proof fn accepted_change_admits_new_password(
    stored: Seq<char>,
    old_password: Seq<char>,
    new_password: Seq<char>,
)
    requires
        Credential::admits(stored, old_password),
    ensures
        Credential::admits(
            Credential::after_change(stored, old_password, new_password),
            new_password,
        ),
{
}

} // verus!
