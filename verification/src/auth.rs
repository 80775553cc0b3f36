//! The authentication gate: the first message of a connection is a credential
//! payload of the form `Basic <base64 of username:password>`.

use vstd::prelude::*;
use vstd::slice::slice_subrange;
use vstd::string::StrSliceExecFns;
use vstd::string::StringSliceAdditionalSpecFns;

verus! {

/// The bytes that the standard base64 alphabet with canonical padding decodes
/// `input` to, or `None` where `input` is not such an encoding.
pub uninterp spec fn base64_standard_decode(input: Seq<u8>) -> Option<Seq<u8>>;

/// The error of the `base64` crate's decoding. Nothing of it is read here: a
/// payload that does not decode is refused, whatever the reason.
#[verifier::external_type_specification]
#[verifier::external_body]
pub struct ExDecodeError(base64::DecodeError);

/// Calls `Engine::decode` of the `base64` crate on its `STANDARD` engine. The
/// result is a function of the input bytes alone and the call does not panic;
/// the result is named [`base64_standard_decode`] and nothing more is claimed
/// of it.
#[verifier::external_body]
fn decode_standard(input: &[u8]) -> (decoded: Result<Vec<u8>, base64::DecodeError>)
    ensures
        decoded is Ok <==> base64_standard_decode(input@) is Some,
        decoded matches Ok(bytes) ==> base64_standard_decode(input@) == Some(bytes@),
{
    base64::Engine::decode(&base64::engine::general_purpose::STANDARD, input)
}

/// The six bytes of `Basic ` that open a credential payload.
pub open spec fn basic_prefix() -> Seq<u8> {
    seq![66u8, 97u8, 115u8, 105u8, 99u8, 32u8]
}

/// The byte of `:` that parts username and password.
pub open spec fn colon() -> u8 {
    58u8
}

pub open spec fn spec_has_basic_prefix(payload: Seq<u8>) -> bool {
    payload.len() >= 6 && payload.subrange(0, 6) == basic_prefix()
}

/// `decoded` splits at `:` into exactly two parts, the username and the password.
pub open spec fn spec_credential_matches(
    decoded: Seq<u8>,
    username: Seq<u8>,
    password: Seq<u8>,
) -> bool {
    &&& decoded == username + seq![colon()] + password
    &&& !username.contains(colon())
    &&& !password.contains(colon())
}

pub fn has_basic_prefix(payload: &[u8]) -> (r: bool)
    ensures
        r == spec_has_basic_prefix(payload@),
{
    if payload.len() < 6 {
        return false;
    }
    let ok = payload[0] == 66u8 && payload[1] == 97u8 && payload[2] == 115u8 && payload[3] == 105u8
        && payload[4] == 99u8 && payload[5] == 32u8;
    proof {
        let head = payload@.subrange(0, 6);
        if ok {
            assert(head =~= basic_prefix());
        } else {
            assert(head[0] == payload@[0] && head[1] == payload@[1] && head[2] == payload@[2]);
            assert(head[3] == payload@[3] && head[4] == payload@[4] && head[5] == payload@[5]);
        }
    }
    ok
}

/// The verdict on a credential.
#[derive(Clone, Copy, Debug, PartialEq, Eq, Structural)]
pub enum AuthOutcome {
    Authenticated,
    Unauthorized,
}

fn contains_colon(bytes: &[u8]) -> (r: bool)
    ensures
        r == bytes@.contains(colon()),
{
    let mut i: usize = 0;
    while i < bytes.len()
        invariant
            i <= bytes.len(),
            forall|k: int| 0 <= k < i ==> bytes@[k] != colon(),
        decreases bytes.len() - i,
    {
        if bytes[i] == 58u8 {
            return true;
        }
        i = i + 1;
    }
    false
}

/// Whether `left[from..from + right.len()]` holds the bytes of `right`.
fn holds_at(left: &[u8], from: usize, right: &[u8]) -> (r: bool)
    requires
        from + right.len() <= left.len(),
    ensures
        r == (left@.subrange(from as int, from + right.len()) == right@),
{
    let mut i: usize = 0;
    while i < right.len()
        invariant
            i <= right.len(),
            from + right.len() <= left.len(),
            forall|k: int| 0 <= k < i ==> left@[from + k] == right@[k],
        decreases right.len() - i,
    {
        if left[from + i] != right[i] {
            proof {
                let part = left@.subrange(from as int, from + right.len());
                assert(part[i as int] == left@[from + i]);
            }
            return false;
        }
        i = i + 1;
    }
    proof {
        assert(left@.subrange(from as int, from + right.len()) =~= right@);
    }
    true
}

/// Tells whether the decoded credential is the username, one `:` and the
/// password, neither of which holds a `:` itself.
pub fn credential_matches(decoded: &[u8], username: &[u8], password: &[u8]) -> (r: bool)
    ensures
        r == spec_credential_matches(decoded@, username@, password@),
{
    let ghost expected = username@ + seq![colon()] + password@;
    if contains_colon(username) || contains_colon(password) {
        return false;
    }
    if decoded.len() < username.len() {
        assert(decoded@.len() != expected.len());
        return false;
    }
    let rest: usize = decoded.len() - username.len();
    if rest == 0 || rest - 1 != password.len() {
        assert(decoded@.len() != expected.len());
        return false;
    }
    let at: usize = username.len();
    assert(decoded@.len() == expected.len());
    if decoded[at] != 58u8 {
        assert(expected[at as int] == colon());
        return false;
    }
    let same_user = holds_at(decoded, 0, username);
    let same_pass = holds_at(decoded, at + 1, password);
    proof {
        if same_user && same_pass {
            assert(decoded@ =~= expected);
        } else {
            assert(expected.subrange(0, at as int) =~= username@);
            assert(expected.subrange(at + 1, at + 1 + password@.len()) =~= password@);
        }
    }
    same_user && same_pass
}

/// The credential check of one deployment: the pair that a payload must carry.
pub struct AuthGate {
    username: Vec<u8>,
    password: Vec<u8>,
}

impl AuthGate {
    /// The bytes of the expected username.
    pub closed spec fn username(&self) -> Seq<u8> {
        self.username@
    }

    /// The bytes of the expected password.
    pub closed spec fn password(&self) -> Seq<u8> {
        self.password@
    }

    /// The payloads that pass: `Basic `, then text whose base64 decoding is the
    /// username, a `:` and the password.
    pub open spec fn accepts(&self, payload: Seq<u8>) -> bool {
        &&& spec_has_basic_prefix(payload)
        &&& base64_standard_decode(payload.skip(6)) matches Some(decoded)
        &&& spec_credential_matches(decoded, self.username(), self.password())
    }

    /// A gate for the given credential pair.
    pub fn new(username: &str, password: &str) -> (gate: AuthGate)
        ensures
            gate.username() == username.spec_bytes(),
            gate.password() == password.spec_bytes(),
    {
        AuthGate { username: username.as_bytes_vec(), password: password.as_bytes_vec() }
    }

    /// The verdict on a credential once its base64 text was decoded:
    /// `decoded` is the outcome of that decoding, `None` where it failed.
    pub fn judge(&self, decoded: Option<&[u8]>) -> (outcome: AuthOutcome)
        ensures
            outcome is Authenticated <==> (decoded matches Some(bytes)
                && spec_credential_matches(bytes@, self.username(), self.password())),
    {
        match decoded {
            Some(bytes) => {
                if credential_matches(bytes, self.username.as_slice(), self.password.as_slice()) {
                    AuthOutcome::Authenticated
                } else {
                    AuthOutcome::Unauthorized
                }
            },
            None => AuthOutcome::Unauthorized,
        }
    }

    /// Checks the first message of a connection. It passes exactly when
    /// [`AuthGate::accepts`] holds of its bytes; there is no other outcome.
    pub fn check(&self, payload: &str) -> (outcome: AuthOutcome)
        ensures
            outcome is Authenticated <==> self.accepts(payload.spec_bytes()),
    {
        let bytes = payload.as_bytes();
        if !has_basic_prefix(bytes) {
            return AuthOutcome::Unauthorized;
        }
        let encoded = slice_subrange(bytes, 6, bytes.len());
        assert(encoded@ == bytes@.skip(6));
        match decode_standard(encoded) {
            Ok(decoded) => self.judge(Some(decoded.as_slice())),
            Err(_) => self.judge(None),
        }
    }
}

/// The reply text that a refused credential gets.
pub open spec fn unauthorized_text() -> Seq<char> {
    "Unauthorized"@
}

/// The payloads that [`authenticate_basic`] lets pass: those of the pair
/// `admin` and `password`.
pub open spec fn basic_accepts(payload: Seq<u8>) -> bool {
    &&& spec_has_basic_prefix(payload)
    &&& base64_standard_decode(payload.skip(6)) matches Some(decoded)
    &&& spec_credential_matches(decoded, "admin".spec_bytes(), "password".spec_bytes())
}

/// Checks a credential payload against the built-in pair. `Ok` exactly on the
/// payloads of [`basic_accepts`]; every other payload gets `Unauthorized`.
pub fn authenticate_basic(auth_str: &str) -> (r: Result<(), String>)
    ensures
        r is Ok <==> basic_accepts(auth_str.spec_bytes()),
        r matches Err(text) ==> text@ == unauthorized_text(),
{
    let gate = AuthGate::new("admin", "password");
    match gate.check(auth_str) {
        AuthOutcome::Authenticated => Ok(()),
        AuthOutcome::Unauthorized => Err("Unauthorized".to_owned()),
    }
}

} // verus!
