use vstd::prelude::*;
use openssl::hash::MessageDigest;
use openssl::pkey::{PKey, Public};
use openssl::sign::{Signer, Verifier};
use crate::error::OtaErr;

verus! {

#[verifier::external_type_specification]
#[verifier::external_body]
#[verifier::reject_recursive_types(T)]
pub struct ExPKey<T>(openssl::pkey::PKey<T>);

#[verifier::external_type_specification]
#[verifier::external_body]
pub struct ExPublic(openssl::pkey::Public);

/// Relies on openssl's `PKey::public_key_from_pem`: parses a PEM-encoded public key.
/// Nothing is promised of which inputs parse. openssl asserts that the PEM buffer
/// fits in a C `int`.
#[verifier::external_body]
fn parse_public_key(pem: &[u8]) -> (r: Result<PKey<Public>, ()>)
    requires
        pem@.len() <= i32::MAX,
{
    match PKey::public_key_from_pem(pem) {
        Ok(key) => Ok(key),
        Err(_) => Err(()),
    }
}

/// Relies on openssl's `PKey::private_key_from_pem`, `Signer::new` with SHA-256,
/// `Signer::update` and `Signer::sign_to_vec`: a signature of `message` under the
/// PEM-encoded private key. Nothing is promised of the bytes, which may differ from
/// one call to the next with a randomized scheme. openssl asserts that the PEM buffer
/// fits in a C `int`.
#[verifier::external_body]
fn sign_sha256(private_key_pem: &[u8], message: &[u8]) -> (r: Result<Vec<u8>, ()>)
    requires
        private_key_pem@.len() <= i32::MAX,
{
    let key = match PKey::private_key_from_pem(private_key_pem) {
        Ok(key) => key,
        Err(_) => return Err(()),
    };
    let mut signer = match Signer::new(MessageDigest::sha256(), &key) {
        Ok(signer) => signer,
        Err(_) => return Err(()),
    };
    match signer.update(message) {
        Ok(()) => signer.sign_to_vec().map_err(|_| ()),
        Err(_) => Err(()),
    }
}

/// Relies on openssl's `Verifier::new` with SHA-256 and `Verifier::verify_oneshot`:
/// `Ok(true)` when the signature matches the payload under the key, `Ok(false)` when it
/// cleanly does not, `Err` when the verifier itself fails. Nothing is promised of which.
#[verifier::external_body]
fn verify_sha256(key: &PKey<Public>, signature: &[u8], payload: &[u8]) -> (r: Result<bool, ()>) {
    match Verifier::new(MessageDigest::sha256(), key) {
        Ok(mut verifier) => match verifier.verify_oneshot(signature, payload) {
            Ok(matched) => Ok(matched),
            Err(_) => Err(()),
        },
        Err(_) => Err(()),
    }
}

/// The firmware bytes of an artifact whose last `len` bytes are its signature.
pub open spec fn artifact_payload(content: Seq<u8>, len: nat) -> Seq<u8> {
    content.subrange(0, content.len() - len)
}

/// The signature trailer: the last `len` bytes of an artifact.
pub open spec fn artifact_trailer(content: Seq<u8>, len: nat) -> Seq<u8> {
    content.subrange(content.len() - len, content.len() as int)
}

/// The verdict for each outcome of the signature check.
pub open spec fn verdict(outcome: Result<bool, ()>) -> Result<(), OtaErr> {
    match outcome {
        Ok(true) => Ok(()),
        Ok(false) => Err(OtaErr::VerifyNotEqualErr),
        Err(_) => Err(OtaErr::VerifyErr),
    }
}

/// Copies `s[lo..hi]`.
fn copy_range(s: &[u8], lo: usize, hi: usize) -> (r: Vec<u8>)
    requires
        lo <= hi <= s@.len(),
    ensures
        r@ == s@.subrange(lo as int, hi as int),
{
    let mut r: Vec<u8> = Vec::new();
    let mut i: usize = lo;
    while i < hi
        invariant
            lo <= i <= hi <= s@.len(),
            r@ == s@.subrange(lo as int, i as int),
        decreases hi - i,
    {
        r.push(s[i]);
        i = i + 1;
        assert(r@ =~= s@.subrange(lo as int, i as int));
    }
    r
}

/// Splits an artifact into its payload and its `len`-byte signature trailer.
pub fn split_artifact(content: &[u8], len: usize) -> (r: (Vec<u8>, Vec<u8>))
    requires
        len <= content@.len(),
    ensures
        r.0@ == artifact_payload(content@, len as nat),
        r.1@ == artifact_trailer(content@, len as nat),
{
    let n = content.len();
    (copy_range(content, 0, n - len), copy_range(content, n - len, n))
}

/// An artifact made of `payload` followed by the signature block `signature`.
pub fn append_signature(payload: &[u8], signature: &[u8]) -> (r: Vec<u8>)
    requires
        payload@.len() + signature@.len() <= usize::MAX,
    ensures
        r@ == payload@ + signature@,
{
    let mut r = copy_range(payload, 0, payload.len());
    let mut i: usize = 0;
    while i < signature.len()
        invariant
            i <= signature@.len(),
            payload@.len() + signature@.len() <= usize::MAX,
            r@ == payload@ + signature@.subrange(0, i as int),
        decreases signature@.len() - i,
    {
        r.push(signature[i]);
        i = i + 1;
        assert(r@ =~= payload@ + signature@.subrange(0, i as int));
    }
    assert(signature@.subrange(0, signature@.len() as int) =~= signature@);
    r
}

/// Maps the outcome of the signature check to the pipeline's result: a match is
/// success, a clean mismatch `VerifyNotEqualErr`, a failure of the verifier `VerifyErr`.
pub fn classify_verification(outcome: Result<bool, ()>) -> (r: Result<(), OtaErr>)
    ensures
        r == verdict(outcome),
{
    match outcome {
        Ok(true) => Ok(()),
        Ok(false) => Err(OtaErr::VerifyNotEqualErr),
        Err(_) => Err(OtaErr::VerifyErr),
    }
}

/// Splitting an artifact built by appending a signature gives back the payload and
/// the signature.
pub proof fn lemma_split_after_append(payload: Seq<u8>, signature: Seq<u8>)
    ensures
        artifact_payload(payload + signature, signature.len()) == payload,
        artifact_trailer(payload + signature, signature.len()) == signature,
{
    assert(artifact_payload(payload + signature, signature.len()) =~= payload);
    assert(artifact_trailer(payload + signature, signature.len()) =~= signature);
}

/// Signs and verifies firmware artifacts with a stored public key.
pub struct DsaType {
    f_path: String,
    public_key: PKey<Public>,
}

impl DsaType {
    pub closed spec fn path(&self) -> Seq<char> {
        self.f_path@
    }

    /// A verifier for the artifact at `f_path` with the PEM-encoded public key;
    /// `VerifyErr` when the key is longer than a C `int` can count or does not parse.
    pub fn new(f_path: String, public_key_pem: &[u8]) -> (r: Result<Self, OtaErr>)
        ensures
            match r {
                Ok(d) => d.path() == f_path@,
                Err(e) => e == OtaErr::VerifyErr,
            },
            public_key_pem@.len() > i32::MAX ==> r is Err,
    {
        if public_key_pem.len() > i32::MAX as usize {
            return Err(OtaErr::VerifyErr);
        }
        match parse_public_key(public_key_pem) {
            Ok(public_key) => Ok(DsaType { f_path, public_key }),
            Err(()) => Err(OtaErr::VerifyErr),
        }
    }

    /// Where the artifact is stored.
    pub fn f_path(&self) -> (r: &String)
        ensures
            r@ == self.path(),
    {
        &self.f_path
    }

    /// Checks the artifact `content`, whose last `len` bytes are its signature, against
    /// the stored key. Returns the payload, which the caller writes back in place of
    /// the artifact whatever the verdict, and the verdict.
    pub fn verify(&self, content: &[u8], len: usize) -> (r: (Vec<u8>, Result<(), OtaErr>))
        requires
            len <= content@.len(),
        ensures
            r.0@ == artifact_payload(content@, len as nat),
            r.1 == Ok::<(), OtaErr>(()) || r.1 == Err::<(), OtaErr>(OtaErr::VerifyNotEqualErr)
                || r.1 == Err::<(), OtaErr>(OtaErr::VerifyErr),
    {
        let (payload, signature) = split_artifact(content, len);
        let outcome = verify_sha256(&self.public_key, signature.as_slice(), payload.as_slice());
        (payload, classify_verification(outcome))
    }

    /// Signs `message` with the PEM-encoded private key; `VerifyErr` when the key is
    /// longer than a C `int` can count, does not load, or signing fails.
    pub fn sign(&self, private_key_pem: &[u8], message: &[u8]) -> (r: Result<Vec<u8>, OtaErr>)
        ensures
            r is Err ==> r == Err::<Vec<u8>, OtaErr>(OtaErr::VerifyErr),
            private_key_pem@.len() > i32::MAX ==> r is Err,
    {
        if private_key_pem.len() > i32::MAX as usize {
            return Err(OtaErr::VerifyErr);
        }
        match sign_sha256(private_key_pem, message) {
            Ok(signature) => Ok(signature),
            Err(()) => Err(OtaErr::VerifyErr),
        }
    }

    /// The verification step of an update: signs the downloaded `content`, appends the
    /// signature and verifies the result. On success of the signing, returns the
    /// artifact to write back, which is `content` again with the trailer stripped, and
    /// the verdict; a signing failure leaves the artifact as it is.
    pub fn seal_and_verify(&self, private_key_pem: &[u8], content: &[u8]) -> (r: Result<
        (Vec<u8>, Result<(), OtaErr>),
        OtaErr,
    >)
        ensures
            match r {
                Ok((payload, _)) => payload@ == content@,
                Err(e) => e == OtaErr::VerifyErr,
            },
    {
        let signature = match self.sign(private_key_pem, content) {
            Ok(s) => s,
            Err(e) => return Err(e),
        };
        if content.len() > usize::MAX - signature.len() {
            return Err(OtaErr::VerifyErr);
        }
        let sealed = append_signature(content, signature.as_slice());
        proof {
            lemma_split_after_append(content@, signature@);
        }
        Ok(self.verify(sealed.as_slice(), signature.len()))
    }
}

} // verus!
