//! A signing capability with backend-chosen error types. A backend that
//! cannot fail declares its error type as [`Never`], so callers see
//! infallibility in the type and in the contract; a hardware-module backend
//! keeps a real error enum.

use vstd::prelude::*;

use crate::coroutine::Never;

verus! {

/// A signing and verification capability. Each backend fixes what its
/// operations return through the two model functions, and the executable
/// operations are bound to those models.
pub trait CryptoBackend {
    type SignError;

    type VerifyError;

    /// What `sign` returns for the given data.
    spec fn sign_model(&self, data: Seq<u8>) -> Result<Seq<u8>, Self::SignError>;

    /// What `verify` returns for the given data and signature.
    spec fn verify_model(&self, data: Seq<u8>, sig: Seq<u8>) -> Result<bool, Self::VerifyError>;

    fn sign(&self, data: &[u8]) -> (r: Result<Vec<u8>, Self::SignError>)
        ensures
            match r {
                Ok(sig) => self.sign_model(data@) == Ok::<Seq<u8>, Self::SignError>(sig@),
                Err(e) => self.sign_model(data@) == Err::<Seq<u8>, Self::SignError>(e),
            },
    ;

    fn verify(&self, data: &[u8], sig: &[u8]) -> (r: Result<bool, Self::VerifyError>)
        ensures
            match r {
                Ok(valid) => self.verify_model(data@, sig@) == Ok::<bool, Self::VerifyError>(
                    valid,
                ),
                Err(e) => self.verify_model(data@, sig@) == Err::<bool, Self::VerifyError>(e),
            },
    ;
}

/// A key held in memory. Signing and verification cannot fail, and both
/// error types say so.
pub struct InMemoryKeys {
    private_key: [u8; 32],
}

impl InMemoryKeys {
    pub fn new(private_key: [u8; 32]) -> (r: InMemoryKeys) {
        InMemoryKeys { private_key }
    }

    /// The signature this stand-in backend produces for any data.
    fn do_sign(&self, _data: &[u8]) -> (sig: Vec<u8>)
        ensures
            sig@ == seq![0x42u8, 0x24u8],
    {
        let mut sig: Vec<u8> = Vec::new();
        sig.push(0x42);
        sig.push(0x24);
        proof {
            assert(sig@ =~= seq![0x42u8, 0x24u8]);
        }
        sig
    }
}

impl CryptoBackend for InMemoryKeys {
    /// Signing cannot fail.
    type SignError = Never;

    /// Verification cannot fail.
    type VerifyError = Never;

    open spec fn sign_model(&self, data: Seq<u8>) -> Result<Seq<u8>, Never> {
        Ok(seq![0x42u8, 0x24u8])
    }

    open spec fn verify_model(&self, data: Seq<u8>, sig: Seq<u8>) -> Result<bool, Never> {
        Ok(true)
    }

    fn sign(&self, data: &[u8]) -> (r: Result<Vec<u8>, Never>) {
        Ok(self.do_sign(data))
    }

    fn verify(&self, _data: &[u8], _sig: &[u8]) -> (r: Result<bool, Never>) {
        Ok(true)
    }
}

/// A hardware security module, reachable over a device channel that can
/// fail; its operations carry a real error type.
pub struct HsmBackend {
    device_id: String,
}

impl HsmBackend {
    pub fn new(device_id: String) -> (r: HsmBackend) {
        HsmBackend { device_id }
    }
}

#[derive(Debug, Clone, Copy, PartialEq, Eq, Structural)]
pub enum HsmError {
    DeviceNotFound,
    OperationFailed,
    Timeout,
}

impl CryptoBackend for HsmBackend {
    type SignError = HsmError;

    type VerifyError = HsmError;

    open spec fn sign_model(&self, data: Seq<u8>) -> Result<Seq<u8>, HsmError> {
        Ok(seq![0x12u8, 0x34u8])
    }

    open spec fn verify_model(&self, data: Seq<u8>, sig: Seq<u8>) -> Result<bool, HsmError> {
        Ok(true)
    }

    fn sign(&self, _data: &[u8]) -> (r: Result<Vec<u8>, HsmError>) {
        let mut sig: Vec<u8> = Vec::new();
        sig.push(0x12);
        sig.push(0x34);
        proof {
            assert(sig@ =~= seq![0x12u8, 0x34u8]);
        }
        Ok(sig)
    }

    fn verify(&self, _data: &[u8], _sig: &[u8]) -> (r: Result<bool, HsmError>) {
        Ok(true)
    }
}

/// Sign a document with whichever backend is at hand; the result is exactly
/// what the backend's model promises, and a backend whose error type is
/// `Never` can be seen to never fail.
pub fn sign_document<B: CryptoBackend>(backend: &B, document: &[u8]) -> (r: Result<
    Vec<u8>,
    B::SignError,
>)
    ensures
        match r {
            Ok(sig) => backend.sign_model(document@) == Ok::<Seq<u8>, B::SignError>(sig@),
            Err(e) => backend.sign_model(document@) == Err::<Seq<u8>, B::SignError>(e),
        },
{
    backend.sign(document)
}

} // verus!
