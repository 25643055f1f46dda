//! Certificate pinning: when a server certificate file is configured, a TLS
//! peer is trusted exactly when the certificate it presents is byte-for-byte
//! the pinned one. No chain is walked and no hostname is checked in this
//! mode; trusting that one certificate is the explicit configuration choice.

use vstd::prelude::*;

verus! {

/// The verdict when a presented certificate is not the pinned one.
#[derive(Debug, Clone, Copy, PartialEq, Eq)]
pub struct PinMismatch;

impl PinMismatch {
    /// The message logged for a failed pinning check.
    pub fn description(&self) -> (r: String)
        ensures
            r@ =~= "invalid peer certificate: does not match certificate loaded from server_cert file"@,
    {
        "invalid peer certificate: does not match certificate loaded from server_cert file".to_owned()
    }
}

/// The pinning verifier: it holds the DER bytes of the one certificate that
/// is trusted.
pub struct MumbleCertVerifier {
    cert: Vec<u8>,
}

impl View for MumbleCertVerifier {
    type V = Seq<u8>;

    closed spec fn view(&self) -> Seq<u8> {
        self.cert@
    }
}

impl MumbleCertVerifier {
    pub fn new(cert: Vec<u8>) -> (r: MumbleCertVerifier)
        ensures
            r@ == cert@,
    {
        MumbleCertVerifier { cert }
    }

    /// Accept a peer exactly when the certificate it presents is
    /// byte-identical to the pinned one; anything else fails, length
    /// difference or single changed byte alike.
    pub fn verify_server_cert(&self, end_entity: &[u8]) -> (r: Result<(), PinMismatch>)
        ensures
            r is Ok <==> end_entity@ == self@,
    {
        if end_entity.len() != self.cert.len() {
            proof {
                assert(end_entity@.len() != self@.len());
            }
            return Err(PinMismatch);
        }
        let mut i: usize = 0;
        while i < self.cert.len()
            invariant
                i <= self@.len(),
                end_entity@.len() == self@.len(),
                self@ == self.cert@,
                forall|j: int| 0 <= j < i ==> end_entity@[j] == self@[j],
            decreases self@.len() - i,
        {
            if end_entity[i] != self.cert[i] {
                return Err(PinMismatch);
            }
            i = i + 1;
        }
        proof {
            assert(end_entity@ =~= self@);
        }
        Ok(())
    }
}

} // verus!
