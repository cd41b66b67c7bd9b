//! Staging of the two-step manual certificate upload: the certificate PEM
//! and the private key PEM arrive in separate requests, keyed by certificate
//! id; once both are present they are taken out and installed together.
use vstd::prelude::*;
use crate::assoc::AssocList;

verus! {

/// The parts of one upload received so far.
pub struct PendingParts {
    pub cert_pem: Option<Vec<u8>>,
    pub private_key_pem: Option<Vec<u8>>,
}

/// Result of staging one part of an upload.
#[derive(Debug)]
pub enum PendingUploadState {
    /// The private key is present but the certificate has not arrived yet.
    WaitingForCertificate,
    /// The certificate is present but the private key has not arrived yet.
    WaitingForPrivateKey,
    /// Both parts are present and have been removed from the store.
    Complete { cert_pem: Vec<u8>, private_key_pem: Vec<u8> },
}

/// The parts staged for an id, as byte sequences.
pub open spec fn staged(m: Map<Seq<char>, PendingParts>, id: Seq<char>) -> (Option<Seq<u8>>, Option<Seq<u8>>) {
    if m.contains_key(id) {
        (
            match m[id].cert_pem { Some(v) => Some(v@), None => None },
            match m[id].private_key_pem { Some(v) => Some(v@), None => None },
        )
    } else {
        (None, None)
    }
}

/// `after` and `r` are what staging the certificate `cert` of `id` makes of
/// `before`: with the key already staged the upload completes and leaves
/// the store; otherwise the certificate waits (replacing any earlier one).
pub open spec fn certificate_staged(
    before: Map<Seq<char>, PendingParts>,
    after: Map<Seq<char>, PendingParts>,
    id: Seq<char>,
    cert: Seq<u8>,
    r: PendingUploadState,
) -> bool {
    match staged(before, id).1 {
        Some(k) => {
            &&& r matches PendingUploadState::Complete { cert_pem: c, private_key_pem: p }
            &&& c@ == cert && p@ == k
            &&& after == before.remove(id)
        },
        None => {
            &&& r is WaitingForPrivateKey
            &&& after.dom() == before.dom().insert(id)
            &&& staged(after, id) == (Some(cert), None::<Seq<u8>>)
            &&& forall|other: Seq<char>| other != id ==> #[trigger] after.contains_key(other)
                ==> after[other] == before[other]
        },
    }
}

/// `after` and `r` are what staging the private key `key` of `id` makes of
/// `before`, symmetrically.
pub open spec fn key_staged(
    before: Map<Seq<char>, PendingParts>,
    after: Map<Seq<char>, PendingParts>,
    id: Seq<char>,
    key: Seq<u8>,
    r: PendingUploadState,
) -> bool {
    match staged(before, id).0 {
        Some(c) => {
            &&& r matches PendingUploadState::Complete { cert_pem: cc, private_key_pem: p }
            &&& cc@ == c && p@ == key
            &&& after == before.remove(id)
        },
        None => {
            &&& r is WaitingForCertificate
            &&& after.dom() == before.dom().insert(id)
            &&& staged(after, id) == (None::<Seq<u8>>, Some(key))
            &&& forall|other: Seq<char>| other != id ==> #[trigger] after.contains_key(other)
                ==> after[other] == before[other]
        },
    }
}

pub struct PendingSslUploads {
    inner: AssocList<String, PendingParts>,
}

impl PendingSslUploads {
    pub closed spec fn pending(&self) -> Map<Seq<char>, PendingParts> {
        self.inner.map()
    }

    pub closed spec fn wf(&self) -> bool {
        self.inner.wf()
    }

    pub fn new() -> (r: Self)
        ensures
            r.wf(),
            r.pending().dom().is_empty(),
    {
        PendingSslUploads { inner: AssocList::new() }
    }

    /// Stages the certificate of `cert_id`; completes the upload when the key
    /// is already there.
    pub fn set_certificate(&mut self, cert_id: &str, cert_pem: Vec<u8>) -> (r: PendingUploadState)
        requires
            old(self).wf(),
        ensures
            final(self).wf(),
            certificate_staged(old(self).pending(), final(self).pending(), cert_id@, cert_pem@, r),
    {
        let ghost before = self.inner.map();
        let id = cert_id.to_string();
        let existing = self.inner.remove(&id);
        let key = match existing {
            Some(parts) => parts.private_key_pem,
            None => None,
        };
        match key {
            Some(k) => PendingUploadState::Complete { cert_pem, private_key_pem: k },
            None => {
                let _ = self.inner.insert(id, PendingParts { cert_pem: Some(cert_pem), private_key_pem: None });
                proof { assert(self.inner.map().dom() =~= before.dom().insert(cert_id@)); }
                PendingUploadState::WaitingForPrivateKey
            },
        }
    }

    /// Stages the private key of `cert_id`; completes the upload when the
    /// certificate is already there.
    pub fn set_private_key(&mut self, cert_id: &str, private_key_pem: Vec<u8>) -> (r: PendingUploadState)
        requires
            old(self).wf(),
        ensures
            final(self).wf(),
            key_staged(old(self).pending(), final(self).pending(), cert_id@, private_key_pem@, r),
    {
        let ghost before = self.inner.map();
        let id = cert_id.to_string();
        let existing = self.inner.remove(&id);
        let cert = match existing {
            Some(parts) => parts.cert_pem,
            None => None,
        };
        match cert {
            Some(c) => PendingUploadState::Complete { cert_pem: c, private_key_pem },
            None => {
                let _ = self.inner.insert(id, PendingParts { cert_pem: None, private_key_pem: Some(private_key_pem) });
                proof { assert(self.inner.map().dom() =~= before.dom().insert(cert_id@)); }
                PendingUploadState::WaitingForCertificate
            },
        }
    }
}

/// An upload completes once both of its parts have arrived, in either
/// order: staging the certificate and then the key of an id with nothing
/// staged (or the key and then the certificate) hands out exactly those two
/// parts and leaves nothing staged for the id.
pub proof fn lemma_both_parts_complete_the_upload(
    s0: Map<Seq<char>, PendingParts>,
    s1: Map<Seq<char>, PendingParts>,
    s2: Map<Seq<char>, PendingParts>,
    id: Seq<char>,
    cert: Seq<u8>,
    key: Seq<u8>,
    r1: PendingUploadState,
    r2: PendingUploadState,
    certificate_first: bool,
)
    requires
        !s0.contains_key(id),
        certificate_first ==> certificate_staged(s0, s1, id, cert, r1) && key_staged(s1, s2, id, key, r2),
        !certificate_first ==> key_staged(s0, s1, id, key, r1) && certificate_staged(s1, s2, id, cert, r2),
    ensures
        r2 matches PendingUploadState::Complete { cert_pem: c, private_key_pem: p } && c@ == cert && p@ == key,
        !s2.contains_key(id),
        forall|other: Seq<char>| other != id ==> (#[trigger] s2.contains_key(other) <==> s0.contains_key(other)),
{
}

} // verus!
