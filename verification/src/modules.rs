//! Module descriptors: the resolved identity of a reusable code artifact —
//! its identifier, code reference and expected on-chain checksum — carried
//! through a creation run so the deferred validator can re-check it without a
//! second registry round-trip.

use vstd::prelude::*;

verus! {

/// What a module identifier resolves to in the registry.
#[derive(Debug)]
pub enum CodeReference {
    /// A code artifact of the account-base kind, instantiable by code id.
    AccountCode { code_id: u64 },
    /// A service already running at a fixed address.
    Addressed { address: String },
}

/// Mathematical image of a `CodeReference`.
pub enum CodeReferenceView {
    AccountCode { code_id: u64 },
    Addressed { address: Seq<char> },
}

impl View for CodeReference {
    type V = CodeReferenceView;

    open spec fn view(&self) -> CodeReferenceView {
        match self {
            CodeReference::AccountCode { code_id } => CodeReferenceView::AccountCode {
                code_id: *code_id,
            },
            CodeReference::Addressed { address } => CodeReferenceView::Addressed {
                address: address@,
            },
        }
    }
}

impl Clone for CodeReference {
    /// The copy has the same image as the original.
    fn clone(&self) -> (res: Self)
        ensures
            res@ == self@,
    {
        match self {
            CodeReference::AccountCode { code_id } => CodeReference::AccountCode {
                code_id: *code_id,
            },
            CodeReference::Addressed { address } => CodeReference::Addressed {
                address: address.clone(),
            },
        }
    }
}

/// Resolved identity of one code artifact.
#[derive(Debug)]
pub struct ModuleDescriptor {
    pub identifier: String,
    pub reference: CodeReference,
    pub checksum: Vec<u8>,
}

/// Mathematical image of a `ModuleDescriptor`.
pub struct ModuleDescriptorView {
    pub identifier: Seq<char>,
    pub reference: CodeReferenceView,
    pub checksum: Seq<u8>,
}

impl View for ModuleDescriptor {
    type V = ModuleDescriptorView;

    open spec fn view(&self) -> ModuleDescriptorView {
        ModuleDescriptorView {
            identifier: self.identifier@,
            reference: self.reference@,
            checksum: self.checksum@,
        }
    }
}

impl Clone for ModuleDescriptor {
    /// The copy has the same image as the original.
    fn clone(&self) -> (res: Self)
        ensures
            res@ == self@,
    {
        ModuleDescriptor {
            identifier: self.identifier.clone(),
            reference: self.reference.clone(),
            checksum: clone_bytes(&self.checksum),
        }
    }
}

/// On-chain metadata of a deployed sub-entity, re-resolved after creation.
#[derive(Debug)]
pub struct DeployedMetadata {
    pub identifier: String,
    pub checksum: Vec<u8>,
}

/// Mathematical image of a `DeployedMetadata`.
pub struct DeployedMetadataView {
    pub identifier: Seq<char>,
    pub checksum: Seq<u8>,
}

impl View for DeployedMetadata {
    type V = DeployedMetadataView;

    open spec fn view(&self) -> DeployedMetadataView {
        DeployedMetadataView { identifier: self.identifier@, checksum: self.checksum@ }
    }
}

/// The deployed metadata carries the identity the descriptor expects.
pub open spec fn descriptor_matches(m: ModuleDescriptorView, d: DeployedMetadataView) -> bool {
    m.identifier == d.identifier && m.checksum == d.checksum
}

/// Copies a byte string; the image is unchanged.
pub fn clone_bytes(src: &Vec<u8>) -> (r: Vec<u8>)
    ensures
        r@ == src@,
{
    let mut r: Vec<u8> = Vec::new();
    let mut i: usize = 0;
    while i < src.len()
        invariant
            i <= src.len(),
            r@.len() == i,
            forall|j: int| 0 <= j < i ==> r@[j] == src@[j],
        decreases src.len() - i,
    {
        r.push(src[i]);
        i = i + 1;
    }
    assert(r@ =~= src@);
    r
}

/// Whether two byte strings hold the same bytes.
pub fn bytes_eq(a: &Vec<u8>, b: &Vec<u8>) -> (r: bool)
    ensures
        r <==> a@ == b@,
{
    if a.len() != b.len() {
        return false;
    }
    let mut i: usize = 0;
    while i < a.len()
        invariant
            i <= a.len(),
            a.len() == b.len(),
            forall|j: int| 0 <= j < i ==> a@[j] == b@[j],
        decreases a.len() - i,
    {
        if a[i] != b[i] {
            return false;
        }
        i = i + 1;
    }
    assert(a@ =~= b@);
    true
}

/// Whether the deployed metadata matches the descriptor's expected identity.
pub fn matches_deployed(m: &ModuleDescriptor, d: &DeployedMetadata) -> (r: bool)
    ensures
        r == descriptor_matches(m@, d@),
{
    m.identifier == d.identifier && bytes_eq(&m.checksum, &d.checksum)
}

} // verus!
