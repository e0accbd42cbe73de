//! Shared, write-once, read-many container of peer certificate data.
//!
//! A cell is created empty when a connection is accepted. The connection —
//! and only the connection — fills it at most once, immediately after a
//! successful handshake in which the peer presented certificates, and it is
//! never cleared. Any number of handles to the same cell may exist, taken
//! before or after the fill; a handle taken before the fill observes the
//! fill as soon as it happens. Emptiness before the handshake has completed
//! means "not yet known", not "no peer certificate": contents are
//! authoritative only once payload data has flowed, an ordering the callers
//! keep, not the cell (a speculative early read gets a false negative, not
//! an error).

use std::sync::Arc;
use std::sync::OnceLock;
use vstd::prelude::*;

verus! {

/// A single certificate, as the bytes of its encoding.
pub type CertificateDer = Vec<u8>;

/// What one handle knows of the shared cell's contents. The cell is
/// write-once, so what a handle knows can only grow: a creator's handle
/// knows the cell is still empty until it fills it itself; a handle that
/// has seen the fill knows the chain, now and forever; a handle taken
/// before the fill knows nothing yet.
pub enum CellKnowledge {
    /// This handle created the cell and has not filled it: the cell is
    /// still empty, and no other handle can fill it.
    OwnerEmpty,
    /// A handle taken before the fill: the contents are not yet known
    /// through this handle, though a fill is observed at run time as soon
    /// as it happens.
    Unknown,
    /// The cell holds exactly this chain, and always will.
    Filled(Seq<Seq<u8>>),
}

#[verifier::external_type_specification]
#[verifier::external_body]
#[verifier::reject_recursive_types(T)]
pub struct ExOnceLock<T>(OnceLock<T>);

/// A handle to a shared fill-once cell of peer certificates. Cloned
/// handles (see [`Certificates::handle`]) alias the same cell.
pub struct Certificates {
    cell: Arc<OnceLock<Vec<CertificateDer>>>,
    know: Ghost<CellKnowledge>,
}

impl Certificates {
    /// What this handle knows of the cell (see [`CellKnowledge`]).
    pub closed spec fn knowledge(&self) -> CellKnowledge {
        self.know@
    }

    /// The contents this handle knows: `None` both for the creator's
    /// still-empty cell and for a handle taken before the fill.
    pub open spec fn contents(&self) -> Option<Seq<Seq<u8>>> {
        match self.knowledge() {
            CellKnowledge::Filled(c) => Option::Some(c),
            _ => Option::None,
        }
    }

    /// Whether this handle is the cell's creator or has seen the fill —
    /// the two states a connection's own handle moves through.
    pub open spec fn owned(&self) -> bool {
        self.knowledge() is OwnerEmpty || self.knowledge() is Filled
    }

    /// A fresh, empty cell, of which the returned handle is the creator:
    /// the cell sits behind a fresh shared reference held by this handle
    /// alone until [`Certificates::handle`] shares it.
    pub fn new() -> (c: Certificates)
        ensures
            c.knowledge() == CellKnowledge::OwnerEmpty,
    {
        Certificates { cell: Arc::new(empty_cell()), know: Ghost(CellKnowledge::OwnerEmpty) }
    }

    /// Fill the cell with the peer's chain. Only the handle that created
    /// the cell fills it — the connection, exactly once, right after its
    /// handshake completes — so this write is the first and the last.
    /// Relies on std's OnceLock::set: it stores the value in an empty
    /// cell, and every read through any handle returns exactly that value
    /// from then on.
    #[verifier::external_body]
    pub(crate) fn set(&mut self, chain: Vec<CertificateDer>)
        requires
            old(self).knowledge() == CellKnowledge::OwnerEmpty,
        ensures
            final(self).knowledge() == CellKnowledge::Filled(chain.deep_view()),
    {
        let _ = self.cell.set(chain);
    }

    /// Read the cell through this handle. The creator reads `None` until
    /// it fills the cell itself; a handle that knows the fill reads
    /// exactly that chain; a handle taken before the fill promises
    /// nothing here — at run time it returns `None` before the fill and
    /// the filled chain afterwards. Relies on std's OnceLock::get: it
    /// returns `None` while the cell is empty and the stored value once
    /// it is set.
    #[verifier::external_body]
    pub fn get(&self) -> (r: Option<&Vec<CertificateDer>>)
        ensures
            match self.knowledge() {
                CellKnowledge::OwnerEmpty => r is None,
                CellKnowledge::Filled(c) => r matches Option::Some(v) && v.deep_view() == c,
                CellKnowledge::Unknown => true,
            },
    {
        self.cell.get()
    }

    /// Another handle to the same cell: the reference is shared, not the
    /// contents copied, so a fill is visible through every handle. A
    /// handle to a filled cell keeps reading the same chain; one taken
    /// earlier starts with the contents "not yet known", and never takes
    /// the creator's right to fill.
    pub fn handle(&self) -> (r: Certificates)
        ensures
            r.knowledge() == (match self.knowledge() {
                CellKnowledge::Filled(c) => CellKnowledge::Filled(c),
                CellKnowledge::OwnerEmpty => CellKnowledge::Unknown,
                CellKnowledge::Unknown => CellKnowledge::Unknown,
            }),
    {
        let k: Ghost<CellKnowledge> = Ghost(
            match self.knowledge() {
                CellKnowledge::Filled(c) => CellKnowledge::Filled(c),
                CellKnowledge::OwnerEmpty => CellKnowledge::Unknown,
                CellKnowledge::Unknown => CellKnowledge::Unknown,
            },
        );
        Certificates { cell: share_cell(&self.cell), know: k }
    }
}

/// Relies on std's OnceLock::new: a fresh cell is empty.
#[verifier::external_body]
fn empty_cell() -> (c: OnceLock<Vec<CertificateDer>>)
{
    OnceLock::new()
}

/// Relies on Arc::clone: the returned reference shares the one cell with
/// the given reference, so reads and the single write go to the same
/// place.
#[verifier::external_body]
fn share_cell(c: &Arc<OnceLock<Vec<CertificateDer>>>) -> (r: Arc<OnceLock<Vec<CertificateDer>>>)
{
    Arc::clone(c)
}

impl Default for Certificates {
    /// A fresh, empty cell (see [`Certificates::new`]).
    fn default() -> (c: Certificates)
        ensures
            c.knowledge() == CellKnowledge::OwnerEmpty,
    {
        Certificates::new()
    }
}

/// Copy of one certificate's bytes.
pub fn copy_bytes(v: &Vec<u8>) -> (r: Vec<u8>)
    ensures
        r@ == v@,
{
    let mut r: Vec<u8> = Vec::new();
    let mut i: usize = 0;
    while i < v.len()
        invariant
            i <= v.len(),
            r@ == v@.subrange(0, i as int),
        decreases v.len() - i,
    {
        r.push(v[i]);
        i = i + 1;
    }
    proof {
        assert(r@ =~= v@);
    }
    r
}

/// Copy of a whole certificate chain.
pub fn copy_chain(v: &Vec<CertificateDer>) -> (r: Vec<CertificateDer>)
    ensures
        r.deep_view() == v.deep_view(),
{
    let mut r: Vec<CertificateDer> = Vec::new();
    let mut i: usize = 0;
    while i < v.len()
        invariant
            i <= v.len(),
            r.len() == i,
            forall|j: int| 0 <= j < i as int ==> r.deep_view()[j] == v.deep_view()[j],
        decreases v.len() - i,
    {
        let c = copy_bytes(&v[i]);
        proof {
            assert(c.deep_view() =~= v@[i as int].deep_view());
        }
        r.push(c);
        i = i + 1;
    }
    proof {
        assert(r.deep_view() =~= v.deep_view());
    }
    r
}

} // verus!
