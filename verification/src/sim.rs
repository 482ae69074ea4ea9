//! Simulated display kernel: capability negotiation, the applied property
//! table, and the all-or-nothing atomic commit.
//!
//! The simulation carries exactly what the commit semantics needs: which
//! optional capabilities the driver supports and has enabled, the property
//! values it has applied (a write log, last write wins), and the set of
//! (object, property) pairs it refuses.  A commit either applies every
//! entry of the transaction or none: a refusal leaves the kernel — and so
//! every subsequent query — exactly as it was.

use vstd::prelude::*;

use crate::errors::HwError;
use crate::transaction::{AtomicTransaction, PropertyValue, TxEntry};

verus! {

/// Error code the simulated kernel reports when it refuses a property.
pub const COMMIT_REFUSED_ERRNO: i32 = 22;

/// An optional driver capability the client can request.
#[derive(Clone, Copy, Debug, PartialEq, Eq, Structural)]
pub enum Capability {
    /// Expose non-primary planes to this client.
    UniversalPlanes,
    /// Accept atomic commits from this client.
    Atomic,
}

/// The simulated kernel side of a display device node.
#[derive(Clone, Debug)]
pub struct SimKernel {
    /// Whether the driver supports universal-plane addressing.
    pub supports_universal_planes: bool,
    /// Whether the driver supports atomic commits.
    pub supports_atomic: bool,
    /// Whether universal-plane addressing has been enabled on this handle.
    pub universal_planes_enabled: bool,
    /// Whether atomic commits have been enabled on this handle.
    pub atomic_enabled: bool,
    /// Applied property writes, oldest first; the last write to a key is
    /// the value a query reports.
    pub applied: Vec<TxEntry>,
    /// The (object, property) pairs the kernel refuses to apply.
    pub rejects: Vec<(u32, u64)>,
}

/// The value a query of (object, property) reports: the last applied
/// write to that key, if any.
pub open spec fn spec_lookup(applied: Seq<TxEntry>, object: u32, property: u64) -> Option<
    PropertyValue,
>
    decreases applied.len(),
{
    if applied.len() == 0 {
        None
    } else if applied.last().object == object && applied.last().property == property {
        Some(applied.last().value)
    } else {
        spec_lookup(applied.drop_last(), object, property)
    }
}

/// Whether the kernel refuses some entry of the transaction.
pub open spec fn spec_rejected(rejects: Seq<(u32, u64)>, entries: Seq<TxEntry>) -> bool {
    exists|k: int|
        0 <= k < entries.len() && rejects.contains((entries[k].object, entries[k].property))
}

impl SimKernel {
    /// A fresh simulated device node: the driver supports what the flags
    /// say, nothing is enabled yet, nothing applied, nothing refused.
    pub fn new(supports_universal_planes: bool, supports_atomic: bool) -> (r: SimKernel)
        ensures
            r.supports_universal_planes == supports_universal_planes,
            r.supports_atomic == supports_atomic,
            !r.universal_planes_enabled,
            !r.atomic_enabled,
            r.applied@.len() == 0,
            r.rejects@.len() == 0,
    {
        SimKernel {
            supports_universal_planes,
            supports_atomic,
            universal_planes_enabled: false,
            atomic_enabled: false,
            applied: Vec::new(),
            rejects: Vec::new(),
        }
    }

    /// Whether the handle is ready for an atomic commit: both required
    /// capabilities have been negotiated on.
    pub open spec fn spec_atomic_ready(self) -> bool {
        self.universal_planes_enabled && self.atomic_enabled
    }

    /// Requests an optional driver capability.  Fails with
    /// `CapabilityUnsupportedError` exactly when the driver does not
    /// support it, and changes nothing in that case.
    pub fn negotiate(&mut self, capability: Capability, enable: bool) -> (r: Result<(), HwError>)
        ensures
            match capability {
                Capability::UniversalPlanes => {
                    &&& old(self).supports_universal_planes ==> r == Ok::<(), HwError>(())
                        && *final(self) == (SimKernel {
                        universal_planes_enabled: enable,
                        ..*old(self)
                    })
                    &&& !old(self).supports_universal_planes ==> r == Err::<(), HwError>(
                        HwError::CapabilityUnsupportedError,
                    ) && *final(self) == *old(self)
                },
                Capability::Atomic => {
                    &&& old(self).supports_atomic ==> r == Ok::<(), HwError>(()) && *final(self)
                        == (SimKernel { atomic_enabled: enable, ..*old(self) })
                    &&& !old(self).supports_atomic ==> r == Err::<(), HwError>(
                        HwError::CapabilityUnsupportedError,
                    ) && *final(self) == *old(self)
                },
            },
    {
        match capability {
            Capability::UniversalPlanes => {
                if self.supports_universal_planes {
                    self.universal_planes_enabled = enable;
                    Ok(())
                } else {
                    Err(HwError::CapabilityUnsupportedError)
                }
            },
            Capability::Atomic => {
                if self.supports_atomic {
                    self.atomic_enabled = enable;
                    Ok(())
                } else {
                    Err(HwError::CapabilityUnsupportedError)
                }
            },
        }
    }

    /// Queries the current value of one property on one object, as the
    /// last applied write left it.
    pub fn get_property(&self, object: u32, property: u64) -> (r: Option<PropertyValue>)
        ensures
            r == spec_lookup(self.applied@, object, property),
    {
        let n = self.applied.len();
        proof {
            assert(self.applied@.take(n as int) =~= self.applied@);
        }
        let mut i: usize = n;
        while i > 0
            invariant
                n == self.applied@.len(),
                0 <= i <= n,
                spec_lookup(self.applied@, object, property) == spec_lookup(
                    self.applied@.take(i as int),
                    object,
                    property,
                ),
            decreases i,
        {
            proof {
                assert(self.applied@.take(i as int).drop_last() =~= self.applied@.take(
                    i as int - 1,
                ));
                assert(self.applied@.take(i as int).last() == self.applied@[i as int - 1]);
            }
            let e = &self.applied[i - 1];
            if e.object == object && e.property == property {
                return Some(e.value);
            }
            i -= 1;
        }
        proof {
            assert(self.applied@.take(0) =~= Seq::<TxEntry>::empty());
        }
        None
    }

    /// Submits the whole transaction atomically, with mode-set changes
    /// allowed.  The kernel applies every entry, in order, or — when it
    /// refuses any entry — none at all: on `CommitError` the kernel state
    /// is exactly what it was, so no partial application is observable
    /// through any subsequent query.  The error code is reported verbatim.
    pub fn commit(&mut self, txn: &AtomicTransaction) -> (r: Result<(), HwError>)
        requires
            old(self).spec_atomic_ready(),
        ensures
            spec_rejected(old(self).rejects@, txn.entries@) ==> r == Err::<(), HwError>(
                HwError::CommitError(COMMIT_REFUSED_ERRNO),
            ) && *final(self) == *old(self),
            !spec_rejected(old(self).rejects@, txn.entries@) ==> r == Ok::<(), HwError>(())
                && *final(self) == (SimKernel {
                applied: final(self).applied,
                ..*old(self)
            }) && final(self).applied@ == old(self).applied@ + txn.entries@,
    {
        let n = txn.entries.len();
        let mut k: usize = 0;
        while k < n
            invariant
                n == txn.entries@.len(),
                0 <= k <= n,
                self == old(self),
                forall|j: int|
                    0 <= j < k ==> !self.rejects@.contains(
                        (txn.entries@[j].object, txn.entries@[j].property),
                    ),
            decreases n - k,
        {
            let e = &txn.entries[k];
            if self.is_rejected(e.object, e.property) {
                proof {
                    assert(spec_rejected(self.rejects@, txn.entries@));
                }
                return Err(HwError::CommitError(COMMIT_REFUSED_ERRNO));
            }
            k += 1;
        }
        let mut k2: usize = 0;
        while k2 < n
            invariant
                n == txn.entries@.len(),
                0 <= k2 <= n,
                self.supports_universal_planes == old(self).supports_universal_planes,
                self.supports_atomic == old(self).supports_atomic,
                self.universal_planes_enabled == old(self).universal_planes_enabled,
                self.atomic_enabled == old(self).atomic_enabled,
                self.rejects == old(self).rejects,
                self.applied@ == old(self).applied@ + txn.entries@.take(k2 as int),
            decreases n - k2,
        {
            let e = txn.entries[k2];
            self.applied.push(e);
            proof {
                assert(old(self).applied@ + txn.entries@.take(k2 as int + 1) =~= (old(
                    self,
                ).applied@ + txn.entries@.take(k2 as int)).push(txn.entries@[k2 as int]));
            }
            k2 += 1;
        }
        proof {
            assert(txn.entries@.take(n as int) =~= txn.entries@);
        }
        Ok(())
    }

    /// Whether the kernel refuses the given (object, property) pair.
    fn is_rejected(&self, object: u32, property: u64) -> (r: bool)
        ensures
            r == self.rejects@.contains((object, property)),
    {
        let n = self.rejects.len();
        let mut i: usize = 0;
        while i < n
            invariant
                n == self.rejects@.len(),
                0 <= i <= n,
                forall|j: int| 0 <= j < i ==> self.rejects@[j] != (object, property),
            decreases n - i,
        {
            let p = self.rejects[i];
            if p.0 == object && p.1 == property {
                proof {
                    assert(self.rejects@[i as int] == (object, property));
                }
                return true;
            }
            i += 1;
        }
        false
    }

    /// Marks one (object, property) pair as refused by the kernel; used
    /// to simulate a rejection at a single property.
    pub fn refuse(&mut self, object: u32, property: u64)
        ensures
            *final(self) == (SimKernel { rejects: final(self).rejects, ..*old(self) }),
            final(self).rejects@ == old(self).rejects@.push((object, property)),
    {
        self.rejects.push((object, property));
    }
}

/// After a successful commit, a query of any key reads the last value the
/// transaction wrote to it, and keys the transaction never touched read
/// exactly what they read before.
pub proof fn lemma_commit_applies_all(
    applied: Seq<TxEntry>,
    entries: Seq<TxEntry>,
    object: u32,
    property: u64,
)
    ensures
        spec_lookup(applied + entries, object, property) == match spec_lookup(
            entries,
            object,
            property,
        ) {
            Some(v) => Some(v),
            None => spec_lookup(applied, object, property),
        },
    decreases entries.len(),
{
    if entries.len() == 0 {
        assert(applied + entries =~= applied);
    } else {
        lemma_commit_applies_all(applied, entries.drop_last(), object, property);
        assert((applied + entries).drop_last() =~= applied + entries.drop_last());
        assert((applied + entries).last() == entries.last());
    }
}

} // verus!
