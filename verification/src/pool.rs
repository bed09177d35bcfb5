//! Pool construction planning and random slot selection.
//!
//! The pool is an ordered, fixed-size sequence of slots sharing one retry
//! policy. Construction derives each slot's connection parameters from the
//! base parameters — rewriting the keystore path to the slot's own
//! subdirectory — and every call request starts by selecting a slot
//! uniformly at random.

use rand::Rng;
use vstd::prelude::*;

use crate::keystore::slot_keystore_path;
use crate::keystore::slot_path;

verus! {

/// The parameters a slot's connection is opened with: the configuration
/// document (a serialized form the node library parses itself), the
/// keystore root directory if key material is kept on disk, and whether
/// the embedded trust checkpoint must be refreshed before any connection
/// is opened.
#[derive(Debug, Clone)]
pub struct ConnectionParams {
    pub config: String,
    pub keystore_dir: Option<String>,
    pub update_init_block: bool,
}

/// How slot `k`'s parameters relate to the base parameters: the
/// configuration and the refresh flag are the base's, and the keystore
/// directory, when one is configured at all, is the slot's own
/// subdirectory of the base root.
pub open spec fn slot_params_ok(base: ConnectionParams, slot: ConnectionParams, k: nat) -> bool {
    &&& slot.config == base.config
    &&& slot.update_init_block == base.update_init_block
    &&& (match base.keystore_dir {
        Some(root) => slot.keystore_path_is(root, k),
        None => slot.keystore_dir is None,
    })
}

impl ConnectionParams {
    /// The keystore directory is exactly slot `k`'s subdirectory of `root`.
    pub open spec fn keystore_path_is(self, root: String, k: nat) -> bool {
        self.keystore_dir matches Some(p) && p@ == slot_path(root@, k)
    }

    /// Derives slot `k`'s parameters from these base parameters.
    pub fn for_slot(&self, k: usize) -> (r: ConnectionParams)
        ensures
            slot_params_ok(*self, r, k as nat),
    {
        let keystore_dir = match &self.keystore_dir {
            Some(root) => Some(slot_keystore_path(root.as_str(), k)),
            None => None,
        };
        ConnectionParams {
            config: self.config.clone(),
            keystore_dir,
            update_init_block: self.update_init_block,
        }
    }
}

/// Derives the parameters of every slot of a pool of `pool_size` slots
/// from the base parameters. The pool has at least one slot. Slot `k` gets
/// the base configuration with the keystore path rewritten to the `k`-th
/// subdirectory of the configured root, so the slots' keystore paths are
/// pairwise disjoint.
pub fn plan_slots(params: &ConnectionParams, pool_size: usize) -> (r: Vec<ConnectionParams>)
    requires
        1 <= pool_size,
    ensures
        r@.len() == pool_size,
        forall|k: int| 0 <= k < pool_size ==> slot_params_ok(*params, #[trigger] r@[k], k as nat),
{
    let mut slots: Vec<ConnectionParams> = Vec::with_capacity(pool_size);
    let mut i: usize = 0;
    while i < pool_size
        invariant
            i <= pool_size,
            slots@.len() == i,
            forall|k: int| 0 <= k < i ==> slot_params_ok(*params, #[trigger] slots@[k], k as nat),
        decreases pool_size - i,
    {
        slots.push(params.for_slot(i));
        i = i + 1;
    }
    slots
}

/// Relies on rand::Rng::gen_range over the half-open range `0..n`, which
/// samples uniformly from it and panics only when the range is empty —
/// excluded here by `n >= 1`.
#[verifier::external_body]
fn sample_below(n: usize) -> (r: usize)
    requires
        1 <= n,
    ensures
        r < n,
{
    rand::thread_rng().gen_range(0..n)
}

/// Selects the slot a call request is served by: an index drawn uniformly
/// at random, always within the pool's bounds.
pub fn random_slot_index(pool_size: usize) -> (r: usize)
    requires
        1 <= pool_size,
    ensures
        r < pool_size,
{
    sample_below(pool_size)
}

} // verus!
