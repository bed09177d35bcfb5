//! The one-shot trust-checkpoint patch run before any connection is opened.
//!
//! The configuration document embeds a checkpoint the node library uses to
//! bootstrap trust in the network. When a refresh is requested, the most
//! recent trusted checkpoint is fetched from the network's bootstrap nodes
//! (a network step the driver outside this crate performs) and the decision
//! below rewrites the embedded checkpoint only if the fetched one is
//! strictly newer. Parsing and re-serializing the document around this
//! decision is the config accessor's work, outside this crate.

use vstd::prelude::*;

use crate::error::ClientError;

verus! {

/// A trusted checkpoint: the block the node library starts trusting from,
/// as a sequence number plus an opaque block identifier.
#[derive(Debug, Clone)]
pub struct Checkpoint {
    pub seqno: i32,
    pub block_id: String,
}

/// Decides what checkpoint the configuration proceeds with, given the
/// checkpoint `embedded` in the configuration and the most recent
/// checkpoint the bootstrap nodes returned, if any.
///
/// When no bootstrap node answered, construction must abort:
/// `CheckpointUnavailable` (patch the checkpoint manually). When the
/// fetched checkpoint is strictly newer than the embedded one, the fetched
/// checkpoint replaces it; otherwise the embedded one is kept unchanged.
/// Either way the sequence number never regresses.
pub fn patch_checkpoint(embedded: Checkpoint, fetched: Option<Checkpoint>) -> (r: Result<
    Checkpoint,
    ClientError,
>)
    ensures
        (match fetched {
            None => r matches Err(e) && e is CheckpointUnavailable,
            Some(f) => if f.seqno > embedded.seqno {
                r matches Ok(c) && c == f
            } else {
                r matches Ok(c) && c == embedded
            },
        }),
        r matches Ok(c) ==> c.seqno >= embedded.seqno,
{
    match fetched {
        None => Err(ClientError::CheckpointUnavailable),
        Some(f) => if f.seqno > embedded.seqno {
            Ok(f)
        } else {
            Ok(embedded)
        },
    }
}

} // verus!
