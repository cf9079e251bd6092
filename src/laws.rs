use vstd::prelude::*;

use crate::code_reference::{checksum_of, LocalArtifact};
use crate::contract::{migration_target, reported_address, reported_code_id, upload_owed};
use crate::response::TxResponse;
use crate::state::{address_written, code_id_written, StateInterface};

verus! {

/// The checksum depends on what was read alone: the same manifest text, or
/// the same binary bytes, give the same checksum for the same identifier.
pub proof fn law_checksum_deterministic(a: LocalArtifact, b: LocalArtifact, id: Seq<char>)
    requires
        match (a, b) {
            (LocalArtifact::Manifest(x), LocalArtifact::Manifest(y)) => x@ == y@,
            (LocalArtifact::Binary(x), LocalArtifact::Binary(y)) => x@ == y@,
            _ => false,
        },
    ensures
        checksum_of(a, id) == checksum_of(b, id),
{
}

/// When a code identifier is recorded and the chain's checksum for it equals
/// the local checksum, no upload is owed.
pub proof fn law_upload_skipped_when_current<S: StateInterface>(state: S, id: Seq<char>, on_chain_hash: Seq<char>, local_hash: Seq<char>)
    requires
        state.code_id_of(id) is Some,
        on_chain_hash == local_hash,
    ensures
        !upload_owed(state, id, on_chain_hash, local_hash),
{
}

/// When no code identifier is recorded, or the chain's checksum for it
/// differs from the local one, an upload is owed; once its response is
/// recorded, the store holds the code identifier that the response reports.
pub proof fn law_upload_when_stale<S: StateInterface>(
    state: S,
    after: S,
    id: Seq<char>,
    on_chain_hash: Seq<char>,
    local_hash: Seq<char>,
    resp: TxResponse,
    code_id: u64,
)
    requires
        state.code_id_of(id) is None || on_chain_hash != local_hash,
        reported_code_id(resp) == Some(code_id),
        code_id_written(state, after, id, code_id),
    ensures
        upload_owed(state, id, on_chain_hash, local_hash),
        after.code_id_of(id) == reported_code_id(resp),
{
}

/// An instance that runs the recorded code is not migrated.
pub proof fn law_no_migration_when_current(recorded: u64, running: u64)
    requires
        recorded == running,
    ensures
        migration_target(recorded, running) is None,
{
}

/// An instance that runs other code than the recorded one is migrated to the
/// recorded code.
pub proof fn law_migration_to_recorded(recorded: u64, running: u64)
    requires
        recorded != running,
    ensures
        migration_target(recorded, running) == Some(recorded),
{
}

/// After the address that an instantiate response reports is recorded, the
/// store gives that address for the identifier.
pub proof fn law_address_round_trip<S: StateInterface>(state: S, after: S, id: Seq<char>, resp: TxResponse, address: Seq<char>)
    requires
        reported_address(resp) == Some(address),
        address_written(state, after, id, address),
    ensures
        after.address_of(id) == Some(address),
        after.address_of(id) == reported_address(resp),
{
}

} // verus!
