use vstd::prelude::*;

use crate::code_reference::ContractCodeReference;
use crate::error::BootError;
use crate::response::{address_key, code_id_key, event_attr, parse_u64, TxResponse};
use crate::state::{address_written, code_id_written, same_records, StateInterface};

verus! {

/// An upload is owed when no code identifier is recorded for `id`, or when
/// the checksum the chain holds for it differs from the local one.
pub open spec fn upload_owed<S: StateInterface>(state: S, id: Seq<char>, on_chain_hash: Seq<char>, local_hash: Seq<char>) -> bool {
    state.code_id_of(id) is None || on_chain_hash != local_hash
}

/// The code identifier to migrate to: none when the instance runs the
/// recorded code already, else the recorded one.
pub open spec fn migration_target(recorded: u64, running: u64) -> Option<u64> {
    if recorded == running {
        None
    } else {
        Some(recorded)
    }
}

/// The code identifier that an upload response reports, if it reports one.
pub open spec fn reported_code_id(resp: TxResponse) -> Option<u64> {
    match event_attr(resp.events@, code_id_key().0, code_id_key().1) {
        Some(v) => parse_u64(v),
        None => None,
    }
}

/// The address that an instantiate response reports, if it reports one.
pub open spec fn reported_address(resp: TxResponse) -> Option<Seq<char>> {
    event_attr(resp.events@, address_key().0, address_key().1)
}

/// One artifact: its identifier in the local state and the reference to its code.
pub struct Contract<E> {
    pub id: String,
    pub source: ContractCodeReference<E>,
}

impl<E> Contract<E> {
    /// An artifact named `id` with no code attached yet.
    pub fn new(id: String) -> (r: Self)
        ensures
            r.id == id,
            r.source.wasm_code_path is None,
            r.source.contract_endpoints is None,
    {
        Contract { id, source: ContractCodeReference::new() }
    }

    /// The same artifact, with its binary at `path`.
    pub fn with_wasm_path(self, path: String) -> (r: Self)
        ensures
            r.id == self.id,
            r.source.wasm_code_path == Some(path),
            r.source.contract_endpoints == self.source.contract_endpoints,
    {
        let mut c = self;
        c.source.set_wasm_path(path);
        c
    }

    /// The same artifact, with an in-process implementation for the simulated backend.
    pub fn with_mock(self, mock_contract: E) -> (r: Self)
        ensures
            r.id == self.id,
            r.source.wasm_code_path == self.source.wasm_code_path,
            r.source.contract_endpoints == Some(mock_contract),
    {
        let mut c = self;
        c.source.set_endpoints(mock_contract);
        c
    }

    /// Attaches an in-process implementation for the simulated backend.
    pub fn set_mock(&mut self, mock_contract: E)
        ensures
            final(self).id == old(self).id,
            final(self).source.wasm_code_path == old(self).source.wasm_code_path,
            final(self).source.contract_endpoints == Some(mock_contract),
    {
        self.source.set_endpoints(mock_contract);
    }

    /// The address recorded for this artifact.
    pub fn address<S: StateInterface>(&self, state: &S) -> (r: Result<String, BootError>)
        ensures
            match state.address_of(self.id@) {
                Some(a) => r is Ok && r->Ok_0@ == a,
                None => r is Err && r->Err_0.is_not_found(self.id@),
            },
    {
        state.get_address(&self.id)
    }

    /// The code identifier recorded for this artifact.
    pub fn code_id<S: StateInterface>(&self, state: &S) -> (r: Result<u64, BootError>)
        ensures
            match state.code_id_of(self.id@) {
                Some(c) => r == Ok::<u64, BootError>(c),
                None => r is Err && r->Err_0.is_not_found(self.id@),
            },
    {
        state.get_code_id(&self.id)
    }

    /// Records `address` for this artifact.
    pub fn set_address<S: StateInterface>(&self, state: &mut S, address: &String)
        ensures
            address_written(*old(state), *final(state), self.id@, address@),
    {
        state.set_address(&self.id, address);
    }

    /// Records `code_id` for this artifact.
    pub fn set_code_id<S: StateInterface>(&self, state: &mut S, code_id: u64)
        ensures
            code_id_written(*old(state), *final(state), self.id@, code_id),
    {
        state.set_code_id(&self.id, code_id);
    }

    /// The same artifact, after recording `address` for it when one is given.
    pub fn with_address<S: StateInterface>(self, state: &mut S, address: Option<&String>) -> (r: Self)
        ensures
            r == self,
            match address {
                Some(a) => address_written(*old(state), *final(state), self.id@, a@),
                None => same_records(*old(state), *final(state)),
            },
    {
        if let Some(a) = address {
            self.set_address(state, a);
        }
        self
    }

    /// Records the code identifier that an upload response reports.
    pub fn record_upload<S: StateInterface>(&self, state: &mut S, resp: &TxResponse) -> (r: Result<u64, BootError>)
        ensures
            match reported_code_id(*resp) {
                Some(c) => r == Ok::<u64, BootError>(c) && code_id_written(*old(state), *final(state), self.id@, c),
                None => r is Err && r->Err_0 is Backend && same_records(*old(state), *final(state)),
            },
    {
        let code_id = resp.uploaded_code_id()?;
        self.set_code_id(state, code_id);
        Ok(code_id)
    }

    /// Records the address that an instantiate response reports.
    pub fn record_instantiate<S: StateInterface>(&self, state: &mut S, resp: &TxResponse) -> (r: Result<String, BootError>)
        ensures
            match reported_address(*resp) {
                Some(a) => r is Ok && r->Ok_0@ == a && address_written(*old(state), *final(state), self.id@, a),
                None => r is Err && r->Err_0 is Backend && same_records(*old(state), *final(state)),
            },
    {
        let address = resp.instantiated_contract_address()?;
        self.set_address(state, &address);
        Ok(address)
    }

    /// Whether the code recorded for this artifact is the local code: the
    /// checksum that the chain holds for the recorded code identifier equals
    /// the local checksum. Fails when no code identifier is recorded.
    pub fn latest_is_uploaded<S: StateInterface>(&self, state: &S, on_chain_hash: &String, local_hash: &String) -> (r: Result<bool, BootError>)
        ensures
            match state.code_id_of(self.id@) {
                Some(_) => r == Ok::<bool, BootError>(on_chain_hash@ == local_hash@),
                None => r is Err && r->Err_0.is_not_found(self.id@),
            },
    {
        let _ = self.code_id(state)?;
        Ok(*on_chain_hash == *local_hash)
    }

    /// Whether an upload is owed: no code identifier is recorded yet, or the
    /// checksum that the chain holds for it is not the local one.
    pub fn upload_if_needed<S: StateInterface>(&self, state: &S, on_chain_hash: &String, local_hash: &String) -> (r: bool)
        ensures
            r == upload_owed(*state, self.id@, on_chain_hash@, local_hash@),
    {
        match self.latest_is_uploaded(state, on_chain_hash, local_hash) {
            Ok(same) => !same,
            Err(_) => true,
        }
    }

    /// Whether the instance runs the code last recorded for this artifact.
    /// Fails when no code identifier or no address is recorded.
    pub fn is_running_latest<S: StateInterface>(&self, state: &S, running_code_id: u64) -> (r: Result<bool, BootError>)
        ensures
            match (state.code_id_of(self.id@), state.address_of(self.id@)) {
                (Some(c), Some(_)) => r == Ok::<bool, BootError>(c == running_code_id),
                _ => r is Err && r->Err_0.is_not_found(self.id@),
            },
    {
        let latest = self.code_id(state)?;
        let _ = self.address(state)?;
        Ok(latest == running_code_id)
    }

    /// The code identifier to migrate the instance to, if it does not run the
    /// code last recorded for this artifact already.
    pub fn migrate_if_needed<S: StateInterface>(&self, state: &S, running_code_id: u64) -> (r: Result<Option<u64>, BootError>)
        ensures
            match (state.code_id_of(self.id@), state.address_of(self.id@)) {
                (Some(c), Some(_)) => r == Ok::<Option<u64>, BootError>(migration_target(c, running_code_id)),
                _ => r is Err && r->Err_0.is_not_found(self.id@),
            },
    {
        if self.is_running_latest(state, running_code_id)? {
            Ok(None)
        } else {
            Ok(Some(self.code_id(state)?))
        }
    }
}

} // verus!
