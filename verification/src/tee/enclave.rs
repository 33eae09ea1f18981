//! Enclave instances: unique identifiers handed out by a caller-owned
//! counter, and data sealing bound to the instance.

use vstd::prelude::*;

verus! {

/// The sizing and debug settings an enclave is created with.
#[derive(Debug, Clone)]
pub struct EnclaveConfig {
    pub max_heap_size: usize,
    pub max_stack_size: usize,
    pub enable_debug: bool,
}

impl Default for EnclaveConfig {
    /// The default sizing: a one-mebibyte heap, a 128-kibibyte stack, and
    /// debugging off.
    fn default() -> (config: Self)
        ensures
            config.max_heap_size == 1048576,
            config.max_stack_size == 131072,
            !config.enable_debug,
    {
        EnclaveConfig { max_heap_size: 1048576, max_stack_size: 131072, enable_debug: false }
    }
}

/// A failure reported by an enclave operation.
#[derive(Debug)]
pub struct EnclaveError {
    message: String,
}

impl EnclaveError {
    /// Describe the error.
    pub fn message(&self) -> String {
        self.message.clone()
    }
}

/// A trusted execution environment instance.
#[derive(Debug)]
pub struct TeeEnclave {
    /// The enclave's unique identifier.
    id: u64,
    /// The configuration it was created with.
    config: EnclaveConfig,
    /// Whether initialization completed.
    is_initialized: bool,
}

impl TeeEnclave {
    /// The enclave's unique identifier.
    pub closed spec fn spec_id(self) -> u64 {
        self.id
    }

    /// Whether initialization completed.
    pub closed spec fn spec_initialized(self) -> bool {
        self.is_initialized
    }

    /// Create an enclave, drawing its identifier from the caller-owned
    /// counter, which advances by one.
    pub fn new(counter: &mut u64, config: EnclaveConfig) -> (r: Result<Self, EnclaveError>)
        requires
            *old(counter) < u64::MAX,
        ensures
            *final(counter) == *old(counter) + 1,
            r matches Ok(enclave) && enclave.spec_id() == *old(counter)
                && enclave.spec_initialized(),
    {
        let id = *counter;
        *counter = *counter + 1;
        Ok(TeeEnclave { id, config, is_initialized: true })
    }

    /// The enclave's identifier.
    pub fn get_id(&self) -> (id: u64)
        ensures
            id == self.spec_id(),
    {
        self.id
    }

    /// Seal data to this enclave; the simulated sealing returns the bytes
    /// unchanged.
    pub fn seal_data(&self, data: &[u8]) -> (r: Result<Vec<u8>, EnclaveError>)
        ensures
            r matches Ok(sealed) && sealed@ == data@,
    {
        Ok(vstd::slice::slice_to_vec(data))
    }

    /// Unseal data sealed by this enclave; the simulated unsealing
    /// returns the bytes unchanged.
    pub fn unseal_data(&self, sealed: &[u8]) -> (r: Result<Vec<u8>, EnclaveError>)
        ensures
            r matches Ok(data) && data@ == sealed@,
    {
        Ok(vstd::slice::slice_to_vec(sealed))
    }
}

} // verus!
