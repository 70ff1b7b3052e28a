use vstd::prelude::*;
use crate::errors::ErrorCode;

verus! {

/// The process-wide counters: principal locked now, and all principal that
/// has ever entered through `stake` or `top_up`.
#[derive(Debug, Clone, Copy)]
pub struct VaultInfo {
    pub total_value_locked: u64,
    pub lifetime_value_locked: u64,
    pub is_initialized: bool,
}

impl VaultInfo {
    /// Counters that have not been initialized yet.
    pub fn new() -> (v: VaultInfo)
        ensures
            v.total_value_locked == 0,
            v.lifetime_value_locked == 0,
            !v.is_initialized,
    {
        VaultInfo { total_value_locked: 0, lifetime_value_locked: 0, is_initialized: false }
    }

    /// Sets up the counters once: both at zero, and marked initialized.
    pub fn initialize(&mut self) -> (r: Result<(), ErrorCode>)
        ensures
            old(self).is_initialized ==> r == Err::<(), ErrorCode>(ErrorCode::AlreadyInitialized)
                && *final(self) == *old(self),
            !old(self).is_initialized ==> r is Ok && *final(self) == (VaultInfo {
                total_value_locked: 0,
                lifetime_value_locked: 0,
                is_initialized: true,
            }),
    {
        if self.is_initialized {
            return Err(ErrorCode::AlreadyInitialized);
        }
        self.is_initialized = true;
        self.total_value_locked = 0;
        self.lifetime_value_locked = 0;
        Ok(())
    }
}

} // verus!
