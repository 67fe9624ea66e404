//! Backend (TCTI) selection.
//!
//! The TPM is reached through a TCTI module named by a specification such as
//! `device:/dev/tpmrm0`, `swtpm:host=127.0.0.1,port=2321`, `mssim:...` or
//! `tabrmd:...`.
use vstd::prelude::*;

verus! {

/// The specification that is used when nothing else is configured: the kernel
/// resource manager.
pub const DEFAULT_TCTI_SPEC: &'static str = "device:/dev/tpmrm0";

} // verus!
