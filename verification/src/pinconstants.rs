//! Fixed values of the on-TPM layout and of the installed files.
use vstd::prelude::*;

verus! {

/// First NV index used for PIN slots; the slot of a user is this plus the uid.
pub const PIN_NV_INDEX_BASE: u32 = 0x0150_0000;

/// Distance from a user's PIN slot to the user's version tag.
pub const PIN_VERSION_NV_INDEX_OFFSET: u32 = 0x0010_0000;

/// Largest uid that has a PIN slot and a version tag of its own.
pub const PIN_VERSION_UID_MAX: u32 = 0x000F_FFFF;

/// The version that is written beside a newly provisioned PIN.
pub const PIN_VERSION_CURRENT: u8 = 1;

/// Number of bytes in a version tag.
pub const PIN_VERSION_TAG_SIZE: usize = 1;

/// Where the command-line utility is installed unless the policy says otherwise.
pub const DEFAULT_PINUTIL_PATH: &'static str = "/usr/bin/pinutil";

/// Persistent handle of the RSA key that is the parent of the master key.
pub const MASTER_KEY_RSA_PARENT_HANDLE: u32 = 0x8101_0010;

/// Persistent handle of the master HMAC key.
pub const MASTER_KEY_HMAC_HANDLE: u32 = 0x8101_0011;

/// The file that holds the master key sealed under the recovery phrase.
pub const MASTER_KEY_SEALED_FILE: &'static str = "/var/lib/pinpam/sealed_master_key.json";

/// Largest authorization value that a TPM object takes, in bytes.
pub const MAX_AUTH_SIZE: usize = 64;

/// Largest buffer that a TPM digests in one command, in bytes.
pub const MAX_DIGEST_BUFFER: usize = 1024;

} // verus!
