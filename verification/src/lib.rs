//! TPM-backed PIN authentication.
pub mod authentication;
pub mod authlaws;
pub mod commandlaws;
pub mod desklaws;
pub mod dialogue;
pub mod errandlaws;
pub mod flow;
pub mod keylaws;
pub mod laws;
pub mod loginlaws;
pub mod master_key;
pub mod masterlaws;
pub mod masterutil;
pub mod model;
pub mod pam;
pub mod pamlog;
pub mod pin;
pub mod pinconstants;
pub mod pindata;
pub mod pinerror;
pub mod pinindex;
pub mod pinmanager;
pub mod pinpolicy;
pub mod pinutil;
pub mod policylaws;
pub mod protocol;
pub mod sealing;
pub mod secret;
pub mod slotlaws;
pub mod tcti;
pub mod text;
pub mod tokenauth;
pub mod tpm;
pub mod util;
pub mod utillaws;
