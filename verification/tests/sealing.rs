//! Tests of the sealed master key and of the operations on the master key.

use pinpam::flow::Step;
use pinpam::master_key::{
    clear_from_disk, clear_from_tpm, derive_user_token, import_to_tpm, init, status, MasterKeyStatus,
    MasterReply, MasterRequest, Presence, Removal,
};
use pinpam::pinconstants::{
    MASTER_KEY_HMAC_HANDLE, MASTER_KEY_RSA_PARENT_HANDLE, MASTER_KEY_SEALED_FILE,
};
use pinpam::pinerror::PinError;
use pinpam::sealing::{
    derive_aes_key_from_phrase, generate_recovery_phrase, seal_key_bytes, sealed_parts,
    unseal_key_bytes, MasterKeyError, MasterSecrets, Refusal, SealedMasterKeyFile, HMAC_KEY_LEN,
};
use pinpam::tpm::{FailureKind, TpmFailure};

const PHRASE: &str = "abandon abandon abandon abandon abandon abandon abandon abandon abandon abandon abandon about";

#[test]
fn sealed_file_crypto_roundtrip() {
    let mut key = [0u8; HMAC_KEY_LEN];
    for (i, b) in key.iter_mut().enumerate() {
        *b = i as u8;
    }
    let secrets = MasterSecrets::draw().unwrap();
    let file = seal_key_bytes(&key, PHRASE, 0, &secrets.salt, &secrets.nonce).unwrap();
    let out = unseal_key_bytes(PHRASE, &file).unwrap();
    assert_eq!(out.as_slice(), key);
}

#[test]
fn token_hex_is_lowercase_and_len() {
    let bytes = [0xABu8; 32];
    let s = token_of(bytes.to_vec()).unwrap();
    assert_eq!(s.len(), 64);
    assert!(s.chars().all(|c| c.is_ascii_hexdigit() && !c.is_ascii_uppercase()));
}

fn token_of(digest: Vec<u8>) -> Result<String, MasterKeyError> {
    let mut step = derive_user_token("alice");
    loop {
        match step {
            Step::Ask(request, paused) => {
                let data = match request {
                    MasterRequest::Hmac { handle, data } => {
                        assert_eq!(handle, MASTER_KEY_HMAC_HANDLE);
                        assert_eq!(data, b"alice".to_vec());
                        digest.clone()
                    }
                    _ => Vec::new(),
                };
                step = paused.resume(MasterReply::Tpm(Ok(data)));
            }
            Step::Done(token) => return token.0,
        }
    }
}

#[test]
fn token_is_the_digest_in_hexadecimal() {
    assert_eq!(token_of(vec![0x00, 0x0F, 0xA5, 0xFF]).unwrap(), "000fa5ff");
    assert_eq!(token_of(Vec::new()).unwrap(), "");
    assert!(matches!(
        token_of(vec![0; 65]),
        Err(MasterKeyError::Pin(PinError::TpmError(_)))
    ));
}

#[test]
fn a_name_that_is_too_long_has_no_token() {
    let mut step = derive_user_token(&"x".repeat(1025));
    let outcome = loop {
        match step {
            Step::Ask(request, paused) => {
                assert!(!matches!(request, MasterRequest::Hmac { .. }));
                step = paused.resume(MasterReply::Tpm(Ok(Vec::new())));
            }
            Step::Done(token) => break token.0,
        }
    };
    match outcome {
        Err(MasterKeyError::Pin(PinError::TpmError(text))) => {
            assert_eq!(text, "parameter provided is of the wrong size");
        }
        other => panic!("expected TpmError, got {other:?}"),
    }
}

#[test]
fn the_sealed_file_is_stable() {
    let file = seal_key_bytes(&[7; 32], PHRASE, 12345, &[1; 16], &[2; 12]).unwrap();
    assert_eq!(file.version, 1);
    assert_eq!(file.created_unix_ms, 12345);
    assert_eq!(file.salt_b64, "AQEBAQEBAQEBAQEBAQEBAQ==");
    assert_eq!(file.nonce_b64, "AgICAgICAgICAgIC");
    // 48 bytes: the key and the tag.
    assert_eq!(file.ciphertext_b64.len(), 64);
    let again = seal_key_bytes(&[7; 32], PHRASE, 12345, &[1; 16], &[2; 12]).unwrap();
    assert_eq!(again.ciphertext_b64, file.ciphertext_b64);
    let other = seal_key_bytes(&[7; 32], "another phrase", 12345, &[1; 16], &[2; 12]).unwrap();
    assert_ne!(other.ciphertext_b64, file.ciphertext_b64);
    let aes_key = derive_aes_key_from_phrase(PHRASE, &[1; 16]).unwrap();
    assert_eq!(aes_key.as_slice().len(), 32);
    assert_ne!(aes_key.as_slice(), &PHRASE.as_bytes()[..32]);
    match derive_aes_key_from_phrase(PHRASE, &[1; 7]) {
        Err(text) => assert_eq!(text, "salt is too short"),
        Ok(_) => panic!("a salt of 7 bytes was accepted"),
    }
}

#[test]
fn a_wrong_phrase_does_not_unseal() {
    let file = seal_key_bytes(&[7; 32], PHRASE, 0, &[1; 16], &[2; 12]).unwrap();
    assert!(matches!(
        unseal_key_bytes("wrong", &file),
        Err(MasterKeyError::Pin(PinError::IoError(_)))
    ));
}

#[test]
fn a_damaged_file_does_not_unseal() {
    let sealed = || seal_key_bytes(&[7; 32], PHRASE, 0, &[1; 16], &[2; 12]).unwrap();
    let file = SealedMasterKeyFile { version: 2, ..sealed() };
    assert!(matches!(
        unseal_key_bytes(PHRASE, &file),
        Err(MasterKeyError::Refused(Refusal::UnsupportedVersion))
    ));
    let file = SealedMasterKeyFile { nonce_b64: "AAAA".to_string(), ..sealed() };
    assert!(matches!(
        unseal_key_bytes(PHRASE, &file),
        Err(MasterKeyError::Refused(Refusal::InvalidNonceLength))
    ));
    for field in 0..3 {
        let mut file = sealed();
        match field {
            0 => file.salt_b64 = "*".to_string(),
            1 => file.nonce_b64 = "*".to_string(),
            _ => file.ciphertext_b64 = "*".to_string(),
        }
        assert!(matches!(
            unseal_key_bytes(PHRASE, &file),
            Err(MasterKeyError::Pin(PinError::IoError(_)))
        ));
    }
}

#[test]
fn the_parts_of_a_file_are_checked_in_order() {
    let bad = |t: &str| -> Result<Vec<u8>, String> { Err(t.to_string()) };
    let text = |r: Result<(Vec<u8>, Vec<u8>, Vec<u8>), MasterKeyError>| match r {
        Err(MasterKeyError::Pin(PinError::IoError(t))) => t,
        other => panic!("expected IoError, got {other:?}"),
    };
    assert!(matches!(
        sealed_parts(7, bad("salt"), bad("nonce"), bad("text")),
        Err(MasterKeyError::Refused(Refusal::UnsupportedVersion))
    ));
    assert_eq!(text(sealed_parts(1, bad("salt"), bad("nonce"), bad("text"))), "salt");
    assert_eq!(text(sealed_parts(1, Ok(vec![]), bad("nonce"), bad("text"))), "nonce");
    assert_eq!(text(sealed_parts(1, Ok(vec![]), Ok(vec![]), bad("text"))), "text");
    assert!(matches!(
        sealed_parts(1, Ok(vec![1]), Ok(vec![0; 11]), Ok(vec![])),
        Err(MasterKeyError::Refused(Refusal::InvalidNonceLength))
    ));
    assert_eq!(
        sealed_parts(1, Ok(vec![1]), Ok(vec![0; 12]), Ok(vec![3])).unwrap(),
        (vec![1], vec![0; 12], vec![3]),
    );
}

#[test]
fn secrets_are_drawn_anew() {
    let a = MasterSecrets::draw().unwrap();
    let b = MasterSecrets::draw().unwrap();
    assert!(a.is_well_formed() && b.is_well_formed());
    assert_eq!(a.key.as_slice().len(), 32);
    assert_ne!(a.key.as_slice(), b.key.as_slice());
    assert_ne!(a.phrase, b.phrase);
    assert_eq!(a.phrase.split(' ').count(), 24);
    assert_eq!(generate_recovery_phrase().unwrap().split(' ').count(), 24);
}

/// A machine with persistent handles, a disk and a clock.
struct Machine {
    handles: Vec<u32>,
    keys: Vec<Vec<u8>>,
    file: Option<SealedMasterKeyFile>,
    disk_full: bool,
}

impl Machine {
    fn new() -> Machine {
        Machine { handles: Vec::new(), keys: Vec::new(), file: None, disk_full: false }
    }

    fn perform(&mut self, request: MasterRequest) -> MasterReply {
        let ok = || MasterReply::Tpm(Ok(Vec::new()));
        match request {
            MasterRequest::SealedFileExists => MasterReply::Exists(self.file.is_some()),
            MasterRequest::Draw => MasterReply::Drawn(MasterSecrets::draw()),
            MasterRequest::Clock => MasterReply::Time(1_700_000_000_000),
            MasterRequest::PrepareDirectory { tighten } => MasterReply::Done(if tighten {
                Err("not root's".to_string())
            } else {
                Ok(())
            }),
            MasterRequest::WriteSealed { file } => {
                if self.disk_full {
                    return MasterReply::Done(Err("disk full".to_string()));
                }
                self.file = Some(file);
                MasterReply::Done(Ok(()))
            }
            MasterRequest::ReadSealed => match &self.file {
                Some(f) => MasterReply::File(Ok(SealedMasterKeyFile {
                    version: f.version,
                    created_unix_ms: f.created_unix_ms,
                    salt_b64: f.salt_b64.clone(),
                    nonce_b64: f.nonce_b64.clone(),
                    ciphertext_b64: f.ciphertext_b64.clone(),
                })),
                None => MasterReply::File(Err("no such file".to_string())),
            },
            MasterRequest::RemoveSealed => MasterReply::Removed(match self.file.take() {
                Some(_) => Removal::Removed,
                None => Removal::NotFound,
            }),
            MasterRequest::OpenTpm { tcti } => {
                assert_eq!(tcti, "device:/dev/tpmrm0");
                ok()
            }
            MasterRequest::FindPersistent { handle } => {
                if self.handles.contains(&handle) {
                    ok()
                } else {
                    MasterReply::Tpm(Err(TpmFailure {
                        kind: FailureKind::Handle,
                        text: "no such handle".to_string(),
                    }))
                }
            }
            MasterRequest::CreateParent { template } => {
                assert!(template.restricted_decryption && template.rsa_bits == 2048);
                ok()
            }
            MasterRequest::CreateKey { parent, template, key } => {
                assert_eq!(parent, MASTER_KEY_RSA_PARENT_HANDLE);
                assert!(template.sign_encrypt && !template.sensitive_data_origin);
                self.keys.push(key.as_slice().to_vec());
                ok()
            }
            MasterRequest::Persist { handle } => {
                self.handles.push(handle);
                ok()
            }
            MasterRequest::Evict { handle } => {
                self.handles.retain(|h| *h != handle);
                ok()
            }
            MasterRequest::Hmac { handle, data } => {
                assert!(handle == MASTER_KEY_HMAC_HANDLE && self.handles.contains(&handle));
                let key = self.keys.last().expect("a key");
                let digest = key.iter().zip(data.iter().cycle()).map(|(k, d)| k ^ d).collect();
                MasterReply::Tpm(Ok(digest))
            }
        }
    }

    fn drive<F, O>(
        &mut self,
        mut step: Step<MasterRequest, F, O>,
        resume: fn(F, MasterReply) -> Step<MasterRequest, F, O>,
    ) -> O {
        loop {
            match step {
                Step::Ask(request, paused) => step = resume(paused, self.perform(request)),
                Step::Done(outcome) => return outcome,
            }
        }
    }
}

use pinpam::master_key::{
    Clearing, DiskClearing, Import, Initialization, StatusErrand, TokenErrand,
};

#[test]
fn tokens_survive_a_recovery() {
    let mut machine = Machine::new();
    let (phrase, _) = machine.drive(init(0), Initialization::resume).0.expect("initialization");
    let before = machine.drive(derive_user_token("alice"), TokenErrand::resume).0.unwrap();
    let other = machine.drive(derive_user_token("bob"), TokenErrand::resume).0.unwrap();
    assert_eq!(before.len(), 64);
    assert_ne!(before, other);
    machine.drive(clear_from_tpm(0), Clearing::resume).expect("clear");
    assert!(matches!(
        machine.drive(derive_user_token("alice"), TokenErrand::resume).0,
        Err(MasterKeyError::Pin(PinError::TpmError(text))) if text == "no such handle"
    ));
    machine.drive(import_to_tpm(0, &phrase), Import::resume).expect("import");
    let after = machine.drive(derive_user_token("alice"), TokenErrand::resume).0.unwrap();
    assert_eq!(before, after);
}

#[test]
fn the_master_key_is_initialized_and_recovered() {
    let mut machine = Machine::new();
    let (phrase, presence) =
        machine.drive(init(0), Initialization::resume).0.expect("initialization");
    assert_eq!(presence, Presence { sealed_file: true, rsa_parent: true, hmac_key: true });
    assert_eq!(machine.handles, vec![MASTER_KEY_RSA_PARENT_HANDLE, MASTER_KEY_HMAC_HANDLE]);
    assert_eq!(machine.file.as_ref().unwrap().created_unix_ms, 1_700_000_000_000);

    // It is not initialized twice.
    assert!(matches!(
        machine.drive(init(0), Initialization::resume).0,
        Err(MasterKeyError::Refused(Refusal::SealedFileExists))
    ));

    // Nor imported over itself.
    assert!(matches!(
        machine.drive(import_to_tpm(0, &phrase), Import::resume),
        Err(MasterKeyError::Refused(Refusal::ParentPresent))
    ));

    // Cleared from the TPM, it is recovered from disk with the phrase alone.
    machine.drive(clear_from_tpm(0), Clearing::resume).expect("clear");
    assert!(machine.handles.is_empty());
    assert!(machine.drive(import_to_tpm(0, "wrong phrase"), Import::resume).is_err());
    assert!(machine.handles.is_empty());
    let presence = machine.drive(import_to_tpm(0, &phrase), Import::resume).expect("import");
    assert_eq!(presence, Presence { sealed_file: true, rsa_parent: true, hmac_key: true });
    assert_eq!(machine.keys.len(), 2);
    assert_eq!(machine.keys[0], machine.keys[1]);
}

#[test]
fn a_failed_initialization_is_taken_back() {
    let mut machine = Machine::new();
    machine.disk_full = true;
    match machine.drive(init(0), Initialization::resume).0 {
        Err(MasterKeyError::Pin(PinError::IoError(text))) => assert_eq!(text, "disk full"),
        other => panic!("expected IoError, got {other:?}"),
    }
    assert!(machine.handles.is_empty());
    assert!(machine.file.is_none());
}

#[test]
fn only_root_manages_the_master_key() {
    let mut machine = Machine::new();
    assert!(matches!(
        machine.drive(init(1000), Initialization::resume).0,
        Err(MasterKeyError::Pin(PinError::PermissionDenied))
    ));
    assert!(matches!(
        machine.drive(import_to_tpm(1000, PHRASE), Import::resume),
        Err(MasterKeyError::Pin(PinError::PermissionDenied))
    ));
    assert!(matches!(
        machine.drive(clear_from_tpm(1000), Clearing::resume),
        Err(MasterKeyError::Pin(PinError::PermissionDenied))
    ));
    assert!(matches!(
        machine.drive(clear_from_disk(1000), DiskClearing::resume),
        Err(MasterKeyError::Pin(PinError::PermissionDenied))
    ));
}

#[test]
fn imports_are_refused_for_a_reason() {
    let mut machine = Machine::new();
    assert!(matches!(
        machine.drive(import_to_tpm(0, PHRASE), Import::resume),
        Err(MasterKeyError::Refused(Refusal::NoSealedFile))
    ));
    machine.handles.push(MASTER_KEY_HMAC_HANDLE);
    assert!(matches!(
        machine.drive(import_to_tpm(0, PHRASE), Import::resume),
        Err(MasterKeyError::Refused(Refusal::KeyPresent))
    ));
    assert!(matches!(
        machine.drive(init(0), Initialization::resume).0,
        Err(MasterKeyError::Refused(Refusal::KeyExists))
    ));
}

#[test]
fn removing_no_sealed_file_is_fine() {
    let mut machine = Machine::new();
    machine.drive(clear_from_disk(0), DiskClearing::resume).expect("nothing to remove");
    let step = clear_from_disk(0);
    let Step::Ask(MasterRequest::RemoveSealed, paused) = step else {
        panic!("expected the removal");
    };
    match paused.resume(MasterReply::Removed(Removal::Failed("busy".to_string()))) {
        Step::Done(Err(MasterKeyError::Pin(PinError::IoError(text)))) => assert_eq!(text, "busy"),
        _ => panic!("expected IoError"),
    }
}

#[test]
fn the_status_names_the_places() {
    let mut machine = Machine::new();
    machine.handles.push(MASTER_KEY_RSA_PARENT_HANDLE);
    let presence = machine.drive(status(), StatusErrand::resume).unwrap();
    assert_eq!(presence, Presence { sealed_file: false, rsa_parent: true, hmac_key: false });
    let status = MasterKeyStatus::new(presence);
    assert!(!status.sealed_file_present && status.rsa_parent_present && !status.hmac_key_present);
    assert_eq!(status.sealed_file_path, MASTER_KEY_SEALED_FILE);
    assert_eq!(status.rsa_handle, MASTER_KEY_RSA_PARENT_HANDLE);
    assert_eq!(status.hmac_handle, MASTER_KEY_HMAC_HANDLE);
}

#[test]
fn refusals_have_messages() {
    assert_eq!(Refusal::KeyExists.key(), "mk_hmac_handle_already_exists");
    assert!(Refusal::KeyExists.is_tpm_error());
    assert!(Refusal::ParentPresent.is_tpm_error() && Refusal::KeyPresent.is_tpm_error());
    assert!(!Refusal::NoSealedFile.is_tpm_error());
    assert_eq!(Refusal::UnexpectedLength.key(), "mk_sealed_data_unexpected_length");
}
