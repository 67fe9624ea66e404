//! End-to-end tests of the PIN lifecycle, against a simulated TPM.
//!
//! The emphasis here is on backward compatibility: once a PIN has been
//! provisioned by any version, it must remain verifiable.

use std::collections::HashMap;

use pinpam::flow::Step;
use pinpam::pin::Pin;
use pinpam::pinconstants::PIN_VERSION_UID_MAX;
use pinpam::pindata::PinData;
use pinpam::pinerror::{DeleteResult, PinError, PinResult, SetupError, VerificationResult};
use pinpam::pinindex::{nv_index_for_uid, version_nv_index_for_uid};
use pinpam::pinmanager::{
    AuthorizedDeletion, CountRead, Deletion, LockRead, PinManager, Restarting, Setup, SlotRead,
    TagRemoval, Verification,
};
use pinpam::pinpolicy::PinPolicy;
use pinpam::tpm::{
    CommandCode, FailureKind, NvKind, NvTemplate, PolicyTerms, Reply, TpmCommand, TpmFailure,
};

const TEST_UID: u32 = 4242;
const PIN_STRING: &str = "1234";
const WRONG_PIN: &str = "9999";

#[derive(Clone)]
struct Index {
    kind: NvKind,
    auth_read: bool,
    owner_read: bool,
    owner_write: bool,
    policy_write: bool,
    size: usize,
    policy: Option<Vec<u8>>,
    auth: Vec<u8>,
    data: Option<Vec<u8>>,
}

/// A TPM with NV indices and `PinFail` counters.
#[derive(Clone)]
struct SimTpm {
    nv: HashMap<u32, Index>,
    log: Vec<String>,
    /// Indices that refuse to be written.
    stuck: Vec<u32>,
}

fn refuse(kind: FailureKind) -> Reply {
    Err(TpmFailure { kind, text: format!("{kind:?}") })
}

fn digest(terms: PolicyTerms) -> Vec<u8> {
    let PolicyTerms { command: CommandCode::NvWrite, written } = terms;
    vec![0x5A, written as u8]
}

impl SimTpm {
    fn new() -> SimTpm {
        SimTpm { nv: HashMap::new(), log: Vec::new(), stuck: Vec::new() }
    }

    fn define(&mut self, template: NvTemplate, auth: Option<Vec<u8>>) -> Reply {
        if self.nv.contains_key(&template.index) {
            return refuse(FailureKind::Other);
        }
        self.nv.insert(
            template.index,
            Index {
                kind: template.kind,
                auth_read: template.auth_read,
                owner_read: template.owner_read,
                owner_write: template.owner_write,
                policy_write: template.policy_write,
                size: template.size,
                policy: template.policy,
                auth: auth.unwrap_or_default(),
                data: None,
            },
        );
        Ok(Vec::new())
    }

    fn perform(&mut self, command: TpmCommand) -> Reply {
        match command {
            TpmCommand::Restart { tcti } => {
                self.log.push(format!("restart {tcti}"));
                Ok(Vec::new())
            }
            TpmCommand::TrialDigest { terms } => {
                self.log.push("digest".to_string());
                Ok(digest(terms))
            }
            TpmCommand::Define { template, auth } => {
                self.log.push(format!("define {:#x}", template.index));
                self.define(template, auth.map(|a| a.as_slice().to_vec()))
            }
            TpmCommand::Undefine { index } => {
                self.log.push(format!("undefine {index:#x}"));
                match self.nv.remove(&index) {
                    Some(_) => Ok(Vec::new()),
                    None => refuse(FailureKind::Handle),
                }
            }
            TpmCommand::Lookup { index } => {
                self.log.push(format!("lookup {index:#x}"));
                match self.nv.get(&index) {
                    Some(_) => Ok(Vec::new()),
                    None => refuse(FailureKind::Handle),
                }
            }
            TpmCommand::ReadOwner { index } => {
                self.log.push(format!("read {index:#x}"));
                match self.nv.get(&index) {
                    None => refuse(FailureKind::Handle),
                    Some(i) if !i.owner_read => refuse(FailureKind::Other),
                    Some(i) => match &i.data {
                        Some(data) => Ok(data.clone()),
                        None => refuse(FailureKind::NvUninitialized),
                    },
                }
            }
            TpmCommand::WriteOwner { index, data, offset } => {
                self.log.push(format!("write {index:#x}"));
                let stuck = self.stuck.contains(&index);
                match self.nv.get_mut(&index) {
                    None => refuse(FailureKind::Handle),
                    Some(i) if !stuck && i.owner_write && offset == 0 && data.len() == i.size => {
                        i.data = Some(data);
                        Ok(Vec::new())
                    }
                    Some(_) => refuse(FailureKind::Other),
                }
            }
            TpmCommand::WritePolicy { index, terms, auth: _, data, offset } => {
                self.log.push(format!("write once {index:#x}"));
                match self.nv.get_mut(&index) {
                    None => refuse(FailureKind::Handle),
                    Some(i)
                        if i.policy_write
                            && i.policy == Some(digest(terms))
                            && terms.written == i.data.is_some()
                            && offset == 0
                            && data.len() == i.size =>
                    {
                        i.data = Some(data);
                        Ok(Vec::new())
                    }
                    Some(_) => refuse(FailureKind::Other),
                }
            }
            TpmCommand::ReadAuth { index, auth, size, offset } => {
                self.log.push(format!("present {index:#x}"));
                let Some(i) = self.nv.get_mut(&index) else {
                    return refuse(FailureKind::Handle);
                };
                let Some(data) = i.data.clone() else {
                    return refuse(FailureKind::NvUninitialized);
                };
                assert!(i.kind == NvKind::PinFail && i.auth_read && offset == 0);
                let slot = PinData::from_bytes(&data).expect("counters");
                if slot.pinCount >= slot.pinLimit {
                    return refuse(FailureKind::Other);
                }
                let right = i.auth == auth.as_slice();
                let count = if right { 0 } else { slot.pinCount + 1 };
                let bytes = PinData::new(count, slot.pinLimit).to_bytes();
                i.data = Some(bytes.clone());
                if right {
                    Ok(bytes[..size as usize].to_vec())
                } else {
                    refuse(FailureKind::AuthFail)
                }
            }
        }
    }
}

fn drive<F, O>(
    mut step: Step<TpmCommand, F, O>,
    resume: fn(F, Reply) -> Step<TpmCommand, F, O>,
    tpm: &mut SimTpm,
) -> O {
    loop {
        match step {
            Step::Ask(command, paused) => step = resume(paused, tpm.perform(command)),
            Step::Done(outcome) => return outcome,
        }
    }
}

/// A manager together with the TPM that it is connected to.
struct Connected<'a> {
    manager: PinManager,
    tpm: &'a mut SimTpm,
}

impl Connected<'_> {
    fn setup_pin(&mut self, uid: u32, pin: &Pin) -> Result<(), SetupError> {
        drive(self.manager.setup_pin(uid, pin), Setup::resume, self.tpm)
    }

    fn verify_pin(&mut self, uid: u32, pin: &Pin) -> PinResult<VerificationResult> {
        drive(self.manager.verify_pin(uid, pin), Verification::resume, self.tpm)
    }

    fn delete_pin_admin(&mut self, uid: u32) -> PinResult<()> {
        drive(self.manager.delete_pin_admin(uid), Deletion::resume, self.tpm)
    }

    fn delete_pin_with_auth(&mut self, uid: u32, pin: &Pin) -> PinResult<DeleteResult> {
        drive(self.manager.delete_pin_with_auth(uid, pin), AuthorizedDeletion::resume, self.tpm)
    }

    fn restart_context(&mut self) -> PinResult<()> {
        drive(self.manager.restart_context(), Restarting::resume, self.tpm)
    }

    fn is_locked_out(&mut self, uid: u32) -> PinResult<bool> {
        drive(self.manager.is_locked_out(uid), LockRead::resume, self.tpm)
    }

    fn get_attempt_count(&mut self, uid: u32) -> PinResult<Option<u32>> {
        drive(self.manager.get_attempt_count(uid), CountRead::resume, self.tpm)
    }

    fn get_pin_slot(&mut self, uid: u32) -> PinResult<Option<PinData>> {
        drive(self.manager.get_pin_slot(uid), SlotRead::resume, self.tpm)
    }

    fn remove_version_tag(&mut self, uid: u32) -> PinResult<()> {
        drive(self.manager.__test_remove_version_tag(uid), TagRemoval::resume, self.tpm)
    }
}

fn test_policy(max_attempts: u32) -> PinPolicy {
    PinPolicy {
        min_length: 4,
        max_length: Some(8),
        max_attempts,
        pinutil_path: String::from("/usr/bin/true"),
        tcti: None,
    }
}

fn pin(s: &str) -> Pin {
    Pin::new(s, &test_policy(5)).expect("valid PIN")
}

fn manager(tpm: &mut SimTpm, max_attempts: u32) -> Connected<'_> {
    let manager = PinManager::with_tcti(
        test_policy(max_attempts),
        "swtpm:host=127.0.0.1,port=2321".to_string(),
    );
    let mut connected = Connected { manager, tpm };
    connected.restart_context().expect("connect to the TPM");
    connected
}

#[test]
fn pin_lifecycle_create_verify_delete() {
    let mut swtpm = SimTpm::new();
    let mut mgr = manager(&mut swtpm, 5);

    mgr.setup_pin(TEST_UID, &pin(PIN_STRING)).expect("setup");
    mgr.restart_context().expect("restart after setup");

    match mgr.verify_pin(TEST_UID, &pin(PIN_STRING)).expect("verify") {
        VerificationResult::Success(slot) => {
            assert_eq!(slot.pinLimit, 5);
        }
        other => panic!("expected Success, got {other:?}"),
    }
    mgr.restart_context().expect("restart after verify");

    mgr.delete_pin_admin(TEST_UID).expect("delete");
    assert!(mgr.get_pin_slot(TEST_UID).expect("read slot").is_none());
}

#[test]
fn wrong_pin_locks_out_after_max_attempts() {
    let mut swtpm = SimTpm::new();
    let mut mgr = manager(&mut swtpm, 3);

    mgr.setup_pin(TEST_UID, &pin(PIN_STRING)).expect("setup");
    mgr.restart_context().expect("restart after setup");

    for attempt in 1..=2 {
        match mgr.verify_pin(TEST_UID, &pin(WRONG_PIN)).expect("verify") {
            VerificationResult::Invalid { locked } => {
                assert!(!locked, "should not be locked yet on attempt {attempt}");
            }
            other => panic!("expected Invalid, got {other:?}"),
        }
        mgr.restart_context().expect("restart between wrong attempts");
    }

    // Third wrong attempt trips the lockout.
    match mgr.verify_pin(TEST_UID, &pin(WRONG_PIN)).expect("verify") {
        VerificationResult::Invalid { locked: true } => {}
        other => panic!("expected Invalid {{ locked: true }}, got {other:?}"),
    }
    mgr.restart_context().expect("restart after lockout");

    // The slot now reports locked, regardless of which auth-related error the
    // TPM returns on a subsequent verify.
    assert!(mgr.is_locked_out(TEST_UID).expect("is_locked_out"));
}

#[test]
fn pin_survives_pinmanager_drop_and_recreate() {
    let mut swtpm = SimTpm::new();

    {
        let mut mgr = manager(&mut swtpm, 5);
        mgr.setup_pin(TEST_UID, &pin(PIN_STRING)).expect("setup");
    }

    let mut mgr = manager(&mut swtpm, 5);
    let result = mgr.verify_pin(TEST_UID, &pin(PIN_STRING)).expect("verify");
    assert!(
        matches!(result, VerificationResult::Success(_)),
        "expected Success after PinManager recreate, got {result:?}",
    );
}

/// Core backward-compatibility guarantee: a PIN created in one run of the TPM
/// must continue to verify after it is fully stopped and restarted from the same
/// persistent state.
#[test]
fn pin_survives_swtpm_restart() {
    let mut swtpm = SimTpm::new();

    {
        let mut mgr = manager(&mut swtpm, 5);
        mgr.setup_pin(TEST_UID, &pin(PIN_STRING)).expect("setup");
    }

    let mut swtpm = SimTpm { nv: swtpm.nv.clone(), log: Vec::new(), stuck: Vec::new() };

    let mut mgr = manager(&mut swtpm, 5);
    let result = mgr.verify_pin(TEST_UID, &pin(PIN_STRING)).expect("verify");
    assert!(
        matches!(result, VerificationResult::Success(_)),
        "expected Success after swtpm restart, got {result:?}",
    );
}

/// Simulates a PIN provisioned by an early release (no version tag NV index) and
/// confirms verify_pin still succeeds via the legacy migration path.
#[test]
fn legacy_pin_without_version_tag_still_verifies() {
    let mut swtpm = SimTpm::new();
    let mut mgr = manager(&mut swtpm, 5);

    mgr.setup_pin(TEST_UID, &pin(PIN_STRING)).expect("setup");
    mgr.remove_version_tag(TEST_UID).expect("drop version tag to simulate legacy state");
    mgr.restart_context().expect("restart context");

    let result = mgr.verify_pin(TEST_UID, &pin(PIN_STRING)).expect("verify");
    assert!(
        matches!(result, VerificationResult::Success(_)),
        "expected Success on legacy slot, got {result:?}",
    );

    // After migration the tag is back, so a follow-up verify still works.
    let result = mgr.verify_pin(TEST_UID, &pin(PIN_STRING)).expect("verify");
    assert!(
        matches!(result, VerificationResult::Success(_)),
        "expected Success after migration, got {result:?}",
    );
}

/// Two users do not interfere with each other's slots.
#[test]
fn separate_uids_are_independent() {
    let mut swtpm = SimTpm::new();
    let mut mgr = manager(&mut swtpm, 5);

    let uid_a = 1001;
    let uid_b = 1002;

    mgr.setup_pin(uid_a, &pin("1111")).expect("setup a");
    mgr.restart_context().expect("restart");
    mgr.setup_pin(uid_b, &pin("2222")).expect("setup b");
    mgr.restart_context().expect("restart");

    assert!(matches!(
        mgr.verify_pin(uid_a, &pin("1111")).expect("verify a"),
        VerificationResult::Success(_)
    ));
    mgr.restart_context().expect("restart");
    assert!(matches!(
        mgr.verify_pin(uid_b, &pin("2222")).expect("verify b"),
        VerificationResult::Success(_)
    ));
    mgr.restart_context().expect("restart");

    // Cross-PINs fail.
    assert!(matches!(
        mgr.verify_pin(uid_a, &pin("2222")).expect("cross a"),
        VerificationResult::Invalid { .. }
    ));
}

#[test]
fn setup_asks_the_tpm_in_order() {
    let mut tpm = SimTpm::new();
    {
        let mut mgr = manager(&mut tpm, 5);
        mgr.setup_pin(TEST_UID, &pin(PIN_STRING)).expect("setup");
    }
    let slot = nv_index_for_uid(TEST_UID).unwrap();
    let tag = version_nv_index_for_uid(TEST_UID).unwrap();
    let restart = "restart swtpm:host=127.0.0.1,port=2321".to_string();
    assert_eq!(
        tpm.log,
        vec![
            restart.clone(),
            format!("read {slot:#x}"),
            "digest".to_string(),
            format!("define {slot:#x}"),
            format!("write once {slot:#x}"),
            restart,
            format!("write {tag:#x}"),
            format!("define {tag:#x}"),
            format!("write {tag:#x}"),
        ],
    );
    let index = &tpm.nv[&slot];
    assert_eq!(index.auth, b"1234".to_vec());
    assert_eq!(index.size, 8);
    assert!(!index.owner_write && index.owner_read && index.policy_write);
    assert_eq!(index.data, Some(vec![0, 0, 0, 0, 0, 0, 0, 5]));
    assert_eq!(tpm.nv[&tag].data, Some(vec![1]));
}

#[test]
fn setup_overwrites_an_existing_pin() {
    let mut tpm = SimTpm::new();
    {
        let mut mgr = manager(&mut tpm, 5);
        mgr.setup_pin(TEST_UID, &pin("1111")).expect("setup");
        mgr.verify_pin(TEST_UID, &pin(WRONG_PIN)).expect("verify");
    }
    tpm.log.clear();
    let slot = nv_index_for_uid(TEST_UID).unwrap();
    let tag = version_nv_index_for_uid(TEST_UID).unwrap();
    let restart = "restart swtpm:host=127.0.0.1,port=2321".to_string();
    {
        let mut mgr = manager(&mut tpm, 7);
        mgr.setup_pin(TEST_UID, &pin("2222")).expect("setup");
        assert_eq!(
            mgr.verify_pin(TEST_UID, &pin("2222")).unwrap(),
            VerificationResult::Success(PinData::new(0, 7)),
        );
        assert_eq!(
            mgr.verify_pin(TEST_UID, &pin("1111")).unwrap(),
            VerificationResult::Invalid { locked: false },
        );
    }
    assert_eq!(
        tpm.log[1..6],
        [
            format!("read {slot:#x}"),
            format!("undefine {slot:#x}"),
            format!("undefine {tag:#x}"),
            restart,
            "digest".to_string(),
        ],
    );
    // A locked PIN is overwritten, too.
    let mut mgr = manager(&mut tpm, 1);
    mgr.setup_pin(TEST_UID, &pin("3333")).expect("setup");
    mgr.verify_pin(TEST_UID, &pin(WRONG_PIN)).expect("verify");
    assert!(mgr.is_locked_out(TEST_UID).unwrap());
    mgr.setup_pin(TEST_UID, &pin("4444")).expect("setup");
    assert_eq!(
        mgr.verify_pin(TEST_UID, &pin("4444")).unwrap(),
        VerificationResult::Success(PinData::new(0, 1)),
    );
}

/// A setup that was cut short leaves a slot without counters.
#[test]
fn setup_overwrites_an_unfinished_slot() {
    let mut tpm = SimTpm::new();
    let slot = nv_index_for_uid(TEST_UID).unwrap();
    manager(&mut tpm, 5).setup_pin(TEST_UID, &pin("1111")).expect("setup");
    tpm.nv.get_mut(&slot).unwrap().data = None;
    let mut mgr = manager(&mut tpm, 5);
    assert!(mgr.get_pin_slot(TEST_UID).unwrap().is_none());
    mgr.setup_pin(TEST_UID, &pin("2222")).expect("setup");
    assert_eq!(
        mgr.verify_pin(TEST_UID, &pin("2222")).unwrap(),
        VerificationResult::Success(PinData::new(0, 5)),
    );
}

/// Whatever the slot holds, it is overwritten.
#[test]
fn setup_overwrites_a_malformed_slot() {
    let slot = nv_index_for_uid(TEST_UID).unwrap();
    for payload in [vec![], vec![7], vec![0; 7], vec![0; 9]] {
        let mut tpm = SimTpm::new();
        manager(&mut tpm, 5).setup_pin(TEST_UID, &pin("1111")).expect("setup");
        tpm.nv.get_mut(&slot).unwrap().data = Some(payload);
        let mut mgr = manager(&mut tpm, 5);
        mgr.setup_pin(TEST_UID, &pin("2222")).expect("setup");
        assert_eq!(
            mgr.verify_pin(TEST_UID, &pin("2222")).unwrap(),
            VerificationResult::Success(PinData::new(0, 5)),
        );
    }
}

/// A slot that cannot be looked at is left alone.
#[test]
fn a_slot_out_of_reach_is_not_overwritten() {
    let manager = PinManager::with_tcti(test_policy(5), "device:/dev/tpmrm0".to_string());
    match manager.setup_pin(TEST_UID, &pin(PIN_STRING)) {
        Step::Ask(TpmCommand::ReadOwner { .. }, paused) => {
            match paused.resume(refuse(FailureKind::Other)) {
                Step::Done(Err(SetupError::Pin(PinError::TpmError(text)))) => {
                    assert_eq!(text, "Other");
                }
                _ => panic!("expected TpmError"),
            }
        }
        _ => panic!("expected a look at the slot"),
    }
}

#[test]
fn a_pin_that_cannot_be_removed_is_not_overwritten() {
    let manager = PinManager::with_tcti(test_policy(5), "device:/dev/tpmrm0".to_string());
    let mut step = manager.setup_pin(TEST_UID, &pin(PIN_STRING));
    let outcome = loop {
        match step {
            Step::Ask(command, paused) => {
                let reply = match command {
                    TpmCommand::ReadOwner { .. } => Ok(PinData::new(0, 5).to_bytes()),
                    TpmCommand::Undefine { .. } => refuse(FailureKind::BadAuth),
                    _ => panic!("nothing else is asked"),
                };
                step = paused.resume(reply);
            }
            Step::Done(outcome) => break outcome,
        }
    };
    match outcome {
        Err(SetupError::Pin(PinError::TpmError(text))) => assert_eq!(text, "BadAuth"),
        other => panic!("expected TpmError, got {other:?}"),
    }
}

#[test]
fn a_setup_without_a_tag_is_taken_back() {
    let mut tpm = SimTpm::new();
    let tag = version_nv_index_for_uid(TEST_UID).unwrap();
    tpm.stuck.push(tag);
    let mut mgr = manager(&mut tpm, 5);
    match mgr.setup_pin(TEST_UID, &pin(PIN_STRING)) {
        Err(SetupError::TagNotWritten { cause: PinError::TpmError(text) }) => {
            assert_eq!(text, "Other");
        }
        other => panic!("expected TagNotWritten, got {other:?}"),
    }
    assert!(mgr.get_pin_slot(TEST_UID).unwrap().is_none());
    assert!(tpm.nv.is_empty());
}

#[test]
fn a_failed_rollback_is_reported() {
    let policy = test_policy(5);
    let manager = PinManager::with_tcti(policy, "device:/dev/tpmrm0".to_string());
    let mut step = manager.setup_pin(TEST_UID, &pin(PIN_STRING));
    let outcome = loop {
        match step {
            Step::Ask(command, paused) => {
                let reply = match command {
                    TpmCommand::ReadOwner { .. } => refuse(FailureKind::Handle),
                    TpmCommand::WriteOwner { .. } => refuse(FailureKind::Other),
                    TpmCommand::Define { template, .. } if template.kind == NvKind::Ordinary => {
                        refuse(FailureKind::NvUninitialized)
                    }
                    TpmCommand::Undefine { .. } => refuse(FailureKind::BadAuth),
                    _ => Ok(Vec::new()),
                };
                step = paused.resume(reply);
            }
            Step::Done(outcome) => break outcome,
        }
    };
    match outcome {
        Err(SetupError::RollbackFailed {
            cause: PinError::TpmError(cause),
            rollback: PinError::TpmError(rollback),
        }) => {
            assert_eq!(cause, "NvUninitialized");
            assert_eq!(rollback, "BadAuth");
        }
        other => panic!("expected RollbackFailed, got {other:?}"),
    }
}

#[test]
fn the_right_pin_clears_the_count() {
    let mut tpm = SimTpm::new();
    let mut mgr = manager(&mut tpm, 3);
    mgr.setup_pin(TEST_UID, &pin(PIN_STRING)).expect("setup");
    assert_eq!(mgr.get_attempt_count(TEST_UID).unwrap(), Some(0));
    mgr.verify_pin(TEST_UID, &pin(WRONG_PIN)).expect("verify");
    assert_eq!(mgr.get_attempt_count(TEST_UID).unwrap(), Some(1));
    assert_eq!(mgr.get_pin_slot(TEST_UID).unwrap(), Some(PinData::new(1, 3)));
    assert!(!mgr.is_locked_out(TEST_UID).unwrap());
    assert_eq!(
        mgr.verify_pin(TEST_UID, &pin(PIN_STRING)).unwrap(),
        VerificationResult::Success(PinData::new(0, 3)),
    );
    assert_eq!(mgr.get_attempt_count(TEST_UID).unwrap(), Some(0));
}

#[test]
fn a_locked_pin_refuses_even_the_right_one() {
    let mut tpm = SimTpm::new();
    let mut mgr = manager(&mut tpm, 1);
    mgr.setup_pin(TEST_UID, &pin(PIN_STRING)).expect("setup");
    assert_eq!(
        mgr.verify_pin(TEST_UID, &pin(WRONG_PIN)).unwrap(),
        VerificationResult::Invalid { locked: true },
    );
    let long = Pin::new(&"7".repeat(65), &PinPolicy { max_length: None, ..test_policy(5) });
    for attempt in [pin(PIN_STRING), pin(WRONG_PIN), long.unwrap()] {
        assert_eq!(mgr.verify_pin(TEST_UID, &attempt).unwrap(), VerificationResult::LockedOut);
        assert_eq!(
            mgr.delete_pin_with_auth(TEST_UID, &attempt).unwrap(),
            DeleteResult::LockedOut,
        );
        assert_eq!(mgr.get_pin_slot(TEST_UID).unwrap(), Some(PinData::new(1, 1)));
    }
    // The same holds of a slot of an early release.
    mgr.remove_version_tag(TEST_UID).expect("drop the tag");
    assert_eq!(
        mgr.verify_pin(TEST_UID, &pin(PIN_STRING)).unwrap(),
        VerificationResult::LockedOut,
    );
    // Only removing it helps.
    mgr.delete_pin_admin(TEST_UID).expect("delete");
    mgr.setup_pin(TEST_UID, &pin(PIN_STRING)).expect("setup");
    assert!(matches!(
        mgr.verify_pin(TEST_UID, &pin(PIN_STRING)),
        Ok(VerificationResult::Success(_))
    ));
}

/// A PIN with leading zeros was stored without them by early releases.
#[test]
fn leading_zeros_are_restored_by_migration() {
    let mut tpm = SimTpm::new();
    let slot = nv_index_for_uid(TEST_UID).unwrap();
    tpm.define(
        NvTemplate {
            index: slot,
            kind: NvKind::PinFail,
            auth_read: true,
            owner_read: true,
            owner_write: false,
            policy_write: true,
            no_da: true,
            size: 8,
            policy: Some(digest(PolicyTerms { command: CommandCode::NvWrite, written: false })),
        },
        Some(b"42".to_vec()),
    )
    .unwrap();
    tpm.nv.get_mut(&slot).unwrap().data = Some(PinData::new(1, 3).to_bytes());
    {
        let mut mgr = manager(&mut tpm, 5);
        assert_eq!(
            mgr.verify_pin(TEST_UID, &pin("0042")).unwrap(),
            VerificationResult::Success(PinData::new(0, 3)),
        );
    }
    assert_eq!(tpm.nv[&slot].auth, b"0042".to_vec());
    let mut mgr = manager(&mut tpm, 5);
    assert_eq!(
        mgr.verify_pin(TEST_UID, &pin("0042")).unwrap(),
        VerificationResult::Success(PinData::new(0, 5)),
    );
    assert_eq!(
        mgr.verify_pin(TEST_UID, &pin("000042")).unwrap(),
        VerificationResult::Invalid { locked: false },
    );
}

/// A PIN of an early release is right even if its slot cannot be brought up to date.
#[test]
fn a_failed_migration_does_not_matter() {
    let mut tpm = SimTpm::new();
    let tag = version_nv_index_for_uid(TEST_UID).unwrap();
    {
        let mut mgr = manager(&mut tpm, 5);
        mgr.setup_pin(TEST_UID, &pin(PIN_STRING)).expect("setup");
        mgr.remove_version_tag(TEST_UID).expect("drop the tag");
    }
    tpm.stuck.push(tag);
    let mut mgr = manager(&mut tpm, 5);
    for _ in 0..2 {
        assert_eq!(
            mgr.verify_pin(TEST_UID, &pin(PIN_STRING)).unwrap(),
            VerificationResult::Success(PinData::new(0, 5)),
        );
    }
}

/// A PIN keeps the limit of the policy under which it was set up.
#[test]
fn a_new_policy_does_not_affect_existing_pins() {
    let mut tpm = SimTpm::new();
    manager(&mut tpm, 3).setup_pin(TEST_UID, &pin(PIN_STRING)).expect("setup");
    let mut mgr = manager(&mut tpm, 9);
    assert_eq!(mgr.get_pin_slot(TEST_UID).unwrap(), Some(PinData::new(0, 3)));
    mgr.verify_pin(TEST_UID, &pin(WRONG_PIN)).expect("verify");
    mgr.setup_pin(TEST_UID + 1, &pin(PIN_STRING)).expect("setup");
    assert_eq!(mgr.get_pin_slot(TEST_UID).unwrap(), Some(PinData::new(1, 3)));
    assert_eq!(mgr.get_pin_slot(TEST_UID + 1).unwrap(), Some(PinData::new(0, 9)));
}

/// A wrong PIN on a slot of an early release is counted, and the slot is left as
/// it is.
#[test]
fn a_wrong_legacy_pin_is_counted() {
    let mut tpm = SimTpm::new();
    let tag = version_nv_index_for_uid(TEST_UID).unwrap();
    {
        let mut mgr = manager(&mut tpm, 5);
        mgr.setup_pin(TEST_UID, &pin(PIN_STRING)).expect("setup");
        mgr.remove_version_tag(TEST_UID).expect("drop the tag");
        assert_eq!(
            mgr.verify_pin(TEST_UID, &pin(WRONG_PIN)).unwrap(),
            VerificationResult::Invalid { locked: false },
        );
        assert_eq!(mgr.get_attempt_count(TEST_UID).unwrap(), Some(1));
    }
    assert!(!tpm.nv.contains_key(&tag));
}

#[test]
fn an_unknown_version_is_refused() {
    let mut tpm = SimTpm::new();
    let tag = version_nv_index_for_uid(TEST_UID).unwrap();
    {
        let mut mgr = manager(&mut tpm, 5);
        mgr.setup_pin(TEST_UID, &pin(PIN_STRING)).expect("setup");
    }
    tpm.nv.get_mut(&tag).unwrap().data = Some(vec![200]);
    match manager(&mut tpm, 5).verify_pin(TEST_UID, &pin(PIN_STRING)) {
        Err(PinError::TpmError(text)) => assert_eq!(text, "unsupported PIN version tag: 200"),
        other => panic!("expected TpmError, got {other:?}"),
    }
    tpm.nv.get_mut(&tag).unwrap().data = Some(vec![1, 2, 3]);
    match manager(&mut tpm, 5).verify_pin(TEST_UID, &pin(PIN_STRING)) {
        Err(PinError::TpmError(text)) => {
            assert_eq!(text, "invalid PIN version tag payload size: 3");
        }
        other => panic!("expected TpmError, got {other:?}"),
    }
}

#[test]
fn a_short_payload_is_an_error() {
    let mut tpm = SimTpm::new();
    let slot = nv_index_for_uid(TEST_UID).unwrap();
    {
        let mut mgr = manager(&mut tpm, 5);
        mgr.setup_pin(TEST_UID, &pin(PIN_STRING)).expect("setup");
    }
    tpm.nv.get_mut(&slot).unwrap().data = Some(vec![0; 7]);
    match manager(&mut tpm, 5).get_pin_slot(TEST_UID) {
        Err(PinError::TpmError(text)) => assert_eq!(text, "invalid PIN slot payload size: 7"),
        other => panic!("expected TpmError, got {other:?}"),
    }
}

#[test]
fn deletion_by_the_pin_takes_the_right_pin() {
    let mut tpm = SimTpm::new();
    let mut mgr = manager(&mut tpm, 2);
    mgr.setup_pin(TEST_UID, &pin(PIN_STRING)).expect("setup");
    assert_eq!(
        mgr.delete_pin_with_auth(TEST_UID, &pin(WRONG_PIN)).unwrap(),
        DeleteResult::Invalid { locked: false },
    );
    assert_eq!(mgr.get_attempt_count(TEST_UID).unwrap(), Some(1));
    assert_eq!(
        mgr.delete_pin_with_auth(TEST_UID, &pin(PIN_STRING)).unwrap(),
        DeleteResult::Success,
    );
    assert!(mgr.get_pin_slot(TEST_UID).unwrap().is_none());
    assert!(tpm.nv.is_empty());
}

#[test]
fn without_a_pin_there_is_nothing_to_delete_or_verify() {
    let mut tpm = SimTpm::new();
    let mut mgr = manager(&mut tpm, 5);
    assert!(matches!(
        mgr.delete_pin_admin(TEST_UID),
        Err(PinError::NotProvisioned(TEST_UID))
    ));
    assert!(!mgr.is_locked_out(TEST_UID).unwrap());
    assert_eq!(mgr.get_attempt_count(TEST_UID).unwrap(), None);
    match mgr.verify_pin(TEST_UID, &pin(PIN_STRING)) {
        Err(PinError::TpmError(text)) => assert_eq!(text, "Handle"),
        other => panic!("expected TpmError, got {other:?}"),
    }
}

#[test]
fn a_uid_without_a_slot_is_refused() {
    let mut tpm = SimTpm::new();
    let uid = PIN_VERSION_UID_MAX + 1;
    let mut mgr = manager(&mut tpm, 5);
    assert!(matches!(
        mgr.setup_pin(uid, &pin(PIN_STRING)),
        Err(SetupError::Pin(PinError::UidOverflow(u))) if u == uid
    ));
    assert!(matches!(
        mgr.verify_pin(uid, &pin(PIN_STRING)),
        Err(PinError::UidOverflow(u)) if u == uid
    ));
    assert!(matches!(mgr.delete_pin_admin(uid), Err(PinError::UidOverflow(u)) if u == uid));
    assert!(matches!(mgr.get_pin_slot(uid), Err(PinError::UidOverflow(u)) if u == uid));
    assert!(matches!(mgr.is_locked_out(uid), Err(PinError::UidOverflow(u)) if u == uid));
    assert!(matches!(mgr.get_attempt_count(uid), Err(PinError::UidOverflow(u)) if u == uid));
    // Nothing but the connection was asked for.
    assert_eq!(tpm.log.len(), 1);
    assert_eq!(nv_index_for_uid(PIN_VERSION_UID_MAX).unwrap(), 0x015F_FFFF);
    assert_eq!(version_nv_index_for_uid(0).unwrap(), 0x0160_0000);
}

#[test]
fn a_pin_that_is_too_long_for_the_tpm_is_refused() {
    let mut tpm = SimTpm::new();
    let policy = PinPolicy { max_length: None, ..test_policy(5) };
    let long = Pin::new(&"7".repeat(65), &policy).unwrap();
    let fits = Pin::new(&"7".repeat(64), &policy).unwrap();
    let mut mgr = manager(&mut tpm, 5);
    match mgr.setup_pin(TEST_UID, &long) {
        Err(SetupError::Pin(PinError::TpmError(text))) => {
            assert_eq!(text, "parameter provided is of the wrong size");
        }
        other => panic!("expected TpmError, got {other:?}"),
    }
    mgr.setup_pin(TEST_UID, &fits).expect("setup");
    match mgr.verify_pin(TEST_UID, &long) {
        Err(PinError::TpmError(text)) => {
            assert_eq!(text, "parameter provided is of the wrong size");
        }
        other => panic!("expected TpmError, got {other:?}"),
    }
    assert!(matches!(
        mgr.verify_pin(TEST_UID, &fits),
        Ok(VerificationResult::Success(_))
    ));
}

#[test]
fn the_policy_names_the_backend() {
    let mut tpm = SimTpm::new();
    let policy = PinPolicy { tcti: Some("mssim:port=1".to_string()), ..test_policy(5) };
    let step = PinManager::new(policy).restart_context();
    drive(step, Restarting::resume, &mut tpm).unwrap();
    let step = PinManager::new(test_policy(5)).restart_context();
    drive(step, Restarting::resume, &mut tpm).unwrap();
    assert_eq!(tpm.log, vec!["restart mssim:port=1", "restart device:/dev/tpmrm0"]);
}
