//! Tests of the PIN policy and of its loading.

use pinpam::flow::Step;
use pinpam::pin::Pin;
use pinpam::pinerror::PinError;
use pinpam::pinpolicy::{
    metadata_is_secure, FileFacts, Loading, LoadingStandard, Parsing, PinPolicy, PolicyAnswer,
    PolicyQuery,
};

/// A system with one policy file, where `/usr/bin/pinutil` is a regular file and
/// backends are devices.
struct System {
    facts: FileFacts,
    contents: Option<String>,
    log: Vec<String>,
}

impl System {
    fn with(contents: &str) -> System {
        System {
            facts: FileFacts { regular: true, uid: 0, mode: 0o100644 },
            contents: Some(contents.to_string()),
            log: Vec::new(),
        }
    }

    fn answer(&mut self, query: PolicyQuery) -> PolicyAnswer {
        match query {
            PolicyQuery::Open { path } => {
                self.log.push(format!("open {path}"));
                PolicyAnswer::Opened(Some(self.facts))
            }
            PolicyQuery::Contents { path } => {
                self.log.push(format!("read {path}"));
                PolicyAnswer::Contents(self.contents.clone())
            }
            PolicyQuery::RegularFile { path } => {
                self.log.push(format!("file {path}"));
                PolicyAnswer::Checked(if path == "/usr/bin/pinutil" {
                    Ok(())
                } else {
                    Err("not a regular file".to_string())
                })
            }
            PolicyQuery::TctiSpec { spec } => {
                self.log.push(format!("tcti {spec}"));
                PolicyAnswer::Checked(if spec.starts_with("device:") {
                    Ok(())
                } else {
                    Err("unknown backend".to_string())
                })
            }
        }
    }

    fn drive<F, O>(
        &mut self,
        mut step: Step<PolicyQuery, F, O>,
        resume: fn(F, PolicyAnswer) -> Step<PolicyQuery, F, O>,
    ) -> O {
        loop {
            match step {
                Step::Ask(query, paused) => step = resume(paused, self.answer(query)),
                Step::Done(outcome) => return outcome,
            }
        }
    }

    fn parse(&mut self, config: &str) -> Result<PinPolicy, PinError> {
        self.drive(PinPolicy::parse_config(config), Parsing::resume).0
    }
}

fn parse(config: &str) -> Result<PinPolicy, PinError> {
    System::with("").parse(config)
}

fn tpm_error(config: &str) -> String {
    match parse(config) {
        Err(PinError::TpmError(text)) => text,
        other => panic!("expected TpmError, got {other:?}"),
    }
}

#[test]
fn a_full_configuration_is_read() {
    let policy = parse(
        "pin_min_length=5\npin_max_length=6\npin_lockout_max_attempts=7\n\
         pinutil_path=/usr/bin/pinutil\ntcti=device:/dev/tpm0\n",
    )
    .unwrap();
    assert_eq!(policy.min_length, 5);
    assert_eq!(policy.max_length, Some(6));
    assert_eq!(policy.max_attempts, 7);
    assert_eq!(policy.pinutil_path, "/usr/bin/pinutil");
    assert_eq!(policy.tcti.as_deref(), Some("device:/dev/tpm0"));
    assert_eq!(policy.tcti_spec(), "device:/dev/tpm0");
}

#[test]
fn the_utility_path_is_mandatory() {
    let missing = "some of the required parameters were not provided";
    for config in [
        "",
        " \n\t ",
        "colour=blue",
        "a=b=c x=",
        "pin_min_length=4 pin_max_length=6 pin_lockout_max_attempts=5 tcti=device:/dev/tpm0",
        "xpinutil_path=/usr/bin/pinutil",
    ] {
        assert_eq!(tpm_error(config), missing);
        let mut system = System::with(config);
        let step = PinPolicy::load_from_path("/tmp/policy");
        assert!(system.drive(step, Loading::resume).0.is_none());
        // Without a policy the default holds.
        let step = PinPolicy::load_from_standard_locations();
        assert_eq!(system.drive(step, LoadingStandard::resume).max_attempts, 3);
    }
    // An earlier refusal is reported first.
    assert_eq!(
        tpm_error("pin_min_length=x"),
        "the provided parameter is invalid for that type.",
    );
}

#[test]
fn what_is_not_configured_is_the_default() {
    for config in [
        "pinutil_path=/usr/bin/pinutil",
        " \n\tpinutil_path=/usr/bin/pinutil ",
        "colour=blue pinutil_path=/usr/bin/pinutil",
        "pinutil_path=/usr/bin/pinutil a=b=c x=",
        "x= pinutil_path=/usr/bin/pinutil colour=blue pin_min_length=4",
    ] {
        let policy = parse(config).unwrap();
        assert_eq!(policy.min_length, 4);
        assert_eq!(policy.max_length, Some(8));
        assert_eq!(policy.max_attempts, 3);
        assert_eq!(policy.pinutil_path, "/usr/bin/pinutil");
        assert_eq!(policy.tcti, None);
        assert_eq!(policy.tcti_spec(), "device:/dev/tpmrm0");
    }
}

#[test]
fn later_settings_win() {
    let policy =
        parse("pin_min_length=+6 pinutil_path=/usr/bin/pinutil pin_min_length=007").unwrap();
    assert_eq!(policy.min_length, 7);
}

#[test]
fn bad_settings_are_refused() {
    let invalid = "the provided parameter is invalid for that type.";
    let missing = "some of the required parameters were not provided";
    assert_eq!(tpm_error("pin_min_length"), missing);
    assert_eq!(tpm_error("pin_min_length = 4"), missing);
    assert_eq!(tpm_error("pin_min_length="), invalid);
    assert_eq!(tpm_error("pin_min_length=-1"), invalid);
    assert_eq!(tpm_error("pin_max_length=18446744073709551616"), invalid);
    assert_eq!(tpm_error("pin_lockout_max_attempts=4294967296"), invalid);
    assert_eq!(tpm_error("pin_lockout_max_attempts=5x"), invalid);
    assert_eq!(tpm_error("pinutil_path=bin/pinutil"), invalid);
    assert_eq!(tpm_error("pinutil_path=/nowhere"), invalid);
    assert_eq!(tpm_error("tcti="), invalid);
    assert_eq!(tpm_error("tcti=carrier-pigeon"), "unknown backend");
    assert_eq!(
        parse("pin_lockout_max_attempts=4294967295 pinutil_path=/usr/bin/pinutil")
            .unwrap()
            .max_attempts,
        u32::MAX,
    );
}

#[test]
fn a_refused_setting_ends_the_reading() {
    let mut system = System::with("");
    assert!(system.parse("pinutil_path=/nowhere tcti=device:x").is_err());
    assert_eq!(system.log, vec!["file /nowhere"]);
}

#[test]
fn a_trusted_file_is_loaded() {
    let mut system = System::with(
        "pin_min_length=6 tcti=device:/dev/tpm1 pinutil_path=/usr/bin/pinutil",
    );
    let policy = system
        .drive(PinPolicy::load_from_standard_locations(), LoadingStandard::resume);
    assert_eq!(policy.min_length, 6);
    assert_eq!(policy.tcti_spec(), "device:/dev/tpm1");
    assert_eq!(
        system.log,
        vec![
            "open /etc/pinpam/policy",
            "read /etc/pinpam/policy",
            "tcti device:/dev/tpm1",
            "file /usr/bin/pinutil",
        ],
    );
}

#[test]
fn an_untrusted_file_is_not_read() {
    for facts in [
        FileFacts { regular: false, uid: 0, mode: 0o644 },
        FileFacts { regular: true, uid: 1000, mode: 0o644 },
        FileFacts { regular: true, uid: 0, mode: 0o664 },
        FileFacts { regular: true, uid: 0, mode: 0o646 },
        FileFacts { regular: true, uid: 0, mode: 0o744 },
    ] {
        let mut system = System {
            facts,
            ..System::with("pin_min_length=6 pinutil_path=/usr/bin/pinutil")
        };
        let step = PinPolicy::load_from_path("/tmp/policy");
        assert!(system.drive(step, Loading::resume).0.is_none());
        assert_eq!(system.log, vec!["open /tmp/policy"]);
        let step = PinPolicy::load_from_standard_locations();
        assert_eq!(system.drive(step, LoadingStandard::resume).min_length, 4);
    }
}

#[test]
fn a_broken_file_gives_no_policy() {
    let mut system = System::with("pinutil_path=/usr/bin/pinutil pin_min_length");
    let step = PinPolicy::load_from_path("/tmp/policy");
    assert!(system.drive(step, Loading::resume).0.is_none());
    let mut system = System { contents: None, ..System::with("") };
    let step = PinPolicy::load_from_path("/tmp/policy");
    assert!(system.drive(step, Loading::resume).0.is_none());
}

#[test]
fn permissions_of_at_most_0644_are_secure() {
    for mode in 0..0o1000u32 {
        assert_eq!(metadata_is_secure(0, 0o100000 | mode), mode & !0o644 == 0);
        assert!(!metadata_is_secure(1, mode));
    }
}

#[test]
fn pins_are_normalized_and_measured_in_bytes() {
    let policy = PinPolicy::new(4, Some(6), 5, "/usr/bin/pinutil".to_string());
    assert_eq!(policy.tcti, None);
    let pin = Pin::new("\t 0123 \u{2003}", &policy).unwrap();
    assert_eq!(pin.as_str(), "0123");
    assert_eq!(pin.as_bytes(), b"0123");
    assert_eq!(Pin::new(pin.as_str(), &policy).unwrap().as_str(), "0123");
    assert!(matches!(Pin::new("   ", &policy), Err(PinError::PinIsEmpty)));
    assert!(matches!(
        Pin::new("123", &policy),
        Err(PinError::PinTooShort { length: 3, limit: 4 })
    ));
    assert!(matches!(
        Pin::new("1234567", &policy),
        Err(PinError::PinTooLong { length: 7, limit: 6 })
    ));
    // Two bytes for each letter.
    assert!(Pin::new("éé", &policy).is_ok());
    assert!(matches!(
        policy.validate("éééé"),
        Err(PinError::PinTooLong { length: 8, limit: 6 })
    ));
    let open = PinPolicy::new(1, None, 5, String::new());
    assert!(open.validate(&"9".repeat(10_000)).is_ok());
}
