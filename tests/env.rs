use peoplebot::env::{
    active_for_build, already_init, not_unicode, pick_existing_key, plan_env_value,
    prefixed_key_for, trim, BuildProfile, EnvError, EnvPlan, EnvRead, EnvSetError, EnvStore,
    EnvTarget, EnvValidationError,
};
use peoplebot::error::{error_reply, UserError};

#[test]
fn active_by_prefix() {
    assert!(active_for_build("DEV_X", BuildProfile::Debug));
    assert!(!active_for_build("DEV_X", BuildProfile::Release));
    assert!(active_for_build("PROD_X", BuildProfile::Release));
    assert!(!active_for_build("PROD_X", BuildProfile::Debug));
    assert!(active_for_build("BOTH_X", BuildProfile::Debug));
    assert!(active_for_build("X", BuildProfile::Release));
}

#[test]
fn prefixed_keys() {
    assert_eq!(prefixed_key_for("TOKEN", BuildProfile::Debug), "DEV_TOKEN");
    assert_eq!(prefixed_key_for("TOKEN", BuildProfile::Release), "PROD_TOKEN");
    assert_eq!(prefixed_key_for("BOTH_TOKEN", BuildProfile::Release), "BOTH_TOKEN");
    assert_eq!(prefixed_key_for("DEV_GUILD", BuildProfile::Release), "DEV_GUILD");
}

#[test]
fn picks_build_key_then_both() {
    let present = vec!["BOTH_A".to_string(), "DEV_A".to_string(), "BOTH_B".to_string()];
    assert_eq!(pick_existing_key("A", BuildProfile::Debug, &present), Some("DEV_A".to_string()));
    assert_eq!(pick_existing_key("A", BuildProfile::Release, &present), Some("BOTH_A".to_string()));
    assert_eq!(pick_existing_key("B", BuildProfile::Debug, &present), Some("BOTH_B".to_string()));
    assert_eq!(pick_existing_key("C", BuildProfile::Debug, &present), None);
    assert_eq!(pick_existing_key("DEV_A", BuildProfile::Release, &present), Some("DEV_A".to_string()));
    assert_eq!(pick_existing_key("PROD_A", BuildProfile::Release, &present), None);
}

#[test]
fn trims_white_space() {
    assert_eq!(trim("  5 \n"), "5");
    assert_eq!(trim("\t \u{3000}"), "");
    assert_eq!(trim("a b"), "a b");
    assert_eq!(trim(""), "");
}

#[test]
fn store_sets_once() {
    let mut s: EnvStore<u32> = EnvStore::new("LIMIT");
    assert_eq!(s.base_key(), "LIMIT");
    assert!(!s.is_set());
    assert!(s.set(3).is_ok());
    assert_eq!(s.set(4), Err(EnvSetError));
    assert_eq!(*s.get(), 3);
}

#[test]
fn env_targets() {
    let mut req: EnvStore<u32> = EnvStore::new("R");
    assert!(!req.optional());
    assert_eq!(req.set_none(), Err(EnvSetError));
    assert!(req.set_some(1).is_ok());
    let mut opt: EnvStore<Option<u32>> = EnvStore::new("O");
    assert!(EnvTarget::<u32>::optional(&opt));
    assert!(EnvTarget::<u32>::set_none(&mut opt).is_ok());
    assert_eq!(*opt.get(), None);
    assert_eq!(EnvTarget::<u32>::set_some(&mut opt, 2), Err(EnvSetError));
}

#[test]
fn plan_for_missing_and_blank() {
    let p = plan_env_value("LIMIT", BuildProfile::Debug, false, EnvRead::Absent);
    match p {
        EnvPlan::Fail(EnvError::Missing { var }) => assert_eq!(var, "DEV_LIMIT"),
        _ => panic!("expected Missing"),
    }
    let p = plan_env_value("LIMIT", BuildProfile::Release, true, EnvRead::Value("  ".to_string()));
    assert!(matches!(p, EnvPlan::StoreNone));
    let p = plan_env_value("DEV_X", BuildProfile::Release, false, EnvRead::Absent);
    assert!(matches!(p, EnvPlan::Skip));
}

#[test]
fn plan_for_values() {
    let p = plan_env_value("LIMIT", BuildProfile::Release, false, EnvRead::Value(" 4 ".to_string()));
    match p {
        EnvPlan::Parse { var, text } => {
            assert_eq!(var, "PROD_LIMIT");
            assert_eq!(text, "4");
        }
        _ => panic!("expected Parse"),
    }
    let p = plan_env_value("LIMIT", BuildProfile::Debug, true, EnvRead::NotUnicode("a\u{fffd}".to_string()));
    match p {
        EnvPlan::Fail(EnvError::Invalid { var, reason }) => {
            assert_eq!(var, "DEV_LIMIT");
            assert_eq!(reason, "value is not valid UTF-8: a\u{fffd}");
        }
        _ => panic!("expected Invalid"),
    }
}

#[test]
fn error_messages() {
    let m = EnvError::Missing { var: "DEV_A".to_string() };
    assert_eq!(m.message(), "Environment variable DEV_A must be set");
    let i = already_init("PROD_B");
    assert_eq!(i.message(), "Environment variable PROD_B is invalid: already initialized");
    let u = not_unicode("C", "x");
    assert_eq!(u.message(), "Environment variable C is invalid: value is not valid UTF-8: x");
    let all = EnvValidationError::from_errors(vec![m, i]);
    assert_eq!(
        all.details(),
        "- Environment variable DEV_A must be set\n- Environment variable PROD_B is invalid: already initialized"
    );
    assert!(all.message().starts_with("Environment validation failed:\n- "));
    assert_eq!(EnvValidationError::from_errors(vec![]).details(), "");
    assert_eq!(EnvSetError.message(), "already initialized");
}

#[test]
fn user_error_from_text() {
    let e: UserError = "queue is full".to_string().into();
    assert_eq!(e.message, "queue is full");
    assert_eq!(UserError::from_str("x").message, "x");
}

#[test]
fn error_replies() {
    let e = UserError::from_str("File too large");
    assert_eq!(error_reply(Some(&e)), "File too large");
    assert_eq!(error_reply(None), "An internal error occurred");
}
