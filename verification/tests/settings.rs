use privilege_escalation_policy::Settings;

#[test]
fn test_policy_with_no_settings() {
    // A configuration that sets nothing takes every documented default.
    let settings = Settings::default();
    assert!(
        settings.default_allow_privilege_escalation,
        "default_allow_privilege_escalation should be 'true' when not defined by the user"
    );
    assert!(settings.allowed_users.is_empty());
    assert!(settings.allowed_groups.is_empty());
}

#[test]
fn test_policy_with_settings() {
    let settings = Settings {
        default_allow_privilege_escalation: true,
        ..Default::default()
    };
    assert!(settings.default_allow_privilege_escalation);

    let settings = Settings {
        default_allow_privilege_escalation: false,
        ..Default::default()
    };
    assert!(!settings.default_allow_privilege_escalation);
}

#[test]
fn every_settings_value_is_valid() {
    assert!(Settings::default().validate().is_ok());
    let settings = Settings {
        default_allow_privilege_escalation: false,
        allowed_users: vec![String::from("alice")],
        allowed_groups: vec![String::from("ops")],
    };
    assert!(settings.validate().is_ok());
}
