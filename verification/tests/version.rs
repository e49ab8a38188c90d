use pulselogic::bridge::get_app_version;

#[test]
fn version_is_the_build_constant() {
    assert_eq!(get_app_version(), "1.0.0");
}

#[test]
fn version_is_pure_across_calls() {
    assert_eq!(get_app_version(), get_app_version());
}
