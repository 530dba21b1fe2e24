use notifyd::CloseReason;
use notifyd::get_capabilities;
use notifyd::get_server_information;

#[test]
fn capabilities_are_stable_and_exact() {
    let caps = get_capabilities();
    let expected = vec![
        "action-icons",
        "actions",
        "body",
        "body-hyperlinks",
        "body-images",
        "body-markup",
        "icon-multi",
        "icon-static",
        "persistence",
        "sound",
    ];
    assert_eq!(caps, expected);
    // pure and side-effect free: a repeated call returns the same value
    assert_eq!(get_capabilities(), caps);
}

#[test]
fn server_information_is_stable_and_exact() {
    let info = get_server_information();
    assert_eq!(info.name, "libfuckyou");
    assert_eq!(info.vendor, "femmeromantic");
    assert_eq!(info.version, "0.1.1");
    assert_eq!(info.spec_version, "1.3");
    let again = get_server_information();
    assert_eq!(again.name, info.name);
    assert_eq!(again.vendor, info.vendor);
    assert_eq!(again.version, info.version);
    assert_eq!(again.spec_version, info.spec_version);
}

#[test]
fn close_reason_codes_follow_the_interface() {
    assert_eq!(CloseReason::Expired.code(), 1);
    assert_eq!(CloseReason::DismissedByUser.code(), 2);
    assert_eq!(CloseReason::DismissedByRequest.code(), 3);
    assert_eq!(CloseReason::Undefined.code(), 4);
}
