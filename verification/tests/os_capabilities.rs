use uikit_event_loop::os_capabilities::{
    meets_requirements, os_capabilities, OSCapabilities, OperatingSystemVersion,
};

fn version(major: isize, minor: isize, patch: isize) -> OperatingSystemVersion {
    OperatingSystemVersion { major, minor, patch }
}

#[test]
fn versions_are_compared_by_major_then_minor() {
    assert!(meets_requirements(version(10, 3, 0), 10, 3));
    assert!(meets_requirements(version(10, 4, 0), 10, 3));
    assert!(meets_requirements(version(11, 0, 0), 10, 3));
    assert!(!meets_requirements(version(10, 2, 9), 10, 3));
    assert!(!meets_requirements(version(9, 9, 9), 10, 3));
}

#[test]
fn features_follow_the_version() {
    let eight = os_capabilities(version(8, 4, 1));
    assert_eq!(
        eight,
        OSCapabilities {
            safe_area: false,
            home_indicator_hidden: false,
            defer_system_gestures: false,
            maximum_frames_per_second: false,
            force_touch: false,
            os_version: version(8, 4, 1),
        }
    );
    let nine = os_capabilities(version(9, 0, 0));
    assert!(nine.force_touch && !nine.maximum_frames_per_second);
    let ten = os_capabilities(version(10, 3, 0));
    assert!(ten.maximum_frames_per_second && !ten.safe_area);
    let eleven = os_capabilities(version(11, 0, 0));
    assert!(eleven.safe_area && eleven.home_indicator_hidden && eleven.defer_system_gestures);
    assert!(eleven.maximum_frames_per_second && eleven.force_touch);
}

#[test]
fn messages_name_the_call_and_the_versions() {
    let capabilities = os_capabilities(version(10, 2, 13));
    assert_eq!(
        capabilities.safe_area_err_msg("ignoring"),
        "`-[UIView safeAreaInsets]` requires iOS 11.0+. This device is running iOS 10.2.13. ignoring"
    );
    assert_eq!(
        capabilities.home_indicator_hidden_err_msg("ignoring"),
        "`-[UIViewController setNeedsUpdateOfHomeIndicatorAutoHidden]` requires iOS 11.0+. \
         This device is running iOS 10.2.13. ignoring"
    );
    assert_eq!(
        capabilities.defer_system_gestures_err_msg("ignoring"),
        "`-[UIViewController setNeedsUpdateOfScreenEdgesDeferringSystem]` requires iOS 11.0+. \
         This device is running iOS 10.2.13. ignoring"
    );
    assert_eq!(
        capabilities.maximum_frames_per_second_err_msg("falling back"),
        "`-[UIScreen maximumFramesPerSecond]` requires iOS 10.3+. \
         This device is running iOS 10.2.13. falling back"
    );
    assert_eq!(
        capabilities.force_touch_err_msg(""),
        "`-[UITouch force]` requires iOS 9.0+. This device is running iOS 10.2.13. "
    );
}

#[test]
fn messages_hold_any_number() {
    let capabilities = os_capabilities(version(isize::MIN, 0, isize::MAX));
    let expected = format!(
        "`-[UITouch force]` requires iOS 9.0+. This device is running iOS {}.{}.{}. !",
        isize::MIN,
        0,
        isize::MAX
    );
    assert_eq!(capabilities.force_touch_err_msg("!"), expected);
}
