use debian_bridge_core::catalog::{FeaturesList, LABEL_WIDTH};
use debian_bridge_core::feature::Feature;
use debian_bridge_core::text::{splice, splice3, join_terminated, pad_right};

#[test]
fn labels_are_readable() {
    assert_eq!(Feature::Display.label(), "Display");
    assert_eq!(Feature::Sound.label(), "Sound");
    assert_eq!(Feature::Notification.label(), "Notification");
    assert_eq!(Feature::Devices.label(), "Devices");
    assert_eq!(Feature::HomePersistent.label(), "Home persistent");
    assert_eq!(Feature::Time.label(), "Timezone");
}

#[test]
fn catalog_lists_every_feature_once() {
    assert_eq!(
        Feature::all(),
        vec![
            Feature::Display,
            Feature::Sound,
            Feature::Notification,
            Feature::Devices,
            Feature::HomePersistent,
            Feature::Time,
        ]
    );
}

#[test]
fn display_and_sound_follow_the_host() {
    for wm in [false, true] {
        for sd in [false, true] {
            let list = FeaturesList::new(wm, sd);
            assert_eq!(list.is_available(Feature::Display), wm);
            assert_eq!(list.is_available(Feature::Sound), sd);
            assert!(list.is_available(Feature::Notification));
            assert!(list.is_available(Feature::Devices));
            assert!(list.is_available(Feature::HomePersistent));
            assert!(list.is_available(Feature::Time));
        }
    }
}

#[test]
fn empty_request_is_always_valid() {
    assert!(FeaturesList::new(false, false).validate(&vec![]));
    assert!(FeaturesList::new(true, true).validate(&vec![]));
    assert_eq!(FeaturesList::new(false, false).first_unavailable(&vec![]), None);
}

#[test]
fn request_is_invalid_iff_one_feature_is_unavailable() {
    let list = FeaturesList::new(true, false);
    assert!(list.validate(&vec![Feature::Display]));
    assert!(list.validate(&vec![Feature::Display, Feature::Time, Feature::Devices]));
    assert!(!list.validate(&vec![Feature::Sound]));
    assert!(!list.validate(&vec![Feature::Display, Feature::Sound]));
    assert!(!list.validate(&vec![Feature::Sound, Feature::Display]));
    assert!(list.validate(&vec![Feature::Display, Feature::Display]));
    let none = FeaturesList::new(false, false);
    assert!(!none.validate(&vec![Feature::Display]));
    assert!(none.validate(&vec![Feature::Notification, Feature::HomePersistent]));
}

#[test]
fn first_unavailable_is_the_first_in_the_request() {
    let none = FeaturesList::new(false, false);
    assert_eq!(
        none.first_unavailable(&vec![Feature::Time, Feature::Sound, Feature::Display]),
        Some(Feature::Sound)
    );
    assert_eq!(
        none.first_unavailable(&vec![Feature::Display, Feature::Sound]),
        Some(Feature::Display)
    );
    assert_eq!(none.first_unavailable(&vec![Feature::Time]), None);
}

#[test]
fn listing_shows_each_feature_in_its_colour() {
    assert_eq!(LABEL_WIDTH, 15);
    let text = FeaturesList::new(true, false).describe();
    let expected = "\n\n\
        \tDisplay         ===> \x1B[38;5;2mavailable\x1B[0m\n\
        \tSound           ===> \x1B[38;5;1munavailable\x1B[0m\n\
        \tNotification    ===> \x1B[38;5;2mavailable\x1B[0m\n\
        \tDevices         ===> \x1B[38;5;2mavailable\x1B[0m\n\
        \tHome persistent ===> \x1B[38;5;2mavailable\x1B[0m\n\
        \tTimezone        ===> \x1B[38;5;2mavailable\x1B[0m\n";
    assert_eq!(text, expected);
}

#[test]
fn listing_of_a_bare_host() {
    let text = FeaturesList::new(false, false).describe();
    assert!(text.starts_with("\n\n\tDisplay         ===> \x1B[38;5;1munavailable\x1B[0m\n"));
    assert_eq!(text.matches("unavailable").count(), 2);
    assert_eq!(text.lines().count(), 8);
}

#[test]
fn pad_right_fills_with_spaces() {
    assert_eq!(pad_right("abc", 5), "abc  ");
    assert_eq!(pad_right("abc", 3), "abc");
    assert_eq!(pad_right("abcdef", 3), "abcdef");
    assert_eq!(pad_right("", 2), "  ");
    assert_eq!(pad_right("\u{e9}", 3), "\u{e9}  ");
    assert_eq!(pad_right("Home persistent", 15), "Home persistent");
}

#[test]
fn splice_and_join() {
    assert_eq!(splice("ab", "cd"), "abcd");
    assert_eq!(splice3("a", "", "c"), "ac");
    assert_eq!(join_terminated(&vec![], ";"), "");
    assert_eq!(join_terminated(&vec!["a".to_string(), "b".to_string()], ";\n"), "a;\nb;\n");
}
