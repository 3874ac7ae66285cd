use shader_view::log_filter::{contains, quiet_filter, turn_down, DEFAULT_FILTER};

#[test]
fn no_filter_means_info_with_the_loud_crates_turned_down() {
    assert_eq!(DEFAULT_FILTER, "info");
    assert_eq!(
        quiet_filter(None),
        "info,naga=warn,wgpu_core=warn,wgpu_hal=warn"
    );
}

#[test]
fn given_filter_is_kept_in_front() {
    assert_eq!(
        quiet_filter(Some("debug")),
        "debug,naga=warn,wgpu_core=warn,wgpu_hal=warn"
    );
    assert_eq!(
        quiet_filter(Some("")),
        ",naga=warn,wgpu_core=warn,wgpu_hal=warn"
    );
}

#[test]
fn crates_that_the_user_spoke_of_are_left_alone() {
    assert_eq!(
        quiet_filter(Some("info,naga=trace")),
        "info,naga=trace,wgpu_core=warn,wgpu_hal=warn"
    );
    assert_eq!(
        quiet_filter(Some("wgpu_hal=debug,wgpu_core=info,naga=error")),
        "wgpu_hal=debug,wgpu_core=info,naga=error"
    );
    assert_eq!(
        quiet_filter(Some("wgpu_core=")),
        "wgpu_core=,naga=warn,wgpu_hal=warn"
    );
}

#[test]
fn a_crate_name_without_a_level_does_not_count() {
    assert_eq!(
        quiet_filter(Some("naga")),
        "naga,naga=warn,wgpu_core=warn,wgpu_hal=warn"
    );
}

#[test]
fn turn_down_one_crate() {
    assert_eq!(turn_down("info".to_string(), "naga"), "info,naga=warn");
    assert_eq!(turn_down("naga=off".to_string(), "naga"), "naga=off");
    assert_eq!(turn_down("xnaga=off".to_string(), "naga"), "xnaga=off");
    assert_eq!(turn_down("na=ga".to_string(), "naga"), "na=ga,naga=warn");
}

#[test]
fn contains_agrees_with_std() {
    let hays = ["", "a", "ab", "abcabc", "naga=warn", "wgpu_core=", "ünï=cödé", "aaa"];
    let needles = ["", "a", "b", "bc", "abc", "cab", "abcd", "=", "naga=", "ï=c", "aa", "aaaa"];
    for hay in hays {
        for needle in needles {
            assert_eq!(contains(hay, needle), hay.contains(needle), "{:?} in {:?}", needle, hay);
        }
    }
}
