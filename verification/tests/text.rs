use hypr_overlay_wl::text::{
    count_label, initial_for_name, overflow_label, placeholder_color_index, talk_time_label,
    timer_label, to_dec,
};

#[test]
fn decimal_rendering() {
    assert_eq!(to_dec(0), "0");
    assert_eq!(to_dec(1000), "1000");
    assert_eq!(to_dec(u64::MAX), u64::MAX.to_string());
}

#[test]
fn clock_labels() {
    assert_eq!(talk_time_label(0), "0:00");
    assert_eq!(talk_time_label(59), "0:59");
    assert_eq!(talk_time_label(61), "1:01");
    assert_eq!(talk_time_label(3600), "1:00:00");
    assert_eq!(talk_time_label(3_725), "1:02:05");
    assert_eq!(timer_label(5), "\u{2022} 0:05");
    assert_eq!(timer_label(36_000), "\u{2022} 10:00:00");
}

#[test]
fn count_and_overflow_labels() {
    assert_eq!(count_label(3), "3 in channel");
    assert_eq!(overflow_label(12), "+12");
}

#[test]
fn initials() {
    assert_eq!(initial_for_name("bob"), "B".to_string());
    assert_eq!(initial_for_name(""), "?".to_string());
    assert_eq!(initial_for_name("émile"), "É".to_string());
    assert_eq!(initial_for_name("7up"), "7".to_string());
}

#[test]
fn placeholder_colors() {
    let idx = placeholder_color_index("user123");
    assert!(idx < 4);
    // 'u' (117) + '1' (49) = 166, 166 % 4 = 2
    assert_eq!(placeholder_color_index("u1"), 2);
    assert_eq!(placeholder_color_index(""), 0);
}
