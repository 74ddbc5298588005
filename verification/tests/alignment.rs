use window_core::alignment::{Margin, VerticalAlignment};

fn margin(top: u32, bottom: u32) -> Margin {
    Margin { top, right: 0, bottom, left: 0 }
}

#[test]
fn stretch_height_is_what_the_margins_leave() {
    assert_eq!(VerticalAlignment::Stretch.align_height(100, 20, margin(10, 5)), 85);
}

#[test]
fn center_height_is_the_goal_height() {
    assert_eq!(VerticalAlignment::Center.align_height(100, 20, margin(10, 5)), 20);
}

#[test]
fn top_and_bottom_height_is_the_goal_height() {
    assert_eq!(VerticalAlignment::Top.align_height(100, 20, margin(10, 5)), 20);
    assert_eq!(VerticalAlignment::Bottom.align_height(100, 20, margin(10, 5)), 20);
}

#[test]
fn stretch_height_is_negative_when_margins_exceed_the_slot() {
    assert_eq!(VerticalAlignment::Stretch.align_height(10, 20, margin(8, 7)), -5);
}

#[test]
fn stretch_height_at_the_limits() {
    assert_eq!(
        VerticalAlignment::Stretch.align_height(0, 0, margin(u32::MAX, u32::MAX)),
        -8589934590
    );
    assert_eq!(
        VerticalAlignment::Stretch.align_height(u32::MAX, 0, Margin::zero()),
        4294967295
    );
}

#[test]
fn bottom_position_leaves_height_and_margin_below() {
    assert_eq!(VerticalAlignment::Bottom.align_y(100, 20, margin(10, 5)), 75);
}

#[test]
fn bottom_position_is_negative_when_the_widget_does_not_fit() {
    assert_eq!(VerticalAlignment::Bottom.align_y(10, 20, margin(0, 5)), -15);
    assert_eq!(
        VerticalAlignment::Bottom.align_y(0, u32::MAX, margin(0, u32::MAX)),
        -8589934590
    );
}

#[test]
fn center_position_is_half_the_free_height() {
    assert_eq!(VerticalAlignment::Center.align_y(100, 20, Margin::zero()), 40);
    assert_eq!(VerticalAlignment::Center.align_y(20, 20, Margin::zero()), 0);
    assert_eq!(VerticalAlignment::Center.align_y(u32::MAX, 1, Margin::zero()), 2147483647);
}

#[test]
fn center_position_ignores_the_margin() {
    assert_eq!(VerticalAlignment::Center.align_y(100, 20, margin(10, 5)), 40);
}

#[test]
fn center_position_rounds_toward_zero() {
    assert_eq!(VerticalAlignment::Center.align_y(101, 20, Margin::zero()), 40);
    assert_eq!(VerticalAlignment::Center.align_y(10, 21, Margin::zero()), -5);
    assert_eq!(VerticalAlignment::Center.align_y(10, 20, Margin::zero()), -5);
}

#[test]
fn top_and_stretch_position_is_the_top_margin() {
    assert_eq!(VerticalAlignment::Top.align_y(100, 20, margin(10, 5)), 10);
    assert_eq!(VerticalAlignment::Stretch.align_y(100, 20, margin(10, 5)), 10);
    assert_eq!(VerticalAlignment::Stretch.align_y(0, 0, margin(u32::MAX, 0)), 4294967295);
}

#[test]
fn stretch_position_height_and_bottom_margin_fill_the_slot() {
    let m = margin(10, 5);
    let y = VerticalAlignment::Stretch.align_y(100, 20, m);
    let h = VerticalAlignment::Stretch.align_height(100, 20, m);
    assert_eq!(y, 10);
    assert_eq!(y + h + 5, 100);

    let wide = margin(70, 60);
    let y = VerticalAlignment::Stretch.align_y(100, 20, wide);
    let h = VerticalAlignment::Stretch.align_height(100, 20, wide);
    assert_eq!(h, -30);
    assert_eq!(y + h + 60, 100);
}

#[test]
fn zero_margin_has_no_width() {
    assert_eq!(Margin::zero(), Margin { top: 0, right: 0, bottom: 0, left: 0 });
}

#[test]
fn default_alignment_is_stretch() {
    assert_eq!(VerticalAlignment::default(), VerticalAlignment::Stretch);
}

#[test]
fn canonical_names_are_read() {
    assert_eq!(VerticalAlignment::from("Top"), VerticalAlignment::Top);
    assert_eq!(VerticalAlignment::from("Center"), VerticalAlignment::Center);
    assert_eq!(VerticalAlignment::from("Bottom"), VerticalAlignment::Bottom);
    assert_eq!(VerticalAlignment::from("Stretch"), VerticalAlignment::Stretch);
}

#[test]
fn names_are_read_in_any_case() {
    assert_eq!(VerticalAlignment::from("top"), VerticalAlignment::Top);
    assert_eq!(VerticalAlignment::from("TOP"), VerticalAlignment::Top);
    assert_eq!(VerticalAlignment::from("tOp"), VerticalAlignment::Top);
    assert_eq!(VerticalAlignment::from("center"), VerticalAlignment::Center);
    assert_eq!(VerticalAlignment::from("CENTER"), VerticalAlignment::Center);
    assert_eq!(VerticalAlignment::from("cEnTeR"), VerticalAlignment::Center);
    assert_eq!(VerticalAlignment::from("bottom"), VerticalAlignment::Bottom);
    assert_eq!(VerticalAlignment::from("BOTTOM"), VerticalAlignment::Bottom);
    assert_eq!(VerticalAlignment::from("stretch"), VerticalAlignment::Stretch);
}

#[test]
fn unknown_tokens_fall_back_to_stretch() {
    assert_eq!(VerticalAlignment::from(""), VerticalAlignment::Stretch);
    assert_eq!(VerticalAlignment::from("left"), VerticalAlignment::Stretch);
    assert_eq!(VerticalAlignment::from("to"), VerticalAlignment::Stretch);
    assert_eq!(VerticalAlignment::from("topp"), VerticalAlignment::Stretch);
    assert_eq!(VerticalAlignment::from(" top"), VerticalAlignment::Stretch);
    assert_eq!(VerticalAlignment::from("centre"), VerticalAlignment::Stretch);
    assert_eq!(VerticalAlignment::from("bottom "), VerticalAlignment::Stretch);
}

#[test]
fn neighbours_of_the_letters_are_not_letters() {
    // Only upper-case letters are moved onto lower-case ones: '4' lies as far
    // below 'T' as 'T' below 't', and '/' as far below 'O', yet neither is a letter.
    assert_eq!(VerticalAlignment::from("4op"), VerticalAlignment::Stretch);
    assert_eq!(VerticalAlignment::from("t/p"), VerticalAlignment::Stretch);
    assert_eq!(VerticalAlignment::from("\u{14}op"), VerticalAlignment::Stretch);
}

#[test]
fn letters_outside_ascii_match_no_name() {
    assert_eq!(VerticalAlignment::from("t\u{f8}p"), VerticalAlignment::Stretch);
    assert_eq!(VerticalAlignment::from("\u{ff34}op"), VerticalAlignment::Stretch);
    assert_eq!(VerticalAlignment::from("b\u{f6}ttom"), VerticalAlignment::Stretch);
}

#[test]
fn owned_tokens_are_read_like_borrowed_ones() {
    assert_eq!(VerticalAlignment::from(String::from("top")), VerticalAlignment::Top);
    assert_eq!(VerticalAlignment::from(String::from("Center")), VerticalAlignment::Center);
    assert_eq!(VerticalAlignment::from(String::from("BOTTOM")), VerticalAlignment::Bottom);
    assert_eq!(VerticalAlignment::from(String::from("middle")), VerticalAlignment::Stretch);
}

#[test]
fn into_reads_a_token() {
    let alignment: VerticalAlignment = "bottom".into();
    assert_eq!(alignment, VerticalAlignment::Bottom);
}
