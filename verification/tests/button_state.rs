use gbemu::button_state::ButtonState;

#[test]
fn test_button_state() {
    let buttons = ButtonState::default();
    assert!(!buttons.a());
    assert!(!buttons.b());
    assert!(!buttons.select());
    assert!(!buttons.start());
    assert!(!buttons.right());
    assert!(!buttons.left());
    assert!(!buttons.up());
    assert!(!buttons.down());

    let buttons = ButtonState::default().with_a(true);
    assert!(buttons.a());
    let buttons = ButtonState::default().with_b(true);
    assert!(buttons.b());
    let buttons = ButtonState::default().with_select(true);
    assert!(buttons.select());
    let buttons = ButtonState::default().with_start(true);
    assert!(buttons.start());
    let buttons = ButtonState::default().with_right(true);
    assert!(buttons.right());
    let buttons = ButtonState::default().with_left(true);
    assert!(buttons.left());
    let buttons = ButtonState::default().with_up(true);
    assert!(buttons.up());
    let buttons = ButtonState::default().with_down(true);
    assert!(buttons.down());
}

#[test]
fn to_joyp_nothing_selected() {
    // neither group selected: the low nibble reads all released and both
    // selection bits read 1
    let buttons = ButtonState::new();
    assert_eq!(buttons.to_joyp(false, false), 0b0011_1111 & 0x3F);
    assert_eq!(buttons.to_joyp(false, false), 0x3F);
}

#[test]
fn to_joyp_direction_group_reflects_press() {
    // the direction group reads the high nibble of the latch, active low
    let buttons = ButtonState::new().with_right(true);
    // action=true selects the high-nibble group; direction bit reads 1
    assert_eq!(buttons.to_joyp(true, false), 0b0001_1110);
}

#[test]
fn to_joyp_action_group_reflects_press() {
    let buttons = ButtonState::new().with_a(true);
    // direction=true selects the low-nibble group; action bit reads 1
    assert_eq!(buttons.to_joyp(false, true), 0b0010_1110);
}

#[test]
fn to_joyp_release_reads_all_ones() {
    let buttons = ButtonState::new();
    assert_eq!(buttons.to_joyp(true, true), 0b0000_1111);
}
