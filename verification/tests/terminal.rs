use sodium::terminal::Size;

#[test]
fn text_window_leaves_two_rows_for_the_bars() {
    assert_eq!(Size::of_terminal(80, 24), Size { height: 22, width: 80 });
    assert_eq!(Size::of_terminal(1, 2), Size { height: 0, width: 1 });
    assert_eq!(Size::of_terminal(0, 1), Size { height: 0, width: 0 });
    assert_eq!(Size::of_terminal(0, 0), Size { height: 0, width: 0 });
    assert_eq!(Size::of_terminal(u16::MAX, u16::MAX), Size { height: u16::MAX - 2, width: u16::MAX });
}
