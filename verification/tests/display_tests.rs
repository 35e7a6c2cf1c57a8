use vigil::display::{usage_bar, BAR_WIDTH};

#[test]
fn usage_bar_cells() {
    assert_eq!(usage_bar(0), "░░░░░░░░░░");
    assert_eq!(usage_bar(3), "███░░░░░░░");
    assert_eq!(usage_bar(BAR_WIDTH), "██████████");
    assert_eq!(usage_bar(7).chars().count(), 10);
}
