use paw_one::ui::kit::select::Select;

#[test]
fn circular_selection_wraps_both_ways() {
    let options = ["saw", "sine", "square"];
    let mut s = Select::new(&options, 0, true);
    s.edit_by_encoder(-1);
    assert_eq!(*s.value(), "square");
    s.edit_by_encoder(4);
    assert_eq!(s.selected_index(), 0);
    s.edit_by_encoder(-6);
    assert_eq!(s.selected_index(), 0);
    s.edit_by_encoder(-7);
    assert_eq!(s.selected_index(), 2);
}

#[test]
fn bounded_selection_stops_at_the_ends() {
    let options = [1, 2, 3, 4];
    let mut s = Select::new(&options, 1, false);
    s.edit_by_encoder(10);
    assert_eq!(*s.value(), 4);
    s.edit_by_encoder(-2);
    assert_eq!(s.selected_index(), 1);
    s.edit_by_encoder(-5);
    assert_eq!(*s.value(), 1);
}
