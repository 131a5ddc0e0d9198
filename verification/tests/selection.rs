use madamiru::gui::selection::selectables;

#[test]
fn grids_with_one_player_are_selected_through_it() {
    let got = selectables(&vec![(7, 1), (8, 2), (9, 0)]);
    assert_eq!(
        vec![(7, Some(0)), (8, None), (8, Some(0)), (8, Some(1)), (9, None)],
        got
    );
    assert_eq!(Vec::<(u64, Option<usize>)>::new(), selectables(&vec![]));
}
