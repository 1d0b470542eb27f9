use export_preview::jump::{
    clamp_position, clip_range, combine_range, normalize_range, position_le, resolve_span_range,
    DocToSrcJumpInfo, Position,
};

fn info(file: &str, start: Option<Position>, end: Option<Position>) -> DocToSrcJumpInfo {
    DocToSrcJumpInfo { filepath: String::from(file), start, end }
}

fn at(file: &str, pos: Position) -> DocToSrcJumpInfo {
    info(file, Some(pos), Some(pos))
}

#[test]
fn positions_are_ordered_by_line_then_column() {
    assert!(position_le((1, 5), (2, 0)));
    assert!(!position_le((2, 0), (1, 5)));
    assert!(position_le((3, 4), (3, 4)));
    assert!(position_le((3, 4), (3, 5)));
    assert!(!position_le((3, 5), (3, 4)));
    assert!(position_le((0, usize::MAX), (1, 0)));
}

#[test]
fn clamp_moves_a_position_into_the_range() {
    assert_eq!(clamp_position((1, 0), (5, 0), (20, 0)), (5, 0));
    assert_eq!(clamp_position((30, 0), (5, 0), (20, 0)), (20, 0));
    assert_eq!(clamp_position((7, 3), (5, 0), (20, 0)), (7, 3));
    assert_eq!(clamp_position((5, 0), (5, 0), (20, 0)), (5, 0));
    assert_eq!(clamp_position((20, 1), (5, 0), (20, 0)), (20, 0));
    assert_eq!(clamp_position((7, 3), (20, 0), (5, 0)), (5, 0));
}

#[test]
fn out_of_order_ends_are_swapped() {
    let st = at("fileA", (10, 12));
    let ed = at("fileA", (8, 9));
    let combined = combine_range(Some(st), Some(ed)).unwrap();
    assert_eq!(combined, info("fileA", Some((10, 12)), Some((8, 9))));
    let ordered = normalize_range(combined);
    assert_eq!(ordered, info("fileA", Some((8, 9)), Some((10, 12))));
    let st = at("fileA", (10, 12));
    let ed = at("fileA", (8, 9));
    assert_eq!(
        resolve_span_range(Some(st), Some(ed), None),
        Some(info("fileA", Some((8, 9)), Some((10, 12))))
    );
}

#[test]
fn a_range_beyond_the_element_becomes_the_element() {
    let element = info("fileA", Some((5, 0)), Some((20, 0)));
    let combined = info("fileA", Some((1, 0)), Some((30, 0)));
    assert_eq!(
        clip_range(Some(element), Some(combined)),
        Some(info("fileA", Some((5, 0)), Some((20, 0))))
    );
    let element = at("fileA", (5, 20));
    let combined = at("fileA", (1, 30));
    assert_eq!(clip_range(Some(element), Some(combined)), Some(at("fileA", (5, 20))));
}

#[test]
fn the_whole_reconciliation_clips_to_the_element() {
    let st = at("fileA", (1, 0));
    let ed = at("fileA", (30, 0));
    let element = info("fileA", Some((5, 0)), Some((20, 0)));
    assert_eq!(
        resolve_span_range(Some(st), Some(ed), Some(element)),
        Some(info("fileA", Some((5, 0)), Some((20, 0))))
    );
}

#[test]
fn different_files_take_the_end_record() {
    let st = at("fileA", (1, 1));
    let ed = info("fileB", Some((7, 2)), Some((7, 9)));
    assert_eq!(
        combine_range(Some(st), Some(ed)),
        Some(info("fileB", Some((7, 2)), Some((7, 9))))
    );
    let st = at("fileA", (1, 1));
    let ed = info("fileB", Some((7, 2)), Some((7, 9)));
    assert_eq!(
        resolve_span_range(Some(st), Some(ed), None),
        Some(info("fileB", Some((7, 2)), Some((7, 9))))
    );
}

#[test]
fn nothing_resolved_is_no_jump() {
    assert_eq!(combine_range(None, None), None);
    assert_eq!(clip_range(None, None), None);
    assert_eq!(resolve_span_range(None, None, None), None);
}

#[test]
fn one_resolved_end_is_taken() {
    assert_eq!(
        combine_range(Some(info("a", Some((1, 2)), None)), None),
        Some(info("a", Some((1, 2)), None))
    );
    assert_eq!(
        combine_range(None, Some(info("b", None, Some((3, 4))))),
        Some(info("b", None, Some((3, 4))))
    );
}

#[test]
fn a_start_out_of_order_gives_way_to_the_end() {
    let st = info("a", Some((9, 0)), Some((2, 0)));
    let ed = info("a", Some((4, 0)), Some((5, 0)));
    assert_eq!(combine_range(Some(st), Some(ed)), Some(info("a", Some((4, 0)), Some((5, 0)))));
    let st = info("a", Some((9, 0)), None);
    let ed = info("a", Some((4, 0)), Some((5, 0)));
    assert_eq!(combine_range(Some(st), Some(ed)), Some(info("a", Some((4, 0)), Some((5, 0)))));
}

#[test]
fn equal_ends_are_swapped_without_effect() {
    assert_eq!(normalize_range(at("a", (3, 3))), at("a", (3, 3)));
    assert_eq!(
        normalize_range(info("a", Some((1, 0)), Some((2, 0)))),
        info("a", Some((1, 0)), Some((2, 0)))
    );
    assert_eq!(normalize_range(info("a", None, Some((2, 0)))), info("a", None, Some((2, 0))));
    assert_eq!(normalize_range(info("a", Some((2, 0)), None)), info("a", Some((2, 0)), None));
}

#[test]
fn an_unknown_end_is_taken_from_the_other_end() {
    let element = info("a", None, Some((10, 0)));
    let range = info("a", Some((12, 0)), None);
    assert_eq!(
        clip_range(Some(element), Some(range)),
        Some(info("a", Some((10, 0)), Some((10, 0))))
    );
    let element = info("a", Some((2, 0)), Some((10, 0)));
    let range = info("a", None, Some((4, 0)));
    assert_eq!(
        clip_range(Some(element), Some(range)),
        Some(info("a", Some((4, 0)), Some((4, 0))))
    );
}

#[test]
fn without_any_known_end_nothing_is_clipped() {
    let element = info("a", None, None);
    let range = info("a", Some((1, 0)), Some((3, 0)));
    assert_eq!(clip_range(Some(element), Some(range)), Some(info("a", Some((1, 0)), Some((3, 0)))));
    let element = info("a", Some((1, 0)), Some((3, 0)));
    let range = info("a", None, None);
    assert_eq!(clip_range(Some(element), Some(range)), Some(info("a", None, None)));
}

#[test]
fn an_element_in_another_file_does_not_clip() {
    let element = info("b", Some((5, 0)), Some((6, 0)));
    let range = info("a", Some((1, 0)), Some((30, 0)));
    assert_eq!(clip_range(Some(element), Some(range)), Some(info("a", Some((1, 0)), Some((30, 0)))));
}

#[test]
fn the_one_that_resolved_is_taken() {
    assert_eq!(
        clip_range(Some(info("a", Some((1, 0)), None)), None),
        Some(info("a", Some((1, 0)), None))
    );
    assert_eq!(
        clip_range(None, Some(info("a", None, Some((1, 0))))),
        Some(info("a", None, Some((1, 0))))
    );
    assert_eq!(
        resolve_span_range(None, None, Some(info("a", Some((1, 0)), Some((2, 0))))),
        Some(info("a", Some((1, 0)), Some((2, 0))))
    );
}

#[test]
fn a_range_within_the_element_is_unchanged() {
    let element = info("a", Some((1, 0)), Some((9, 0)));
    let range = info("a", Some((2, 5)), Some((3, 1)));
    assert_eq!(clip_range(Some(element), Some(range)), Some(info("a", Some((2, 5)), Some((3, 1)))));
}
