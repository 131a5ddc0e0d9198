use madamiru::gui::grid::calculate_row_limit;
use madamiru::gui::grid::combined_flag;
use madamiru::gui::grid::Settings;
use madamiru::media::{parse_sources, unique_sources, Source};
use madamiru::path::StrictPath;
use madamiru::resource::playlist::{ContentFit, Group, Layout, NonZeroCount, Orientation, OrientationLimit};

fn src(raw: &str) -> Source {
    Source::new_path(StrictPath::new(raw.to_string()))
}

#[test]
fn settings_gain_sources_at_the_end() {
    let s = Settings::default().with_source(src("a"));
    let s = s.with_sources(vec![src("b"), src("c")]);
    assert_eq!(vec![src("a"), src("b"), src("c")], s.sources);
    assert_eq!(ContentFit::Scale, s.content_fit);
}

#[test]
fn sources_are_unique_in_first_order() {
    let glob = Source::Glob { pattern: "*.mp4".to_string() };
    let input = vec![src("a"), src("b"), src("a"), glob.clone(), src("b"), glob.clone()];
    assert_eq!(vec![src("a"), src("b"), glob], unique_sources(&input));
    let group = Group { sources: input, ..Group::default() };
    assert_eq!(vec![src("a"), src("b"), Source::Glob { pattern: "*.mp4".to_string() }], Layout::Group(group).sources());
}

#[test]
fn group_defaults() {
    let g = Group::default();
    assert_eq!(1, g.max_media);
    assert!(g.sources.is_empty());
    assert_eq!(Orientation::Horizontal, g.orientation);
    assert_eq!(OrientationLimit::Automatic, g.orientation_limit);
}

#[test]
fn orientation_limits() {
    assert_eq!(4, OrientationLimit::default_fixed().get());
    assert!(OrientationLimit::Fixed(OrientationLimit::default_fixed()).is_fixed());
    assert!(!OrientationLimit::Automatic.is_fixed());
    assert!(NonZeroCount::new(0).is_none());
    assert_eq!(2, NonZeroCount::new(2).unwrap().get());
}

#[test]
fn sources_from_command_line() {
    let paths = vec![StrictPath::new("a".to_string()), StrictPath::new("  ".to_string())];
    assert_eq!(vec![src("a")], parse_sources(paths, None));
    let lines = vec!["x".to_string(), " ".to_string(), "y".to_string()];
    assert_eq!(vec![src("x"), src("y")], parse_sources(vec![], Some(lines)));
    assert_eq!(Vec::<Source>::new(), parse_sources(vec![], None));
}

#[test]
fn combined_flags() {
    assert_eq!(None, combined_flag(&vec![]));
    assert_eq!(None, combined_flag(&vec![None, None]));
    assert_eq!(Some(true), combined_flag(&vec![None, Some(true)]));
    assert_eq!(Some(false), combined_flag(&vec![Some(true), Some(false), None]));
}

#[test]
fn row_limits() {
    assert_eq!(1, calculate_row_limit(0));
    assert_eq!(1, calculate_row_limit(1));
    assert_eq!(2, calculate_row_limit(2));
    assert_eq!(2, calculate_row_limit(4));
    assert_eq!(3, calculate_row_limit(5));
    assert_eq!(3, calculate_row_limit(9));
    assert_eq!(4, calculate_row_limit(10));
    assert_eq!(1_000_000, calculate_row_limit(1_000_000_000_000));
    assert_eq!(1_000_001, calculate_row_limit(1_000_000_000_001));
}

#[test]
fn counts_parse_like_nonzero_usize() {
    for raw in ["3", "+3", "003", "0", "", "+", "-3", " 3", "3x", "99999999999999999999999"] {
        let expected = raw.parse::<std::num::NonZeroUsize>().ok().map(|n| n.get());
        assert_eq!(expected, NonZeroCount::parse(raw).map(|c| c.get()), "{raw}");
    }
}

#[test]
fn editing_the_orientation_limit() {
    let fixed = OrientationLimit::Fixed(NonZeroCount::new(2).unwrap());
    assert_eq!(OrientationLimit::Fixed(NonZeroCount::new(7).unwrap()), fixed.edited("7"));
    assert_eq!(fixed, fixed.edited("0"));
    assert_eq!(fixed, fixed.edited("seven"));
    assert_eq!(OrientationLimit::Automatic, OrientationLimit::Automatic.edited("7"));
    assert_eq!(OrientationLimit::Automatic, OrientationLimit::of_kind(false, "7"));
    assert_eq!(OrientationLimit::Fixed(NonZeroCount::new(7).unwrap()), OrientationLimit::of_kind(true, "7"));
    assert_eq!(OrientationLimit::Fixed(OrientationLimit::default_fixed()), OrientationLimit::of_kind(true, ""));
}

#[test]
fn orientation_limit_text() {
    let fixed = OrientationLimit::Fixed(NonZeroCount::new(12).unwrap());
    assert_eq!("12", fixed.text());
    assert_eq!("4", OrientationLimit::Automatic.text());
    assert_eq!(fixed, fixed.edited(&fixed.text()));
    assert_eq!("18446744073709551615", madamiru::prelude::decimal_string(u64::MAX));
}
