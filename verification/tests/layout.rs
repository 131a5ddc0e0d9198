use madamiru::media::Source;
use madamiru::path::StrictPath;
use madamiru::resource::playlist::{Group, Layout, Playlist, Split, SplitAxis, HALF_RATIO_BITS};

fn src(raw: &str) -> Source {
    Source::new_path(StrictPath::new(raw.to_string()))
}

fn group(sources: Vec<Source>) -> Layout {
    Layout::Group(Group { sources, ..Group::default() })
}

#[test]
fn split_sources_take_first_then_second_once() {
    let layout = Layout::Split(Split {
        axis: SplitAxis::Vertical,
        ratio_bits: 0.25f32.to_bits(),
        first: Box::new(group(vec![src("a"), src("b"), src("a")])),
        second: Box::new(group(vec![src("c"), src("b"), src("d")])),
    });
    assert_eq!(vec![src("a"), src("b"), src("c"), src("d")], layout.sources());
}

#[test]
fn nested_split_sources() {
    let inner = Layout::Split(Split {
        first: Box::new(group(vec![src("x")])),
        second: Box::new(group(vec![src("y"), src("x")])),
        ..Split::default()
    });
    let outer = Layout::Split(Split {
        first: Box::new(group(vec![src("y")])),
        second: Box::new(inner),
        ..Split::default()
    });
    assert_eq!(vec![src("y"), src("x")], outer.sources());
}

#[test]
fn split_default_is_even() {
    let split = Split::default();
    assert_eq!(SplitAxis::Horizontal, split.axis);
    assert_eq!(0.5f32.to_bits(), split.ratio_bits);
    assert_eq!(HALF_RATIO_BITS, split.ratio_bits);
    assert_eq!(group(vec![]), *split.first);
    assert_eq!(group(vec![]), *split.second);
}

#[test]
fn playlist_default_and_sources() {
    assert_eq!(group(vec![]), Playlist::default().layout);
    let playlist = Playlist::new(group(vec![src("a"), src("a")]));
    assert_eq!(vec![src("a")], playlist.sources());
    assert_eq!(Vec::<Source>::new(), Playlist::default().sources());
    assert_eq!("madamiru", Playlist::EXTENSION);
}
