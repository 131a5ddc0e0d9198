//! The glyphs of the icon font that the interface draws.
use vstd::prelude::*;

verus! {

/// The icons that the interface shows.
#[derive(Clone, Copy, Debug, PartialEq, Eq)]
pub enum Icon {
    Add,
    ArrowDownward,
    ArrowUpward,
    Close,
    Error,
    File,
    FileOpen,
    FolderOpen,
    Image,
    Link,
    LogOut,
    Loop,
    Menu,
    MoreVert,
    Movie,
    Music,
    Mute,
    OpenInBrowser,
    OpenInNew,
    Pause,
    Play,
    PlaylistAdd,
    PlaylistRemove,
    Refresh,
    Save,
    SaveAs,
    Settings,
    Shuffle,
    SplitHorizontal,
    SplitVertical,
    TimerRefresh,
    Unlink,
    VolumeHigh,
    Cast,
    CastConnected,
}

/// The code point of each icon in the icon font.
pub open spec fn icon_char(icon: Icon) -> char {
    match icon {
        Icon::Add => '\u{E145}',
        Icon::ArrowDownward => '\u{E5DB}',
        Icon::ArrowUpward => '\u{E5D8}',
        Icon::Close => '\u{e14c}',
        Icon::Error => '\u{e000}',
        Icon::File => '\u{e24d}',
        Icon::FileOpen => '\u{eaf3}',
        Icon::FolderOpen => '\u{E2C8}',
        Icon::Image => '\u{e3f4}',
        Icon::Link => '\u{e157}',
        Icon::LogOut => '\u{e9ba}',
        Icon::Loop => '\u{e040}',
        Icon::Menu => '\u{e5d2}',
        Icon::MoreVert => '\u{E5D4}',
        Icon::Movie => '\u{e02c}',
        Icon::Music => '\u{e405}',
        Icon::Mute => '\u{e04f}',
        Icon::OpenInBrowser => '\u{e89d}',
        Icon::OpenInNew => '\u{E89E}',
        Icon::Pause => '\u{e034}',
        Icon::Play => '\u{e037}',
        Icon::PlaylistAdd => '\u{e03b}',
        Icon::PlaylistRemove => '\u{eb80}',
        Icon::Refresh => '\u{E5D5}',
        Icon::Save => '\u{e161}',
        Icon::SaveAs => '\u{eb60}',
        Icon::Settings => '\u{E8B8}',
        Icon::Shuffle => '\u{e043}',
        Icon::SplitHorizontal => '\u{e8d4}',
        Icon::SplitVertical => '\u{e8d5}',
        Icon::TimerRefresh => '\u{e889}',
        Icon::Unlink => '\u{e16f}',
        Icon::VolumeHigh => '\u{e050}',
        Icon::Cast => '\u{e905}',
        Icon::CastConnected => '\u{e909}',
    }
}

impl Icon {
    /// The icon's code point in the icon font.
    pub fn as_char(&self) -> (res: char)
        ensures
            res == icon_char(*self),
    {
        match self {
            Self::Add => '\u{E145}',
            Self::ArrowDownward => '\u{E5DB}',
            Self::ArrowUpward => '\u{E5D8}',
            Self::Close => '\u{e14c}',
            Self::Error => '\u{e000}',
            Self::File => '\u{e24d}',
            Self::FileOpen => '\u{eaf3}',
            Self::FolderOpen => '\u{E2C8}',
            Self::Image => '\u{e3f4}',
            Self::Link => '\u{e157}',
            Self::LogOut => '\u{e9ba}',
            Self::Loop => '\u{e040}',
            Self::Menu => '\u{e5d2}',
            Self::MoreVert => '\u{E5D4}',
            Self::Movie => '\u{e02c}',
            Self::Music => '\u{e405}',
            Self::Mute => '\u{e04f}',
            Self::OpenInBrowser => '\u{e89d}',
            Self::OpenInNew => '\u{E89E}',
            Self::Pause => '\u{e034}',
            Self::Play => '\u{e037}',
            Self::PlaylistAdd => '\u{e03b}',
            Self::PlaylistRemove => '\u{eb80}',
            Self::Refresh => '\u{E5D5}',
            Self::Save => '\u{e161}',
            Self::SaveAs => '\u{eb60}',
            Self::Settings => '\u{E8B8}',
            Self::Shuffle => '\u{e043}',
            Self::SplitHorizontal => '\u{e8d4}',
            Self::SplitVertical => '\u{e8d5}',
            Self::TimerRefresh => '\u{e889}',
            Self::Unlink => '\u{e16f}',
            Self::VolumeHigh => '\u{e050}',
            Self::Cast => '\u{e905}',
            Self::CastConnected => '\u{e909}',
        }
    }
}

/// Each icon has a glyph of its own.
pub proof fn law_icon_glyphs_distinct(a: Icon, b: Icon)
    ensures
        icon_char(a) == icon_char(b) ==> a == b,
{
}

} // verus!
