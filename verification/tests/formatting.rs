use madamiru::resource::playlist::with_hint;
use madamiru::prelude::{canonical_version, parse_u32};
use madamiru::dlna::{DlnaDevice, DlnaError};
use madamiru::gui::icon::Icon;
use madamiru::prelude::{timestamp_hhmmss, timestamp_mmss};
use madamiru::video_enhance::EnhanceError;

#[test]
fn can_format_timestamp_mmss() {
    assert_eq!("00:00", timestamp_mmss(0));
    assert_eq!("00:09", timestamp_mmss(9));
    assert_eq!("00:10", timestamp_mmss(10));
    assert_eq!("01:00", timestamp_mmss(60));
    assert_eq!("60:01", timestamp_mmss(60 * 60 + 1));
    assert_eq!("100:00", timestamp_mmss(6000));
}

#[test]
fn can_format_timestamp_hhmmss() {
    assert_eq!("00:00:00", timestamp_hhmmss(0));
    assert_eq!("00:00:09", timestamp_hhmmss(9));
    assert_eq!("00:00:10", timestamp_hhmmss(10));
    assert_eq!("00:01:00", timestamp_hhmmss(60));
    assert_eq!("01:00:00", timestamp_hhmmss(60 * 60));
    assert_eq!("01:00:01", timestamp_hhmmss(60 * 60 + 1));
    assert_eq!("01:59:59", timestamp_hhmmss(60 * 60 * 2 - 1));
    assert_eq!("123:00:00", timestamp_hhmmss(123 * 3600));
}

#[test]
fn icon_glyphs() {
    assert_eq!('\u{E145}', Icon::Add.as_char());
    assert_eq!('\u{e909}', Icon::CastConnected.as_char());
    assert_ne!(Icon::Play.as_char(), Icon::Pause.as_char());
}

#[test]
fn dlna_messages() {
    assert_eq!("设备发现失败: boom", DlnaError::Discovery("boom".to_string()).to_display_string());
    assert_eq!("未找到指定的设备", DlnaError::DeviceNotFound.to_display_string());
    assert_eq!("网络错误: x", DlnaError::NetworkError("x".to_string()).to_display_string());
    let d = DlnaDevice::discovered("TV".to_string(), "http://tv/desc.xml".to_string());
    assert_eq!("TV", d.to_display_string());
    assert_eq!(d.location, d.udn);
}

#[test]
fn enhance_messages() {
    assert_eq!("不支持的格式", EnhanceError::UnsupportedFormat.to_display_string());
    assert_eq!("处理失败: x", EnhanceError::ProcessingFailed("x".to_string()).to_display_string());
    assert_eq!("无效参数: y", EnhanceError::InvalidParameter("y".to_string()).to_display_string());
}

#[test]
fn canonical_versions() {
    assert_eq!((1, 2, 3), canonical_version("1.2.3"));
    assert_eq!((0, 14, 0), canonical_version("0.14.0"));
    assert_eq!((0, 0, 0), canonical_version("1.2"));
    assert_eq!((0, 0, 0), canonical_version("1.2.3.4"));
    assert_eq!((1, 0, 3), canonical_version("1.x.3"));
    assert_eq!((1, 2, 0), canonical_version("1.2.3-beta"));
    assert_eq!((7, 0, 0), canonical_version("+7..99999999999"));
    let cs = |s: &str| s.chars().collect::<Vec<char>>();
    assert_eq!(Some(42), parse_u32(&cs("42")));
    assert_eq!(Some(42), parse_u32(&cs("+42")));
    assert_eq!(None, parse_u32(&cs("-1")));
    assert_eq!(None, parse_u32(&cs("+")));
    assert_eq!(None, parse_u32(&cs("")));
    assert_eq!(Some(4294967295), parse_u32(&cs("4294967295")));
    assert_eq!(None, parse_u32(&cs("4294967296")));
}

#[test]
fn playlist_hint_follows_first_marker() {
    assert_eq!("---\n# madamiru-playlist\nlayout: {}\n", with_hint("---\nlayout: {}\n"));
    assert_eq!("a: b\n", with_hint("a: b\n"));
    assert_eq!("x---\n# madamiru-playlist y ---", with_hint("x--- y ---"));
}

#[test]
fn unsigned_numbers_parse_like_std() {
    for raw in ["0", "+42", "4294967295", "4294967296", "", "+", "-1", "1_0", "18446744073709551615"] {
        let chars: Vec<char> = raw.chars().collect();
        assert_eq!(raw.parse::<u32>().ok(), madamiru::prelude::parse_u32(&chars), "{raw}");
        assert_eq!(raw.parse::<usize>().ok(), madamiru::prelude::parse_usize(&chars), "{raw}");
    }
}
