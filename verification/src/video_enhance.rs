//! What can go wrong when enhancing video.
use vstd::prelude::*;
use crate::text::{chars_of, push_str, string_of};

verus! {

/// The errors of enhancing video.
#[derive(Debug)]
pub enum EnhanceError {
    UnsupportedFormat,
    ProcessingFailed(String),
    InvalidParameter(String),
}

/// The message that tells of an enhancement error.
pub open spec fn enhance_message(e: EnhanceError) -> Seq<char> {
    match e {
        EnhanceError::UnsupportedFormat => "不支持的格式"@,
        EnhanceError::ProcessingFailed(d) => "处理失败: "@ + d@,
        EnhanceError::InvalidParameter(d) => "无效参数: "@ + d@,
    }
}

impl EnhanceError {
    /// The message that tells of the error.
    pub fn to_display_string(&self) -> (res: String)
        ensures
            res@ == enhance_message(*self),
    {
        match self {
            EnhanceError::UnsupportedFormat => "不支持的格式".to_string(),
            EnhanceError::ProcessingFailed(d) => {
                let mut out = chars_of("处理失败: ");
                push_str(&mut out, d.as_str());
                string_of(&out)
            },
            EnhanceError::InvalidParameter(d) => {
                let mut out = chars_of("无效参数: ");
                push_str(&mut out, d.as_str());
                string_of(&out)
            },
        }
    }
}

} // verus!
