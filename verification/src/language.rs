//! User-interface language selection.

use vstd::prelude::*;

verus! {

/// Language choice offered by the surrounding user interfaces.
#[derive(Debug, Clone, Copy, PartialEq, Eq, Structural)]
pub enum Language {
    /// Follow the system locale.
    Auto,
    /// American English.
    EnUS,
    /// Simplified Chinese.
    ZhCN,
}

impl Language {
    /// The IETF language tag for this choice, `"auto"` for the system locale.
    pub fn to_tag(self) -> (r: &'static str)
        ensures
            r@ == match self {
                Language::Auto => "auto"@,
                Language::EnUS => "en-US"@,
                Language::ZhCN => "zh-CN"@,
            },
    {
        match self {
            Language::Auto => "auto",
            Language::EnUS => "en-US",
            Language::ZhCN => "zh-CN",
        }
    }

    /// The label shown in the language picker.
    pub fn label(self) -> (r: &'static str)
        ensures
            r@ == match self {
                Language::Auto => "Auto (System)"@,
                Language::EnUS => "English"@,
                Language::ZhCN => "简体中文 (Chinese)"@,
            },
    {
        match self {
            Language::Auto => "Auto (System)",
            Language::EnUS => "English",
            Language::ZhCN => "简体中文 (Chinese)",
        }
    }
}

impl Default for Language {
    /// The default language follows the system locale.
    fn default() -> (r: Self)
        ensures
            r == Language::Auto,
    {
        Language::Auto
    }
}

} // verus!
