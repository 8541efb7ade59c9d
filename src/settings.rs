use vstd::prelude::*;
use vstd::string::*;

verus! {

/// The settings as loaded from the configuration resource.
#[derive(Clone, Debug, PartialEq, Eq)]
pub struct Settings {
    pub prefix: Option<String>,
    pub suffix: Option<String>,
    pub reload: Option<bool>,
    pub lyrics: Vec<String>,
    /// Seconds to wait after each message.
    pub interval: u32,
}

/// What the feed reads of a `Settings`: absent texts read as empty, an absent
/// reload flag as `false`.
pub ghost struct SettingsModel {
    pub prefix: Seq<char>,
    pub suffix: Seq<char>,
    pub reload: bool,
    pub lyrics: Seq<Seq<char>>,
    pub interval: u32,
}

/// The text of an optional string, empty when absent.
pub open spec fn text_or_empty(o: Option<String>) -> Seq<char> {
    match o {
        Some(t) => t@,
        None => seq![],
    }
}

/// The texts of a list of strings.
pub open spec fn texts(v: Seq<String>) -> Seq<Seq<char>> {
    v.map_values(|s: String| s@)
}

impl View for Settings {
    type V = SettingsModel;

    open spec fn view(&self) -> SettingsModel {
        SettingsModel {
            prefix: text_or_empty(self.prefix),
            suffix: text_or_empty(self.suffix),
            reload: match self.reload {
                Some(b) => b,
                None => false,
            },
            lyrics: texts(self.lyrics@),
            interval: self.interval,
        }
    }
}

/// The text of an optional string, or an empty string when absent.
pub fn or_empty(o: &Option<String>) -> (r: String)
    ensures
        r@ == text_or_empty(*o),
{
    match o {
        Some(t) => t.clone(),
        None => String::new(),
    }
}

impl Settings {
    /// The prefix put before each lyric; empty when absent.
    pub fn prefix_text(&self) -> (r: String)
        ensures
            r@ == self@.prefix,
    {
        or_empty(&self.prefix)
    }

    /// The suffix put after each lyric; empty when absent.
    pub fn suffix_text(&self) -> (r: String)
        ensures
            r@ == self@.suffix,
    {
        or_empty(&self.suffix)
    }

    /// Whether the settings are re-loaded before each pass; `false` when absent.
    pub fn reloads(&self) -> (r: bool)
        ensures
            r == self@.reload,
    {
        match self.reload {
            Some(b) => b,
            None => false,
        }
    }
}

} // verus!
