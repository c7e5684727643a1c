use vstd::prelude::*;

verus! {

/// The page the content panel opens on.
pub open spec fn default_content_url() -> Seq<char> {
    "https://google.com"@
}

/// What a panel shows when it is created.
#[derive(Debug, PartialEq, Eq)]
pub enum ContentSource {
    /// The shell's own bundled page.
    App,
    /// A page on the web, by its address.
    External(String),
}

/// How a panel is created: its label, its title, what it shows, and its
/// size and position in pixels.
#[derive(Debug, PartialEq, Eq)]
pub struct WindowSpec {
    pub label: String,
    pub title: String,
    pub source: ContentSource,
    pub width: u32,
    pub height: u32,
    pub x: u32,
    pub y: u32,
}

/// The fixed start-up layout: the control panel "left" at (0, 0), 300 by 800,
/// on the bundled page, then the content panel "right" at (300, 0), 900 by
/// 800, on the default page.
pub fn startup_windows() -> (r: Vec<WindowSpec>)
    ensures
        r.len() == 2,
        r[0].label@ == "left"@,
        r[0].title@ == "Control Panel"@,
        r[0].source == ContentSource::App,
        r[0].width == 300 && r[0].height == 800,
        r[0].x == 0 && r[0].y == 0,
        r[1].label@ == "right"@,
        r[1].title@ == "Web Content"@,
        r[1].source is External && r[1].source->External_0@ == default_content_url(),
        r[1].width == 900 && r[1].height == 800,
        r[1].x == 300 && r[1].y == 0,
{
    let control = WindowSpec {
        label: String::from_str("left"),
        title: String::from_str("Control Panel"),
        source: ContentSource::App,
        width: 300,
        height: 800,
        x: 0,
        y: 0,
    };
    let content = WindowSpec {
        label: String::from_str("right"),
        title: String::from_str("Web Content"),
        source: ContentSource::External(String::from_str("https://google.com")),
        width: 900,
        height: 800,
        x: 300,
        y: 0,
    };
    vec![control, content]
}

} // verus!
