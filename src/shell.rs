use vstd::prelude::*;

use crate::address::{is_well_formed, url_parses};
use crate::layout::default_content_url;
use crate::script::{location_script, location_script_of};

verus! {

/// Why a navigation command was refused. Neither is fatal: the caller gets
/// the error back and both panels stay as they were.
#[derive(Clone, Copy, Debug, PartialEq, Eq, Structural)]
pub enum NavError {
    /// The text is not a well-formed absolute URL.
    InvalidUrl,
    /// The content panel is not open.
    WindowNotFound,
}

/// The text handed back to the control panel for each error.
pub open spec fn error_message(e: NavError) -> Seq<char> {
    match e {
        NavError::InvalidUrl => "Invalid URL format"@,
        NavError::WindowNotFound => "Right window not found"@,
    }
}

impl NavError {
    pub fn message(&self) -> (r: String)
        ensures
            r@ == error_message(*self),
    {
        match self {
            NavError::InvalidUrl => String::from_str("Invalid URL format"),
            NavError::WindowNotFound => String::from_str("Right window not found"),
        }
    }
}

/// One of the two panels of the shell.
#[derive(Clone, Copy, Debug, PartialEq, Eq, Structural)]
pub enum Panel {
    /// The control panel, labelled "left".
    Control,
    /// The web content panel, labelled "right".
    Content,
}

pub open spec fn panel_label(p: Panel) -> Seq<char> {
    match p {
        Panel::Control => "left"@,
        Panel::Content => "right"@,
    }
}

impl Panel {
    pub fn label(&self) -> (r: &'static str)
        ensures
            r@ == panel_label(*self),
    {
        match self {
            Panel::Control => "left",
            Panel::Content => "right",
        }
    }
}

/// What the shell is, as far as its logic can tell: which panels are open,
/// where the content panel is, and the addresses relayed to the control panel
/// so far, oldest first. The relayed addresses are a record for proofs only:
/// the shell does not keep them at run time.
pub ghost struct ShellView {
    pub control_open: bool,
    pub content_open: bool,
    pub location: Seq<char>,
    pub received: Seq<Seq<char>>,
}

/// What the shell answers when the content panel is about to move.
#[derive(Debug, PartialEq, Eq)]
pub struct NavigationDecision {
    /// Whether the navigation may go ahead.
    pub allow: bool,
    /// The address to pass on to the control panel, if it is to be told.
    pub relay: Option<String>,
}

/// The window registry of the shell: at most one control panel and at most one
/// content panel, passed explicitly to whatever needs window access.
pub struct Shell {
    control_open: bool,
    content_open: bool,
    location: String,
    received: Ghost<Seq<Seq<char>>>,
}

impl View for Shell {
    type V = ShellView;

    closed spec fn view(&self) -> ShellView {
        ShellView {
            control_open: self.control_open,
            content_open: self.content_open,
            location: self.location@,
            received: self.received@,
        }
    }
}

/// The labels of the open panels, control panel first.
pub open spec fn open_labels(s: ShellView) -> Seq<Seq<char>> {
    let left = if s.control_open { seq!["left"@] } else { Seq::empty() };
    let right = if s.content_open { seq!["right"@] } else { Seq::empty() };
    left + right
}

/// The answer to a navigation command: a missing content panel is reported
/// whatever the text, then a malformed address, else success.
pub open spec fn navigate_result(s: ShellView, well_formed: bool) -> Result<(), NavError> {
    if !s.content_open {
        Err(NavError::WindowNotFound)
    } else if !well_formed {
        Err(NavError::InvalidUrl)
    } else {
        Ok(())
    }
}

/// The shell after a navigation command: on success the content panel shows
/// the address, on failure nothing changes.
pub open spec fn after_navigate(s: ShellView, url: Seq<char>, well_formed: bool) -> ShellView {
    if navigate_result(s, well_formed) is Ok {
        ShellView { location: url, ..s }
    } else {
        s
    }
}

/// The shell after the content panel moved to `url`, whatever the cause: the
/// panel shows it, and the control panel, if open, is told of it once.
pub open spec fn after_navigation_seen(s: ShellView, url: Seq<char>) -> ShellView {
    if !s.content_open {
        s
    } else if s.control_open {
        ShellView { location: url, received: s.received.push(url), ..s }
    } else {
        ShellView { location: url, ..s }
    }
}

impl Shell {
    /// The shell right after start-up: both panels open, the content panel on
    /// its default page, nothing relayed yet.
    pub fn launch() -> (r: Shell)
        ensures
            r@.control_open,
            r@.content_open,
            r@.location == default_content_url(),
            r@.received.len() == 0,
            open_labels(r@) == seq!["left"@, "right"@],
    {
        let r = Shell {
            control_open: true,
            content_open: true,
            location: String::from_str("https://google.com"),
            received: Ghost(Seq::empty()),
        };
        proof {
            assert(open_labels(r@) =~= seq!["left"@, "right"@]);
        }
        r
    }

    /// The labels of the panels that are open.
    pub fn handles(&self) -> (r: Vec<&'static str>)
        ensures
            r@.map_values(|l: &str| l@) == open_labels(self@),
    {
        let mut r: Vec<&'static str> = Vec::new();
        if self.control_open {
            r.push("left");
        }
        if self.content_open {
            r.push("right");
        }
        proof {
            assert(r@.map_values(|l: &str| l@) =~= open_labels(self@));
        }
        r
    }

    pub fn is_open(&self, panel: Panel) -> (r: bool)
        ensures
            r == (match panel {
                Panel::Control => self@.control_open,
                Panel::Content => self@.content_open,
            }),
    {
        match panel {
            Panel::Control => self.control_open,
            Panel::Content => self.content_open,
        }
    }

    /// Closes a panel; its handle is gone for good.
    pub fn close(&mut self, panel: Panel)
        ensures
            final(self)@ == (match panel {
                Panel::Control => ShellView { control_open: false, ..old(self)@ },
                Panel::Content => ShellView { content_open: false, ..old(self)@ },
            }),
    {
        match panel {
            Panel::Control => self.control_open = false,
            Panel::Content => self.content_open = false,
        }
    }

    /// Where the content panel is, if it is open.
    pub fn location(&self) -> (r: Option<&str>)
        ensures
            self@.content_open ==> r is Some && r->0@ == self@.location,
            !self@.content_open ==> r is None,
    {
        if self.content_open {
            Some(self.location.as_str())
        } else {
            None
        }
    }

    /// Carries out a navigation command once the address has been checked:
    /// `well_formed` says whether it is a well-formed absolute URL.
    pub fn navigate_checked(&mut self, url: &str, well_formed: bool) -> (r: Result<(), NavError>)
        ensures
            r == navigate_result(old(self)@, well_formed),
            final(self)@ == after_navigate(old(self)@, url@, well_formed),
            !old(self)@.content_open ==> r == Err::<(), NavError>(NavError::WindowNotFound)
                && final(self)@ == old(self)@,
            old(self)@.content_open && !well_formed ==> r == Err::<(), NavError>(
                NavError::InvalidUrl,
            ) && final(self)@ == old(self)@,
            old(self)@.content_open && well_formed ==> r is Ok && final(self)@.location == url@,
    {
        if !self.content_open {
            return Err(NavError::WindowNotFound);
        }
        if !well_formed {
            return Err(NavError::InvalidUrl);
        }
        self.location = url.to_owned();
        Ok(())
    }

    /// The navigation command of the control panel: loads `url` into the
    /// content panel. A missing content panel is reported first, whatever the
    /// text; an address that is not a well-formed absolute URL is refused and
    /// changes nothing.
    pub fn navigate_webviews(&mut self, url: &str) -> (r: Result<(), NavError>)
        ensures
            r == navigate_result(old(self)@, url_parses(url@)),
            final(self)@ == after_navigate(old(self)@, url@, url_parses(url@)),
            !old(self)@.content_open ==> r == Err::<(), NavError>(NavError::WindowNotFound)
                && final(self)@ == old(self)@,
            old(self)@.content_open && !url_parses(url@) ==> r == Err::<(), NavError>(
                NavError::InvalidUrl,
            ) && final(self)@ == old(self)@,
            old(self)@.content_open && url_parses(url@) ==> r is Ok && final(self)@.location
                == url@,
            !url@.contains(':') ==> r is Err && final(self)@ == old(self)@,
    {
        if !self.content_open {
            return Err(NavError::WindowNotFound);
        }
        let well_formed = is_well_formed(url);
        self.navigate_checked(url, well_formed)
    }

    /// Called whenever the content panel moves to `url`, whatever the cause
    /// (a link, a script, the history, a navigation command): the content panel
    /// now shows it and, if the control panel is open, the address is handed
    /// back to be relayed to it, once. Navigation is never blocked.
    pub fn on_navigation(&mut self, url: &str) -> (r: NavigationDecision)
        ensures
            r.allow,
            final(self)@ == after_navigation_seen(old(self)@, url@),
            r.relay is Some <==> old(self)@.content_open && old(self)@.control_open,
            r.relay is Some ==> r.relay->0@ == url@,
    {
        if !self.content_open {
            return NavigationDecision { allow: true, relay: None };
        }
        self.location = url.to_owned();
        if self.control_open {
            self.received = Ghost(self.received@.push(url@));
            NavigationDecision { allow: true, relay: Some(url.to_owned()) }
        } else {
            NavigationDecision { allow: true, relay: None }
        }
    }

    /// The script that would carry out a navigation command, without carrying
    /// it out: the same answer as `navigate_webviews`, and on success the
    /// script that sends the content panel to `url`. The shell is untouched.
    pub fn navigation_script(&self, url: &str) -> (r: Result<String, NavError>)
        ensures
            navigate_result(self@, url_parses(url@)) is Err ==> r is Err && r->Err_0
                == navigate_result(self@, url_parses(url@))->Err_0,
            navigate_result(self@, url_parses(url@)) is Ok ==> r is Ok && r->Ok_0@
                == location_script_of(url@),
    {
        if !self.content_open {
            return Err(NavError::WindowNotFound);
        }
        if !is_well_formed(url) {
            return Err(NavError::InvalidUrl);
        }
        Ok(location_script(url))
    }
}

/// A navigation command with a well-formed address, while both panels are
/// open, succeeds; the content panel's navigation that follows leaves it on
/// that address and tells the control panel of it exactly once.
pub proof fn lemma_command_relayed_once(s: ShellView, url: Seq<char>)
    requires
        s.content_open,
        s.control_open,
        url_parses(url),
    ensures
        navigate_result(s, url_parses(url)) is Ok,
        after_navigation_seen(after_navigate(s, url, url_parses(url)), url).location == url,
        after_navigation_seen(after_navigate(s, url, url_parses(url)), url).received
            == s.received.push(url),
{
}

/// Sending the same address twice in a row: the second command gives the same
/// answer as the first and leaves the shell as the first left it.
pub proof fn lemma_navigate_twice(s: ShellView, url: Seq<char>)
    ensures
        navigate_result(after_navigate(s, url, url_parses(url)), url_parses(url))
            == navigate_result(s, url_parses(url)),
        after_navigate(after_navigate(s, url, url_parses(url)), url, url_parses(url))
            == after_navigate(s, url, url_parses(url)),
{
}

} // verus!
