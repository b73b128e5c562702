//! What a capture is made of: its options, the browser's command line, and
//! the calls on the session in the order they are made.

use vstd::prelude::*;

verus! {

/// The window width used when none is asked for, in pixels.
pub const DEFAULT_WIDTH: usize = 3840;

/// The window height used when none is asked for, in pixels.
pub const DEFAULT_HEIGHT: usize = 2160;

/// A type encompassing options for capturing a screenshot.
#[derive(Debug, Default)]
pub struct ScreenshotOpts {
    /// The dimensions of the window to configure, in pixels.
    pub window_size: Option<(usize, usize)>,
    /// The CSS selector describing an element to wait for before
    /// capturing a screenshot.
    pub await_selector: Option<String>,
    /// The selector identifying one or more elements to remove before the
    /// screenshot is captured.
    pub remove_selector: Option<String>,
    /// The selector describing the element to screenshot.
    pub selector: Option<String>,
    /// The type is non-exhaustive and open to extension.
    pub _non_exhaustive: (),
}

impl Clone for ScreenshotOpts {
    fn clone(&self) -> (r: ScreenshotOpts)
        ensures
            r == *self,
    {
        ScreenshotOpts {
            window_size: self.window_size,
            await_selector: copy_text(&self.await_selector),
            remove_selector: copy_text(&self.remove_selector),
            selector: copy_text(&self.selector),
            _non_exhaustive: (),
        }
    }
}

/// A copy of an optional string.
pub fn copy_text(s: &Option<String>) -> (r: Option<String>)
    ensures
        r == *s,
{
    match s {
        Some(u) => Some(u.clone()),
        None => None,
    }
}

/// A builder for the configuration that captures share.
#[derive(Debug)]
pub struct Builder {
    /// The user agent to use.
    pub user_agent: Option<String>,
}

impl Builder {
    /// A configuration with the browser's own user agent.
    pub fn new() -> (r: Builder)
        ensures
            r.user_agent is None,
    {
        Builder { user_agent: None }
    }

    /// Set/reset the user agent to use.
    pub fn set_user_agent(self, user_agent: Option<String>) -> (r: Builder)
        ensures
            r.user_agent == user_agent,
    {
        let mut b = self;
        b.user_agent = user_agent;
        b
    }
}

impl Default for Builder {
    fn default() -> (r: Builder)
        ensures
            r.user_agent is None,
    {
        Builder::new()
    }
}

/// The flags that every browser is started with.
pub open spec fn browser_flags() -> Seq<Seq<char>> {
    seq![
        "--block-new-web-contents"@,
        "--disable-background-networking"@,
        "--disable-background-timer-throttling"@,
        "--disable-backgrounding-occluded-windows"@,
        "--disable-blink-features"@,
        "--disable-blink-features=AutomationControlled"@,
        "--disable-breakpad"@,
        "--disable-browser-side-navigation"@,
        "--disable-client-side-phishing-detection"@,
        "--disable-component-extensions-with-background-pages"@,
        "--disable-component-update"@,
        "--disable-default-apps"@,
        "--disable-domain-reliability"@,
        "--disable-extensions"@,
        "--disable-external-intent-requests"@,
        "--disable-features=AutofillServerCommunication"@,
        "--disable-features=CalculateNativeWinOcclusion"@,
        "--disable-features=GlobalMediaControls"@,
        "--disable-features=ImprovedCookieControls"@,
        "--disable-features=InterestFeedContentSuggestions"@,
        "--disable-features=MediaRouter"@,
        "--disable-features=OptimizationHints"@,
        "--disable-features=site-per-process"@,
        "--disable-features=Translate"@,
        "--disable-features=TranslateUI"@,
        "--disable-gpu"@,
        "--disable-hang-monitor"@,
        "--disable-ipc-flooding-protection"@,
        "--disable-notifications"@,
        "--disable-precise-memory-info"@,
        "--disable-prompt-on-repost"@,
        "--disable-renderer-backgrounding"@,
        "--disable-setuid-sandbox"@,
        "--disable-site-isolation-trials"@,
        "--disable-sync"@,
        "--disable-threaded-animation"@,
        "--disable-threaded-scrolling"@,
        "--enable-automation"@,
        "--enable-features=NetworkService,NetworkServiceInProcess"@,
        "--enable-logging=stderr"@,
        "--headless=new"@,
        "--hide-scrollbars"@,
        "--incognito"@,
        "--lang=en_US"@,
        "--log-level=0"@,
        "--metrics-recording-only"@,
        "--mute-audio"@,
        "--no-default-browser-check"@,
        "--no-first-run"@,
        "--no-pings"@,
        "--no-sandbox"@,
        "--no-service-autorun"@,
        "--password-store=basic"@,
        "--single-process"@,
        "--use-mock-keychain"@
    ]
}

/// The browser's command line: the usual flags, the profile directory, and
/// the user agent when one is set.
pub open spec fn spec_browser_args(profile_dir: Seq<char>, user_agent: Option<Seq<char>>) -> Seq<
    Seq<char>,
> {
    browser_flags() + seq!["--user-data-dir="@ + profile_dir] + match user_agent {
        Some(u) => seq!["--user-agent="@ + u],
        None => seq![],
    }
}

/// The views of a list of strings.
pub open spec fn views(v: Seq<String>) -> Seq<Seq<char>> {
    v.map_values(|a: String| a@)
}

/// The view of an optional string.
pub open spec fn opt_view(s: Option<String>) -> Option<Seq<char>> {
    match s {
        Some(u) => Some(u@),
        None => None,
    }
}

fn default_browser_args() -> (r: Vec<String>)
    ensures
        views(r@) == browser_flags(),
{
    let mut v: Vec<String> = Vec::new();
    v.push(String::from_str("--block-new-web-contents"));
    v.push(String::from_str("--disable-background-networking"));
    v.push(String::from_str("--disable-background-timer-throttling"));
    v.push(String::from_str("--disable-backgrounding-occluded-windows"));
    v.push(String::from_str("--disable-blink-features"));
    v.push(String::from_str("--disable-blink-features=AutomationControlled"));
    v.push(String::from_str("--disable-breakpad"));
    v.push(String::from_str("--disable-browser-side-navigation"));
    v.push(String::from_str("--disable-client-side-phishing-detection"));
    v.push(String::from_str("--disable-component-extensions-with-background-pages"));
    v.push(String::from_str("--disable-component-update"));
    v.push(String::from_str("--disable-default-apps"));
    v.push(String::from_str("--disable-domain-reliability"));
    v.push(String::from_str("--disable-extensions"));
    v.push(String::from_str("--disable-external-intent-requests"));
    v.push(String::from_str("--disable-features=AutofillServerCommunication"));
    v.push(String::from_str("--disable-features=CalculateNativeWinOcclusion"));
    v.push(String::from_str("--disable-features=GlobalMediaControls"));
    v.push(String::from_str("--disable-features=ImprovedCookieControls"));
    v.push(String::from_str("--disable-features=InterestFeedContentSuggestions"));
    v.push(String::from_str("--disable-features=MediaRouter"));
    v.push(String::from_str("--disable-features=OptimizationHints"));
    v.push(String::from_str("--disable-features=site-per-process"));
    v.push(String::from_str("--disable-features=Translate"));
    v.push(String::from_str("--disable-features=TranslateUI"));
    v.push(String::from_str("--disable-gpu"));
    v.push(String::from_str("--disable-hang-monitor"));
    v.push(String::from_str("--disable-ipc-flooding-protection"));
    v.push(String::from_str("--disable-notifications"));
    v.push(String::from_str("--disable-precise-memory-info"));
    v.push(String::from_str("--disable-prompt-on-repost"));
    v.push(String::from_str("--disable-renderer-backgrounding"));
    v.push(String::from_str("--disable-setuid-sandbox"));
    v.push(String::from_str("--disable-site-isolation-trials"));
    v.push(String::from_str("--disable-sync"));
    v.push(String::from_str("--disable-threaded-animation"));
    v.push(String::from_str("--disable-threaded-scrolling"));
    v.push(String::from_str("--enable-automation"));
    v.push(String::from_str("--enable-features=NetworkService,NetworkServiceInProcess"));
    v.push(String::from_str("--enable-logging=stderr"));
    v.push(String::from_str("--headless=new"));
    v.push(String::from_str("--hide-scrollbars"));
    v.push(String::from_str("--incognito"));
    v.push(String::from_str("--lang=en_US"));
    v.push(String::from_str("--log-level=0"));
    v.push(String::from_str("--metrics-recording-only"));
    v.push(String::from_str("--mute-audio"));
    v.push(String::from_str("--no-default-browser-check"));
    v.push(String::from_str("--no-first-run"));
    v.push(String::from_str("--no-pings"));
    v.push(String::from_str("--no-sandbox"));
    v.push(String::from_str("--no-service-autorun"));
    v.push(String::from_str("--password-store=basic"));
    v.push(String::from_str("--single-process"));
    v.push(String::from_str("--use-mock-keychain"));
    assert(views(v@) =~= browser_flags());
    v
}

/// The command line for a browser that keeps its profile in `profile_dir`.
pub fn browser_args(profile_dir: &str, user_agent: &Option<String>) -> (r: Vec<String>)
    ensures
        views(r@) == spec_browser_args(profile_dir@, opt_view(*user_agent)),
{
    let mut v = default_browser_args();
    let ghost flags = v@;
    v.push(String::from_str("--user-data-dir=").concat(profile_dir));
    match user_agent {
        Some(u) => {
            v.push(String::from_str("--user-agent=").concat(u.as_str()));
        },
        None => {},
    }
    assert(views(v@) =~= spec_browser_args(profile_dir@, opt_view(*user_agent)));
    v
}

/// The script that removes the elements matching a selector: what comes before
/// the selector.
pub const REMOVAL_HEAD: &'static str = "document.querySelectorAll('";

/// The script that removes the elements matching a selector: what comes after
/// the selector.
pub const REMOVAL_TAIL: &'static str = "').forEach(function(node){node.parentNode.removeChild(node)})";

/// The script that removes every element that `selector` matches.
pub open spec fn removal_script_of(selector: Seq<char>) -> Seq<char> {
    REMOVAL_HEAD@ + selector + REMOVAL_TAIL@
}

/// The script that removes every element that `selector` matches.
///
/// The selector goes into the script as it is, unescaped: it has to come from
/// a trusted source, as a quote in it ends the string it stands in.
pub fn removal_script(selector: &str) -> (r: String)
    ensures
        r@ == removal_script_of(selector@),
{
    String::from_str(REMOVAL_HEAD).concat(selector).concat(REMOVAL_TAIL)
}

/// One call on the session, in the order of a capture.
#[derive(Clone, Debug, PartialEq, Eq)]
pub enum CaptureStep {
    /// Size the window.
    SetWindowSize { width: usize, height: usize },
    /// Load the page.
    Navigate { url: String },
    /// Wait until an element matching `selector` is there.
    AwaitElement { selector: String },
    /// Remove every element matching `selector` (by running
    /// `removal_script(selector)`).
    RemoveElements { selector: String },
    /// Find the element matching `selector`.
    FindElement { selector: String },
    /// Capture the element found.
    CaptureElement { selector: String },
    /// Capture the whole page at `url`.
    CapturePage { url: String },
}

/// Whether `step` hands back an image.
pub open spec fn captures(step: CaptureStep) -> bool {
    step is CaptureElement || step is CapturePage
}

/// The calls that capture `url` with `opts`, in order: size the window, load
/// the page, wait for an element if asked, remove elements if asked, then
/// capture the element asked for or else the whole page.
pub open spec fn spec_capture_plan(url: String, opts: ScreenshotOpts) -> Seq<CaptureStep> {
    let (w, h) = match opts.window_size {
        Some(size) => size,
        None => (DEFAULT_WIDTH, DEFAULT_HEIGHT),
    };
    seq![CaptureStep::SetWindowSize { width: w, height: h }, CaptureStep::Navigate { url }]
        + match opts.await_selector {
        Some(s) => seq![CaptureStep::AwaitElement { selector: s }],
        None => seq![],
    } + match opts.remove_selector {
        Some(s) => seq![CaptureStep::RemoveElements { selector: s }],
        None => seq![],
    } + match opts.selector {
        Some(s) => seq![CaptureStep::FindElement { selector: s }, CaptureStep::CaptureElement { selector: s }],
        None => seq![CaptureStep::CapturePage { url }],
    }
}

/// The calls that capture `url` with `opts`, in order.
pub fn capture_plan(url: &String, opts: &ScreenshotOpts) -> (r: Vec<CaptureStep>)
    ensures
        r@ == spec_capture_plan(*url, *opts),
{
    let (w, h) = match opts.window_size {
        Some(size) => size,
        None => (DEFAULT_WIDTH, DEFAULT_HEIGHT),
    };
    let mut v: Vec<CaptureStep> = Vec::new();
    v.push(CaptureStep::SetWindowSize { width: w, height: h });
    v.push(CaptureStep::Navigate { url: url.clone() });
    match &opts.await_selector {
        Some(s) => v.push(CaptureStep::AwaitElement { selector: s.clone() }),
        None => {},
    }
    match &opts.remove_selector {
        Some(s) => v.push(CaptureStep::RemoveElements { selector: s.clone() }),
        None => {},
    }
    match &opts.selector {
        Some(s) => {
            v.push(CaptureStep::FindElement { selector: s.clone() });
            v.push(CaptureStep::CaptureElement { selector: s.clone() });
        },
        None => v.push(CaptureStep::CapturePage { url: url.clone() }),
    }
    assert(v@ =~= spec_capture_plan(*url, *opts));
    v
}

} // verus!
