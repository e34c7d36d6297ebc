use vstd::prelude::*;

verus! {

/// The HTML output file used when none is given.
pub const DEFAULT_OUTPUT: &'static str = "output.html";

/// The options of one run: the page to fetch and where its results go.
pub struct Cli {
    /// URL to fetch.
    pub url: String,
    /// File that receives the rendered HTML.
    pub output: String,
    /// File that receives a screenshot, when one is wanted.
    pub screenshot: Option<String>,
    /// Whether to look for an installed browser before rendering.
    pub check_browser: bool,
    /// User agent to send in place of the default one.
    pub user_agent: Option<String>,
}

/// The output file that a run writes to, given the one asked for, if any.
pub open spec fn output_or_default(output: Option<Seq<char>>) -> Seq<char> {
    match output {
        Some(o) => o,
        None => DEFAULT_OUTPUT@,
    }
}

/// The characters of an optional string.
pub open spec fn opt_view(s: Option<String>) -> Option<Seq<char>> {
    match s {
        Some(v) => Some(v@),
        None => None,
    }
}

impl Cli {
    /// Gathers the options of a run; an output file that is not given
    /// defaults to `output.html`.
    pub fn new(
        url: String,
        output: Option<String>,
        screenshot: Option<String>,
        check_browser: bool,
        user_agent: Option<String>,
    ) -> (r: Cli)
        ensures
            r.url@ == url@,
            r.output@ == output_or_default(opt_view(output)),
            opt_view(r.screenshot) == opt_view(screenshot),
            r.check_browser == check_browser,
            opt_view(r.user_agent) == opt_view(user_agent),
    {
        let output = match output {
            Some(o) => o,
            None => DEFAULT_OUTPUT.to_owned(),
        };
        Cli { url, output, screenshot, check_browser, user_agent }
    }

    /// Whether a run with these options stops before rendering: only when the
    /// browser check was asked for and found no browser.
    pub fn stops_before_rendering(&self, browser_found: bool) -> (r: bool)
        ensures
            r == (self.check_browser && !browser_found),
    {
        self.check_browser && !browser_found
    }
}

} // verus!
