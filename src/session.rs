use vstd::prelude::*;

verus! {

/// A step of one rendering session.  Each step but the two last names the
/// browser work to be done next; the caller does it and reports whether it
/// succeeded.
#[derive(Clone, Copy, Debug, PartialEq, Eq, Structural)]
pub enum Step {
    /// Start the browser.
    Launch,
    /// Open a blank page.
    OpenPage,
    /// Set the window size.
    SetViewport,
    /// Set the user agent, language and platform.
    SetUserAgent,
    /// Turn script execution on.
    EnableScripts,
    /// Go to the URL.
    Navigate,
    /// Wait for the document to report its ready state.
    AwaitReadyState,
    /// Wait until the page has settled.
    AwaitSettled,
    /// Capture the screenshot.
    CaptureScreenshot,
    /// Read the page's HTML.
    ReadContent,
    /// Close the browser.
    CloseBrowser,
    /// Wait until the task that drains the browser's events has ended.
    AwaitEvents,
    /// The session has ended with the page's HTML.
    Finished,
    /// A step failed; the session has ended without a result.
    Failed,
}

/// Whether the session has ended.
pub open spec fn is_terminal(s: Step) -> bool {
    s == Step::Finished || s == Step::Failed
}

/// The step that follows `s` when `s` succeeds.
pub open spec fn successor(s: Step, screenshot: bool) -> Step {
    match s {
        Step::Launch => Step::OpenPage,
        Step::OpenPage => Step::SetViewport,
        Step::SetViewport => Step::SetUserAgent,
        Step::SetUserAgent => Step::EnableScripts,
        Step::EnableScripts => Step::Navigate,
        Step::Navigate => Step::AwaitReadyState,
        Step::AwaitReadyState => Step::AwaitSettled,
        Step::AwaitSettled => if screenshot {
            Step::CaptureScreenshot
        } else {
            Step::ReadContent
        },
        Step::CaptureScreenshot => Step::ReadContent,
        Step::ReadContent => Step::CloseBrowser,
        Step::CloseBrowser => Step::AwaitEvents,
        Step::AwaitEvents => Step::Finished,
        Step::Finished => Step::Finished,
        Step::Failed => Step::Failed,
    }
}

/// The step after `s` given whether it succeeded: a failure ends the session
/// at once, and an ended session stays as it is.
pub open spec fn transition(s: Step, screenshot: bool, succeeded: bool) -> Step {
    if is_terminal(s) {
        s
    } else if succeeded {
        successor(s, screenshot)
    } else {
        Step::Failed
    }
}

/// How many screenshots a session captures.
pub open spec fn capture_count(screenshot: bool) -> nat {
    if screenshot {
        1
    } else {
        0
    }
}

/// How many steps are left before the session ends, when each succeeds.
pub open spec fn remaining(s: Step, screenshot: bool) -> nat {
    match s {
        Step::Launch => 11 + capture_count(screenshot),
        Step::OpenPage => 10 + capture_count(screenshot),
        Step::SetViewport => 9 + capture_count(screenshot),
        Step::SetUserAgent => 8 + capture_count(screenshot),
        Step::EnableScripts => 7 + capture_count(screenshot),
        Step::Navigate => 6 + capture_count(screenshot),
        Step::AwaitReadyState => 5 + capture_count(screenshot),
        Step::AwaitSettled => 4 + capture_count(screenshot),
        Step::CaptureScreenshot => 4,
        Step::ReadContent => 3,
        Step::CloseBrowser => 2,
        Step::AwaitEvents => 1,
        Step::Finished => 0,
        Step::Failed => 0,
    }
}

/// The step reached from `s` after `n` successful steps.
pub open spec fn run_ok(s: Step, screenshot: bool, n: nat) -> Step
    decreases n,
{
    if n == 0 {
        s
    } else {
        run_ok(transition(s, screenshot, true), screenshot, (n - 1) as nat)
    }
}

/// One rendering session: the step it stands at and whether a screenshot is
/// wanted.
pub struct Session {
    pub step: Step,
    pub screenshot: bool,
}

impl Session {
    /// A session that has not started; it first launches the browser.
    pub fn new(screenshot: bool) -> (r: Session)
        ensures
            r.step == Step::Launch,
            r.screenshot == screenshot,
    {
        Session { step: Step::Launch, screenshot }
    }

    /// Whether the session has ended, with or without a result.
    pub fn is_done(&self) -> (r: bool)
        ensures
            r == is_terminal(self.step),
    {
        match self.step {
            Step::Finished | Step::Failed => true,
            _ => false,
        }
    }

    /// Records the outcome of the current step and moves to the next one.
    pub fn advance(&mut self, succeeded: bool)
        ensures
            final(self).step == transition(old(self).step, old(self).screenshot, succeeded),
            final(self).screenshot == old(self).screenshot,
    {
        self.step = next_step(self.step, self.screenshot, succeeded);
    }
}

/// The step after `s`, given whether it succeeded and whether a screenshot is
/// wanted.
pub fn next_step(s: Step, screenshot: bool, succeeded: bool) -> (r: Step)
    ensures
        r == transition(s, screenshot, succeeded),
{
    match s {
        Step::Finished | Step::Failed => s,
        _ => {
            if !succeeded {
                Step::Failed
            } else {
                match s {
                    Step::Launch => Step::OpenPage,
                    Step::OpenPage => Step::SetViewport,
                    Step::SetViewport => Step::SetUserAgent,
                    Step::SetUserAgent => Step::EnableScripts,
                    Step::EnableScripts => Step::Navigate,
                    Step::Navigate => Step::AwaitReadyState,
                    Step::AwaitReadyState => Step::AwaitSettled,
                    Step::AwaitSettled => if screenshot {
                        Step::CaptureScreenshot
                    } else {
                        Step::ReadContent
                    },
                    Step::CaptureScreenshot => Step::ReadContent,
                    Step::ReadContent => Step::CloseBrowser,
                    Step::CloseBrowser => Step::AwaitEvents,
                    _ => Step::Finished,
                }
            }
        },
    }
}

/// Every step that has not ended the session brings its end closer: a loop
/// that performs steps until the session is done stops, whatever they report.
pub proof fn lemma_progress(s: Step, screenshot: bool, succeeded: bool)
    requires
        !is_terminal(s),
    ensures
        is_terminal(transition(s, screenshot, succeeded)) || remaining(
            transition(s, screenshot, succeeded),
            screenshot,
        ) < remaining(s, screenshot),
{
}

/// Once the session has ended, it stays where it ended.
pub proof fn lemma_terminal_stays(s: Step, screenshot: bool, succeeded: bool)
    requires
        is_terminal(s),
    ensures
        transition(s, screenshot, succeeded) == s,
{
}

/// When every step succeeds, the session ends with a result after exactly as
/// many steps as `remaining` counts, and not earlier.
pub proof fn lemma_all_succeed(s: Step, screenshot: bool)
    ensures
        run_ok(s, screenshot, remaining(s, screenshot)) == (if s == Step::Failed {
            Step::Failed
        } else {
            Step::Finished
        }),
        forall|k: nat| k < remaining(s, screenshot) ==> !is_terminal(#[trigger] run_ok(s, screenshot, k)),
    decreases remaining(s, screenshot),
{
    if !is_terminal(s) {
        let t = transition(s, screenshot, true);
        lemma_all_succeed(t, screenshot);
        assert forall|k: nat| k < remaining(s, screenshot) implies !is_terminal(
            #[trigger] run_ok(s, screenshot, k),
        ) by {
            if k > 0 {
                assert(run_ok(s, screenshot, k) == run_ok(t, screenshot, (k - 1) as nat));
            }
        }
    }
}

/// A screenshot is captured on the way to a successful end exactly when one
/// is wanted.
pub proof fn lemma_screenshot_iff_wanted(screenshot: bool)
    ensures
        screenshot <==> exists|k: nat| #[trigger] run_ok(Step::Launch, screenshot, k) == Step::CaptureScreenshot,
{
    if screenshot {
        assert(run_ok(Step::Launch, screenshot, 8) == Step::CaptureScreenshot) by {
            reveal_with_fuel(run_ok, 9);
        }
    } else {
        assert forall|k: nat| #[trigger] run_ok(Step::Launch, false, k) != Step::CaptureScreenshot by {
            lemma_never_captures(Step::Launch, k);
        }
    }
}

proof fn lemma_never_captures(s: Step, k: nat)
    requires
        s != Step::CaptureScreenshot,
    ensures
        run_ok(s, false, k) != Step::CaptureScreenshot,
    decreases k,
{
    if k > 0 {
        lemma_never_captures(transition(s, false, true), (k - 1) as nat);
    }
}

} // verus!
