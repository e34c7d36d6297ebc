use vstd::prelude::*;
use chromiumoxide::cdp::browser_protocol::emulation::{
    SetScriptExecutionDisabledParams, UserAgentMetadata,
};
use chromiumoxide::cdp::browser_protocol::network::SetUserAgentOverrideParams;
use chromiumoxide::cdp::browser_protocol::page::{
    CaptureScreenshotFormat, CaptureScreenshotParams, Viewport,
};
use crate::screenshot::{extension_of, format_of_extension, screenshot_format, ScreenshotFormat};

verus! {

/// The user agent sent when none is given.
pub const DEFAULT_USER_AGENT: &'static str =
    "Mozilla/5.0 (X11; Linux x86_64) AppleWebKit/537.36 (KHTML, like Gecko) Chrome/114.0.0.0 Safari/537.36";

/// The language preferences that the page is told about.
pub const ACCEPT_LANGUAGE: &'static str = "en-US,en;q=0.9";

/// The platform that `navigator.platform` reports.
pub const PLATFORM: &'static str = "Linux";

/// Width of the emulated window, in pixels.
pub const VIEWPORT_WIDTH: i64 = 1280;

/// Height of the emulated window, in pixels.
pub const VIEWPORT_HEIGHT: i64 = 800;

/// Whether pages run their scripts: rendering exists to run them.
pub const RUN_SCRIPTS: bool = true;

/// Whether a screenshot covers the whole page rather than only the window.
pub const CAPTURE_FULL_PAGE: bool = true;

#[verifier::external_type_specification]
pub struct ExUserAgentOverrideParams(SetUserAgentOverrideParams);

#[verifier::external_type_specification]
#[verifier::external_body]
pub struct ExUserAgentMetadata(UserAgentMetadata);

#[verifier::external_type_specification]
pub struct ExScriptExecutionDisabledParams(SetScriptExecutionDisabledParams);

#[verifier::external_type_specification]
pub struct ExCaptureScreenshotParams(CaptureScreenshotParams);

#[verifier::external_type_specification]
pub struct ExCaptureScreenshotFormat(CaptureScreenshotFormat);

#[verifier::external_type_specification]
#[verifier::external_body]
pub struct ExViewport(Viewport);

/// The protocol's name for a screenshot format.
pub open spec fn protocol_format(f: ScreenshotFormat) -> CaptureScreenshotFormat {
    match f {
        ScreenshotFormat::Png => CaptureScreenshotFormat::Png,
        ScreenshotFormat::Jpeg => CaptureScreenshotFormat::Jpeg,
    }
}

/// The user agent that a run sends: the one given, else the default.
pub open spec fn effective_user_agent(custom: Option<Seq<char>>) -> Seq<char> {
    match custom {
        Some(u) => u,
        None => DEFAULT_USER_AGENT@,
    }
}

/// The identity that the browser presents to the page.
pub struct UserAgentOverride {
    pub user_agent: String,
    pub accept_language: String,
    pub platform: String,
}

impl UserAgentOverride {
    /// The identity for a run, with `custom` as the user agent when given.
    pub fn for_run(custom: Option<&str>) -> (r: UserAgentOverride)
        ensures
            r.user_agent@ == effective_user_agent(
                match custom {
                    Some(u) => Some(u@),
                    None => None,
                },
            ),
            r.accept_language@ == ACCEPT_LANGUAGE@,
            r.platform@ == PLATFORM@,
    {
        let user_agent = match custom {
            Some(u) => u.to_owned(),
            None => DEFAULT_USER_AGENT.to_owned(),
        };
        UserAgentOverride {
            user_agent,
            accept_language: ACCEPT_LANGUAGE.to_owned(),
            platform: PLATFORM.to_owned(),
        }
    }

    /// The protocol command that applies this identity to a page.
    pub fn to_params(&self) -> (r: SetUserAgentOverrideParams)
        ensures
            r.user_agent@ == self.user_agent@,
            r.accept_language is Some,
            r.accept_language->Some_0@ == self.accept_language@,
            r.platform is Some,
            r.platform->Some_0@ == self.platform@,
    {
        build_user_agent_params(&self.user_agent, &self.accept_language, &self.platform).unwrap()
    }
}

/// Relies on chromiumoxide's `SetUserAgentOverrideParamsBuilder::build`, which
/// fails only when no user agent was set; here one always is.
#[verifier::external_body]
fn build_user_agent_params(user_agent: &str, accept_language: &str, platform: &str) -> (r: Result<
    SetUserAgentOverrideParams,
    String,
>)
    ensures
        r is Ok,
        r->Ok_0.user_agent@ == user_agent@,
        r->Ok_0.accept_language is Some,
        r->Ok_0.accept_language->Some_0@ == accept_language@,
        r->Ok_0.platform is Some,
        r->Ok_0.platform->Some_0@ == platform@,
{
    SetUserAgentOverrideParams::builder().user_agent(user_agent).accept_language(
        accept_language,
    ).platform(platform).build()
}

/// Relies on chromiumoxide's `SetScriptExecutionDisabledParamsBuilder::build`,
/// which fails only when the flag was not set; here it always is.
#[verifier::external_body]
fn build_script_params(disabled: bool) -> (r: Result<SetScriptExecutionDisabledParams, String>)
    ensures
        r is Ok,
        r->Ok_0.value == disabled,
{
    SetScriptExecutionDisabledParams::builder().value(disabled).build()
}

/// Relies on chromiumoxide's `CaptureScreenshotParamsBuilder`: a capture in
/// the given format, reaching beyond the viewport or not as asked; building
/// cannot fail.
#[verifier::external_body]
fn build_capture_params(format: ScreenshotFormat, beyond_viewport: bool) -> (r:
    CaptureScreenshotParams)
    ensures
        r.format == Some(protocol_format(format)),
        r.capture_beyond_viewport == Some(beyond_viewport),
{
    let format = match format {
        ScreenshotFormat::Png => CaptureScreenshotFormat::Png,
        ScreenshotFormat::Jpeg => CaptureScreenshotFormat::Jpeg,
    };
    CaptureScreenshotParams::builder().format(format).capture_beyond_viewport(beyond_viewport).build()
}

/// The protocol command that turns script execution on or off.
pub fn script_execution_params(enabled: bool) -> (r: SetScriptExecutionDisabledParams)
    ensures
        r.value == !enabled,
{
    build_script_params(!enabled).unwrap()
}

/// The protocol command that captures the whole page as a screenshot to be
/// saved at `path`, in the format that the path's extension selects.
pub fn screenshot_params(path: &str) -> (r: CaptureScreenshotParams)
    ensures
        r.format == Some(protocol_format(format_of_extension(extension_of(path@)))),
        r.capture_beyond_viewport == Some(CAPTURE_FULL_PAGE),
{
    build_capture_params(screenshot_format(path), CAPTURE_FULL_PAGE)
}

} // verus!
