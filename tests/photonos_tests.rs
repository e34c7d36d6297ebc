use chromiumoxide::cdp::browser_protocol::page::CaptureScreenshotFormat;
use photonos::{
    browser_candidates, extension_format, first_present, install_hints, launch_flags,
    located_browser, next_step, screenshot_format, screenshot_params, script_execution_params,
    Cli, ScreenshotFormat, Session, Step, UserAgentOverride, ACCEPT_LANGUAGE, DEFAULT_OUTPUT,
    DEFAULT_USER_AGENT, PLATFORM, CAPTURE_FULL_PAGE, RUN_SCRIPTS,
};

#[test]
fn output_defaults_when_omitted() {
    let cli = Cli::new("https://example.com".to_string(), None, None, false, None);
    assert_eq!(cli.output, "output.html");
    assert_eq!(DEFAULT_OUTPUT, "output.html");
    assert_eq!(cli.url, "https://example.com");
    assert!(cli.screenshot.is_none());
    assert!(cli.user_agent.is_none());
    assert!(!cli.check_browser);
}

#[test]
fn output_kept_when_given() {
    let cli = Cli::new(
        "https://example.com".to_string(),
        Some("page.html".to_string()),
        Some("shot.png".to_string()),
        true,
        Some("Bot/1.0".to_string()),
    );
    assert_eq!(cli.output, "page.html");
    assert_eq!(cli.screenshot.as_deref(), Some("shot.png"));
    assert_eq!(cli.user_agent.as_deref(), Some("Bot/1.0"));
    assert!(cli.check_browser);
}

#[test]
fn stops_only_when_check_asked_and_browser_missing() {
    let checked = Cli::new("u".to_string(), None, None, true, None);
    let unchecked = Cli::new("u".to_string(), None, None, false, None);
    assert!(checked.stops_before_rendering(false));
    assert!(!checked.stops_before_rendering(true));
    assert!(!unchecked.stops_before_rendering(false));
    assert!(!unchecked.stops_before_rendering(true));
}

#[test]
fn extension_selects_format() {
    assert_eq!(extension_format(Some("jpg")), ScreenshotFormat::Jpeg);
    assert_eq!(extension_format(Some("jpeg")), ScreenshotFormat::Jpeg);
    assert_eq!(extension_format(Some("png")), ScreenshotFormat::Png);
    assert_eq!(extension_format(Some("JPG")), ScreenshotFormat::Png);
    assert_eq!(extension_format(Some("")), ScreenshotFormat::Png);
    assert_eq!(extension_format(None), ScreenshotFormat::Png);
}

#[test]
fn screenshot_path_selects_format() {
    assert_eq!(screenshot_format("shot.jpg"), ScreenshotFormat::Jpeg);
    assert_eq!(screenshot_format("/tmp/out/shot.jpeg"), ScreenshotFormat::Jpeg);
    assert_eq!(screenshot_format("shot.png"), ScreenshotFormat::Png);
    assert_eq!(screenshot_format("shot"), ScreenshotFormat::Png);
    assert_eq!(screenshot_format("shot.jpg.png"), ScreenshotFormat::Png);
    assert_eq!(screenshot_format("photos.jpg/shot"), ScreenshotFormat::Png);
    assert_eq!(screenshot_format(".jpg"), ScreenshotFormat::Png);
    assert_eq!(screenshot_format("archive.tar.jpeg"), ScreenshotFormat::Jpeg);
}

#[test]
fn screenshot_params_follow_path() {
    let jpeg = screenshot_params("page.jpg");
    assert_eq!(jpeg.format, Some(CaptureScreenshotFormat::Jpeg));
    assert_eq!(jpeg.capture_beyond_viewport, Some(true));
    assert!(CAPTURE_FULL_PAGE);
    let png = screenshot_params("page.webp");
    assert_eq!(png.format, Some(CaptureScreenshotFormat::Png));
    assert_eq!(png.capture_beyond_viewport, Some(true));
}

#[test]
fn candidates_in_order() {
    assert_eq!(
        browser_candidates(),
        vec!["/usr/bin/google-chrome", "/usr/bin/chromium", "/usr/bin/chromium-browser"]
    );
}

#[test]
fn first_present_picks_earliest() {
    assert_eq!(first_present(&vec![false, true, true]), Some(1));
    assert_eq!(first_present(&vec![true, true, true]), Some(0));
    assert_eq!(first_present(&vec![false, false, true]), Some(2));
    assert_eq!(first_present(&vec![false, false, false]), None);
    assert_eq!(first_present(&vec![]), None);
    assert_eq!(first_present(&vec![false, false, false, true]), None);
}

#[test]
fn located_browser_names_path() {
    assert_eq!(located_browser(&vec![false, true, false]), Some("/usr/bin/chromium"));
    assert_eq!(located_browser(&vec![false, false, true]), Some("/usr/bin/chromium-browser"));
    assert_eq!(located_browser(&vec![false, false, false]), None);
}

#[test]
fn install_hints_cover_distributions() {
    let hints = install_hints();
    assert_eq!(hints.len(), 3);
    assert_eq!(hints[0], ("Debian/Ubuntu", "sudo apt-get install chromium-browser"));
    assert_eq!(hints[1], ("Fedora", "sudo dnf install chromium"));
    assert_eq!(hints[2], ("Arch Linux", "sudo pacman -S chromium"));
}

#[test]
fn launch_flags_listed() {
    let flags = launch_flags();
    assert_eq!(flags.len(), 7);
    assert_eq!(flags[0], "--no-sandbox");
    assert_eq!(flags[6], "--disable-popup-blocking");
}

#[test]
fn default_user_agent_used() {
    let o = UserAgentOverride::for_run(None);
    assert_eq!(o.user_agent, DEFAULT_USER_AGENT);
    assert_eq!(o.accept_language, "en-US,en;q=0.9");
    assert_eq!(o.platform, "Linux");
}

#[test]
fn custom_user_agent_used() {
    let o = UserAgentOverride::for_run(Some("Bot/2.0"));
    assert_eq!(o.user_agent, "Bot/2.0");
    let p = o.to_params();
    assert_eq!(p.user_agent, "Bot/2.0");
    assert_eq!(p.accept_language.as_deref(), Some(ACCEPT_LANGUAGE));
    assert_eq!(p.platform.as_deref(), Some(PLATFORM));
}

#[test]
fn scripts_enabled_params() {
    assert!(!script_execution_params(true).value);
    assert!(script_execution_params(false).value);
    assert!(!script_execution_params(RUN_SCRIPTS).value);
}

fn run_all(screenshot: bool) -> Vec<Step> {
    let mut s = Session::new(screenshot);
    let mut seen = vec![s.step];
    while !s.is_done() {
        s.advance(true);
        seen.push(s.step);
    }
    seen
}

#[test]
fn session_without_screenshot() {
    let seen = run_all(false);
    assert_eq!(seen.len(), 12);
    assert_eq!(seen[0], Step::Launch);
    assert_eq!(seen[7], Step::AwaitSettled);
    assert_eq!(seen[8], Step::ReadContent);
    assert_eq!(seen[9], Step::CloseBrowser);
    assert_eq!(seen[10], Step::AwaitEvents);
    assert_eq!(*seen.last().unwrap(), Step::Finished);
    assert!(!seen.contains(&Step::CaptureScreenshot));
}

#[test]
fn session_with_screenshot() {
    let seen = run_all(true);
    assert_eq!(seen.len(), 13);
    assert_eq!(seen[8], Step::CaptureScreenshot);
    assert_eq!(seen[9], Step::ReadContent);
    assert_eq!(*seen.last().unwrap(), Step::Finished);
}

#[test]
fn failure_ends_session() {
    let mut s = Session::new(true);
    for _ in 0..5 {
        s.advance(true);
    }
    assert_eq!(s.step, Step::Navigate);
    s.advance(false);
    assert_eq!(s.step, Step::Failed);
    assert!(s.is_done());
    s.advance(true);
    assert_eq!(s.step, Step::Failed);
}

#[test]
fn finished_stays_finished() {
    assert_eq!(next_step(Step::Finished, true, false), Step::Finished);
    assert_eq!(next_step(Step::Finished, false, true), Step::Finished);
    assert_eq!(next_step(Step::CloseBrowser, false, true), Step::AwaitEvents);
    assert_eq!(next_step(Step::AwaitEvents, true, true), Step::Finished);
    assert_eq!(next_step(Step::AwaitEvents, true, false), Step::Failed);
    assert_eq!(next_step(Step::AwaitSettled, false, true), Step::ReadContent);
}
