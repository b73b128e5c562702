use shave::client::browser_args;
use shave::client::capture_plan;
use shave::client::removal_script;
use shave::client::CaptureStep;
use shave::Builder;
use shave::ScreenshotOpts;

#[test]
fn user_agent_is_set_and_reset() {
    let b = Builder::default();
    assert_eq!(b.user_agent, None);
    let b = b.set_user_agent(Some(String::from("agent")));
    assert_eq!(b.user_agent, Some(String::from("agent")));
    let b = b.set_user_agent(None);
    assert_eq!(b.user_agent, None);
}

#[test]
fn browser_args_without_user_agent() {
    let args = browser_args("/tmp/x", &None);
    assert_eq!(args.len(), 56);
    assert!(args.contains(&String::from("--headless=new")));
    assert!(args.contains(&String::from("--no-sandbox")));
    assert_eq!(args[54], "--use-mock-keychain");
    assert_eq!(args.last().unwrap(), "--user-data-dir=/tmp/x");
    assert!(!args.iter().any(|a| a.starts_with("--user-agent=")));
}

#[test]
fn browser_args_with_user_agent() {
    let args = browser_args("/d", &Some(String::from("Mozilla/5.0 test")));
    assert_eq!(args.len(), 57);
    assert_eq!(args[55], "--user-data-dir=/d");
    assert_eq!(args[56], "--user-agent=Mozilla/5.0 test");
}

#[test]
fn removal_script_interpolates_the_selector() {
    assert_eq!(
        removal_script("div.ad"),
        "document.querySelectorAll('div.ad').forEach(function(node){node.parentNode.removeChild(node)})"
    );
}

#[test]
fn plan_with_defaults() {
    let url = String::from("http://localhost/");
    let plan = capture_plan(&url, &ScreenshotOpts::default());
    assert_eq!(
        plan,
        vec![
            CaptureStep::SetWindowSize { width: 3840, height: 2160 },
            CaptureStep::Navigate { url: url.clone() },
            CaptureStep::CapturePage { url: url.clone() },
        ]
    );
}

#[test]
fn plan_with_every_option() {
    let url = String::from("http://localhost/");
    let opts = ScreenshotOpts {
        window_size: Some((1, 2)),
        await_selector: Some(String::from("a")),
        remove_selector: Some(String::from("b")),
        selector: Some(String::from("c")),
        _non_exhaustive: (),
    };
    assert_eq!(
        capture_plan(&url, &opts),
        vec![
            CaptureStep::SetWindowSize { width: 1, height: 2 },
            CaptureStep::Navigate { url: url.clone() },
            CaptureStep::AwaitElement { selector: String::from("a") },
            CaptureStep::RemoveElements { selector: String::from("b") },
            CaptureStep::FindElement { selector: String::from("c") },
            CaptureStep::CaptureElement { selector: String::from("c") },
        ]
    );
}

#[test]
fn options_clone_keeps_every_field() {
    let opts = ScreenshotOpts {
        window_size: Some((10, 20)),
        await_selector: Some(String::from("#a")),
        remove_selector: None,
        selector: Some(String::from("#s")),
        _non_exhaustive: (),
    };
    let copy = opts.clone();
    assert_eq!(copy.window_size, Some((10, 20)));
    assert_eq!(copy.await_selector.as_deref(), Some("#a"));
    assert_eq!(copy.remove_selector, None);
    assert_eq!(copy.selector.as_deref(), Some("#s"));
}
