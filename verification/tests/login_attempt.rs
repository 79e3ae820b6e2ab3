use xdwlan_login::{
    AttemptAction, AttemptEvent, AttemptOutcome, LoginAttempt, LoginError, LoginTask,
};

fn task() -> LoginTask {
    LoginTask::new("alice".to_string(), "secret".to_string())
}

fn portal_body() -> Vec<u8> {
    b"redirect w.xidian.edu.cn <form action=\"https://w.xidian.edu.cn/srun_portal\">".to_vec()
}

#[test]
fn new_attempt_starts_with_discovery() {
    let t = task();
    let a = t.login();
    assert_eq!(a.action(), AttemptAction::FetchPortalPage);
    assert_eq!(a.result(), None);
    assert!(a.target_url().is_none());
}

#[test]
fn matching_fetch_moves_to_launch() {
    let t = task();
    let a = t.login().step(&t.matcher, AttemptEvent::FetchOk { body: portal_body() });
    assert_eq!(a.action(), AttemptAction::LaunchBrowser);
    assert_eq!(
        a.target_url().unwrap(),
        &b"https://w.xidian.edu.cn/srun_portal".to_vec()
    );
}

#[test]
fn five_empty_fetches_give_no_portal() {
    let t = task();
    let mut a = t.login();
    for round in 0..5 {
        assert_eq!(a.action(), AttemptAction::FetchPortalPage);
        assert_eq!(a.result(), None, "ended early on round {round}");
        a = a.step(&t.matcher, AttemptEvent::FetchOk { body: b"plain page".to_vec() });
    }
    assert_eq!(a.action(), AttemptAction::Finish);
    assert_eq!(a.result(), Some(Err(LoginError::NoPortal)));
}

#[test]
fn failed_fetch_is_retried_within_the_budget() {
    // A transport failure on a discovery fetch spends one fetch of the
    // budget and discovery silently carries on.
    let t = task();
    let a = t.login().step(&t.matcher, AttemptEvent::FetchFailed);
    assert_eq!(a.action(), AttemptAction::FetchPortalPage);
    assert_eq!(a.result(), None);
    // The remaining budget still finds the portal.
    let a = a.step(&t.matcher, AttemptEvent::FetchOk { body: portal_body() });
    assert_eq!(a.action(), AttemptAction::LaunchBrowser);
}

#[test]
fn failed_and_empty_fetches_together_exhaust_the_budget() {
    let t = task();
    let mut a = t.login();
    a = a.step(&t.matcher, AttemptEvent::FetchFailed);
    a = a.step(&t.matcher, AttemptEvent::FetchOk { body: b"plain page".to_vec() });
    a = a.step(&t.matcher, AttemptEvent::FetchFailed);
    a = a.step(&t.matcher, AttemptEvent::FetchOk { body: b"plain page".to_vec() });
    assert_eq!(a.result(), None);
    a = a.step(&t.matcher, AttemptEvent::FetchFailed);
    assert_eq!(a.result(), Some(Err(LoginError::NoPortal)));
}

#[test]
fn failed_launch_ends_the_attempt() {
    let t = task();
    let a = t
        .login()
        .step(&t.matcher, AttemptEvent::FetchOk { body: portal_body() })
        .step(&t.matcher, AttemptEvent::LaunchFailed);
    assert_eq!(a.result(), Some(Err(LoginError::Transport)));
}

#[test]
fn five_navigation_failures_exhaust_the_budget() {
    let t = task();
    let mut a = t
        .login()
        .step(&t.matcher, AttemptEvent::FetchOk { body: portal_body() })
        .step(&t.matcher, AttemptEvent::LaunchOk);
    let mut navigations = 0;
    while a.action() == AttemptAction::Navigate {
        navigations += 1;
        a = a.step(&t.matcher, AttemptEvent::NavigateFailed);
    }
    assert_eq!(navigations, 5);
    assert_eq!(a.result(), Some(Err(LoginError::NavigationFailed)));
}

#[test]
fn navigation_success_short_circuits_retries() {
    let t = task();
    let mut a = t
        .login()
        .step(&t.matcher, AttemptEvent::FetchOk { body: portal_body() })
        .step(&t.matcher, AttemptEvent::LaunchOk);
    for _ in 0..3 {
        assert_eq!(a.action(), AttemptAction::Navigate);
        a = a.step(&t.matcher, AttemptEvent::NavigateFailed);
    }
    a = a.step(&t.matcher, AttemptEvent::NavigateOk);
    assert_eq!(a.action(), AttemptAction::AwaitNavigation);
    assert_eq!(a.result(), None);
}

#[test]
fn unknown_landing_page_is_a_noop_success() {
    let t = task();
    let a = t
        .login()
        .step(&t.matcher, AttemptEvent::FetchOk { body: portal_body() })
        .step(&t.matcher, AttemptEvent::LaunchOk)
        .step(&t.matcher, AttemptEvent::NavigateOk)
        .step(&t.matcher, AttemptEvent::LoadOk)
        .step(&t.matcher, AttemptEvent::CurrentUrl { url: b"https://example.org/home".to_vec() });
    assert_eq!(a.result(), Some(Ok(AttemptOutcome::UnknownPage)));
}

#[test]
fn full_attempt_submits_credentials() {
    let t = task();
    let mut a = t.login();
    let script: Vec<(AttemptAction, AttemptEvent)> = vec![
        (AttemptAction::FetchPortalPage, AttemptEvent::FetchOk { body: portal_body() }),
        (AttemptAction::LaunchBrowser, AttemptEvent::LaunchOk),
        (AttemptAction::Navigate, AttemptEvent::NavigateOk),
        (AttemptAction::AwaitNavigation, AttemptEvent::LoadOk),
        (
            AttemptAction::QueryUrl,
            AttemptEvent::CurrentUrl { url: b"https://w.xidian.edu.cn/srun_portal".to_vec() },
        ),
        (AttemptAction::ReloadWithCache, AttemptEvent::ReloadOk),
        (AttemptAction::AwaitNavigation, AttemptEvent::LoadOk),
        (AttemptAction::AwaitBody, AttemptEvent::BodyOk),
        (AttemptAction::SubmitCredentials, AttemptEvent::ScriptOk),
    ];
    for (expected, event) in script {
        assert_eq!(a.action(), expected);
        assert_eq!(a.result(), None);
        a = a.step(&t.matcher, event);
    }
    assert_eq!(a.action(), AttemptAction::Finish);
    assert_eq!(a.result(), Some(Ok(AttemptOutcome::Submitted)));
}

#[test]
fn script_failure_ends_with_transport_error() {
    let t = task();
    let a = t
        .login()
        .step(&t.matcher, AttemptEvent::FetchOk { body: portal_body() })
        .step(&t.matcher, AttemptEvent::LaunchOk)
        .step(&t.matcher, AttemptEvent::NavigateOk)
        .step(&t.matcher, AttemptEvent::LoadOk)
        .step(
            &t.matcher,
            AttemptEvent::CurrentUrl { url: b"https://w.xidian.edu.cn/srun_portal".to_vec() },
        )
        .step(&t.matcher, AttemptEvent::ReloadOk)
        .step(&t.matcher, AttemptEvent::LoadOk)
        .step(&t.matcher, AttemptEvent::BodyOk)
        .step(&t.matcher, AttemptEvent::ScriptFailed);
    assert_eq!(a.result(), Some(Err(LoginError::Transport)));
}

#[test]
fn task_keeps_credentials() {
    let t = task();
    assert_eq!(t.username, "alice");
    assert_eq!(t.password, "secret");
    assert_eq!(t.matcher.marker, b"w.xidian.edu.cn".to_vec());
    assert_eq!(t.matcher.prefix, b"https://w.xidian.edu.cn".to_vec());
}
