//! One login attempt, as a decision machine.
//!
//! An attempt discovers the portal's login URL, opens a browser session,
//! navigates to the URL with a bounded retry budget, and submits the stored
//! credentials through the loaded page. The network and browser work is
//! performed by the caller, which asks the machine for the next action and
//! feeds the outcome back in; every decision in between is made here.

use vstd::prelude::*;
use vstd::string::StrSliceExecFns;
use vstd::string::StringSliceAdditionalSpecFns;

use crate::portal::{
    contains_seq, extract_login_url, spec_extract_login_url, PortalMatcher, DISCOVERY_FETCHES,
};

verus! {

/// How many times one attempt tries to navigate to the discovered URL
/// before giving up.
pub const NAVIGATION_TRIES: usize = 5;

/// Why one login attempt was abandoned. A failed attempt never stops the
/// polling loop; the loop simply tries again later.
#[derive(Clone, Copy, Debug, PartialEq, Eq, Structural)]
pub enum LoginError {
    /// Discovery exhausted its fetch budget without finding a login URL.
    NoPortal,
    /// Navigation to the discovered URL failed on every try.
    NavigationFailed,
    /// A browser step failed outright: the launch, a wait for the page,
    /// or the submission script.
    Transport,
}

/// How a finished attempt ended short of an error.
#[derive(Clone, Copy, Debug, PartialEq, Eq, Structural)]
pub enum AttemptOutcome {
    /// The credential-submission script ran against the portal's page.
    /// Whether the portal accepted the credentials is only learned from the
    /// next connectivity probe.
    Submitted,
    /// After navigation the page was not the portal's: the session may
    /// already be authenticated, so the attempt ends as a no-op success.
    UnknownPage,
}

/// What the caller must do next for the attempt to make progress.
#[derive(Clone, Copy, Debug, PartialEq, Eq, Structural)]
pub enum AttemptAction {
    /// Fetch the neutral HTTP page that the portal intercepts and hand back
    /// its body.
    FetchPortalPage,
    /// Launch the browser and open a tab.
    LaunchBrowser,
    /// Navigate the tab to `target_url`.
    Navigate,
    /// Block until the pending navigation completes.
    AwaitNavigation,
    /// Hand back the URL the tab ended up at.
    QueryUrl,
    /// Reload the page, using cached resources (not a hard refresh).
    ReloadWithCache,
    /// Wait for the page's body element to be present.
    AwaitBody,
    /// Run the fixed login script against the page, passing the username and
    /// password as script arguments rather than splicing them into the text.
    SubmitCredentials,
    /// The attempt is over; read `result`.
    Finish,
}

/// The control state of one attempt.
pub enum AttemptState {
    /// Discovery: `fetched` neutral-page fetches have already been spent —
    /// returning no match, or failing — without yielding a login URL.
    Discovering { fetched: usize },
    /// A URL is in hand; the browser is being launched.
    Launching { url: Vec<u8> },
    /// Navigating to `url`; `tries` navigations have already failed.
    Navigating { url: Vec<u8>, tries: usize },
    /// Waiting for the first navigation to complete.
    AwaitingLoad,
    /// Reading the URL the tab actually landed on.
    CheckingUrl,
    /// On the portal's page: reloading it to clear its transient error
    /// dialog.
    Reloading,
    /// Waiting for the reload to complete.
    AwaitingReload,
    /// Waiting for the body element of the reloaded page.
    AwaitingBody,
    /// Running the credential-submission script.
    Submitting,
    /// The attempt is over.
    Done { result: Result<AttemptOutcome, LoginError> },
}

/// The mathematical image of `AttemptState`.
pub enum AttemptModel {
    Discovering { fetched: int },
    Launching { url: Seq<u8> },
    Navigating { url: Seq<u8>, tries: int },
    AwaitingLoad,
    CheckingUrl,
    Reloading,
    AwaitingReload,
    AwaitingBody,
    Submitting,
    Done { result: Result<AttemptOutcome, LoginError> },
}

impl View for AttemptState {
    type V = AttemptModel;

    open spec fn view(&self) -> AttemptModel {
        match self {
            AttemptState::Discovering { fetched } => AttemptModel::Discovering {
                fetched: *fetched as int,
            },
            AttemptState::Launching { url } => AttemptModel::Launching { url: url@ },
            AttemptState::Navigating { url, tries } => AttemptModel::Navigating {
                url: url@,
                tries: *tries as int,
            },
            AttemptState::AwaitingLoad => AttemptModel::AwaitingLoad,
            AttemptState::CheckingUrl => AttemptModel::CheckingUrl,
            AttemptState::Reloading => AttemptModel::Reloading,
            AttemptState::AwaitingReload => AttemptModel::AwaitingReload,
            AttemptState::AwaitingBody => AttemptModel::AwaitingBody,
            AttemptState::Submitting => AttemptModel::Submitting,
            AttemptState::Done { result } => AttemptModel::Done { result: *result },
        }
    }
}

/// What the caller observed while carrying out the current action.
pub enum AttemptEvent {
    /// The neutral page came back with this body.
    FetchOk { body: Vec<u8> },
    /// The fetch itself failed. A transient failure: it spends one fetch of
    /// the discovery budget and discovery silently carries on.
    FetchFailed,
    LaunchOk,
    LaunchFailed,
    NavigateOk,
    NavigateFailed,
    /// A pending navigation (first load or reload) completed.
    LoadOk,
    LoadFailed,
    /// The tab reports this as its current URL.
    CurrentUrl { url: Vec<u8> },
    ReloadOk,
    ReloadFailed,
    BodyOk,
    BodyFailed,
    ScriptOk,
    ScriptFailed,
}

/// The mathematical image of `AttemptEvent`.
pub enum AttemptEventModel {
    FetchOk { body: Seq<u8> },
    FetchFailed,
    LaunchOk,
    LaunchFailed,
    NavigateOk,
    NavigateFailed,
    LoadOk,
    LoadFailed,
    CurrentUrl { url: Seq<u8> },
    ReloadOk,
    ReloadFailed,
    BodyOk,
    BodyFailed,
    ScriptOk,
    ScriptFailed,
}

impl View for AttemptEvent {
    type V = AttemptEventModel;

    open spec fn view(&self) -> AttemptEventModel {
        match self {
            AttemptEvent::FetchOk { body } => AttemptEventModel::FetchOk { body: body@ },
            AttemptEvent::FetchFailed => AttemptEventModel::FetchFailed,
            AttemptEvent::LaunchOk => AttemptEventModel::LaunchOk,
            AttemptEvent::LaunchFailed => AttemptEventModel::LaunchFailed,
            AttemptEvent::NavigateOk => AttemptEventModel::NavigateOk,
            AttemptEvent::NavigateFailed => AttemptEventModel::NavigateFailed,
            AttemptEvent::LoadOk => AttemptEventModel::LoadOk,
            AttemptEvent::LoadFailed => AttemptEventModel::LoadFailed,
            AttemptEvent::CurrentUrl { url } => AttemptEventModel::CurrentUrl { url: url@ },
            AttemptEvent::ReloadOk => AttemptEventModel::ReloadOk,
            AttemptEvent::ReloadFailed => AttemptEventModel::ReloadFailed,
            AttemptEvent::BodyOk => AttemptEventModel::BodyOk,
            AttemptEvent::BodyFailed => AttemptEventModel::BodyFailed,
            AttemptEvent::ScriptOk => AttemptEventModel::ScriptOk,
            AttemptEvent::ScriptFailed => AttemptEventModel::ScriptFailed,
        }
    }
}

/// The retry counters never reach their budgets while an attempt is still
/// running.
pub open spec fn attempt_wf(s: AttemptModel) -> bool {
    match s {
        AttemptModel::Discovering { fetched } => 0 <= fetched < DISCOVERY_FETCHES,
        AttemptModel::Navigating { tries, .. } => 0 <= tries < NAVIGATION_TRIES,
        _ => true,
    }
}

/// The attempt's whole decision logic: what one observed outcome does to the
/// attempt's state. An event that the current state is not waiting for
/// changes nothing.
pub open spec fn attempt_next(
    marker: Seq<u8>,
    prefix: Seq<u8>,
    s: AttemptModel,
    e: AttemptEventModel,
) -> AttemptModel {
    match (s, e) {
        (AttemptModel::Discovering { fetched }, AttemptEventModel::FetchOk { body }) => {
            match spec_extract_login_url(marker, prefix, body) {
                Some(u) => AttemptModel::Launching { url: u },
                None => {
                    if fetched + 1 >= DISCOVERY_FETCHES {
                        AttemptModel::Done { result: Err(LoginError::NoPortal) }
                    } else {
                        AttemptModel::Discovering { fetched: fetched + 1 }
                    }
                },
            }
        },
        (AttemptModel::Discovering { fetched }, AttemptEventModel::FetchFailed) => {
            if fetched + 1 >= DISCOVERY_FETCHES {
                AttemptModel::Done { result: Err(LoginError::NoPortal) }
            } else {
                AttemptModel::Discovering { fetched: fetched + 1 }
            }
        },
        (AttemptModel::Launching { url }, AttemptEventModel::LaunchOk) => AttemptModel::Navigating {
            url,
            tries: 0,
        },
        (AttemptModel::Launching { .. }, AttemptEventModel::LaunchFailed) => AttemptModel::Done {
            result: Err(LoginError::Transport),
        },
        (AttemptModel::Navigating { .. }, AttemptEventModel::NavigateOk) => AttemptModel::AwaitingLoad,
        (AttemptModel::Navigating { url, tries }, AttemptEventModel::NavigateFailed) => {
            if tries + 1 >= NAVIGATION_TRIES {
                AttemptModel::Done { result: Err(LoginError::NavigationFailed) }
            } else {
                AttemptModel::Navigating { url, tries: tries + 1 }
            }
        },
        (AttemptModel::AwaitingLoad, AttemptEventModel::LoadOk) => AttemptModel::CheckingUrl,
        (AttemptModel::AwaitingLoad, AttemptEventModel::LoadFailed) => AttemptModel::Done {
            result: Err(LoginError::Transport),
        },
        (AttemptModel::CheckingUrl, AttemptEventModel::CurrentUrl { url }) => {
            if contains_seq(url, marker) {
                AttemptModel::Reloading
            } else {
                AttemptModel::Done { result: Ok(AttemptOutcome::UnknownPage) }
            }
        },
        (AttemptModel::Reloading, AttemptEventModel::ReloadOk) => AttemptModel::AwaitingReload,
        (AttemptModel::Reloading, AttemptEventModel::ReloadFailed) => AttemptModel::Done {
            result: Err(LoginError::Transport),
        },
        (AttemptModel::AwaitingReload, AttemptEventModel::LoadOk) => AttemptModel::AwaitingBody,
        (AttemptModel::AwaitingReload, AttemptEventModel::LoadFailed) => AttemptModel::Done {
            result: Err(LoginError::Transport),
        },
        (AttemptModel::AwaitingBody, AttemptEventModel::BodyOk) => AttemptModel::Submitting,
        (AttemptModel::AwaitingBody, AttemptEventModel::BodyFailed) => AttemptModel::Done {
            result: Err(LoginError::Transport),
        },
        (AttemptModel::Submitting, AttemptEventModel::ScriptOk) => AttemptModel::Done {
            result: Ok(AttemptOutcome::Submitted),
        },
        (AttemptModel::Submitting, AttemptEventModel::ScriptFailed) => AttemptModel::Done {
            result: Err(LoginError::Transport),
        },
        (s2, _) => s2,
    }
}

/// Which action the caller must perform in each state.
pub open spec fn spec_attempt_action(s: AttemptModel) -> AttemptAction {
    match s {
        AttemptModel::Discovering { .. } => AttemptAction::FetchPortalPage,
        AttemptModel::Launching { .. } => AttemptAction::LaunchBrowser,
        AttemptModel::Navigating { .. } => AttemptAction::Navigate,
        AttemptModel::AwaitingLoad => AttemptAction::AwaitNavigation,
        AttemptModel::CheckingUrl => AttemptAction::QueryUrl,
        AttemptModel::Reloading => AttemptAction::ReloadWithCache,
        AttemptModel::AwaitingReload => AttemptAction::AwaitNavigation,
        AttemptModel::AwaitingBody => AttemptAction::AwaitBody,
        AttemptModel::Submitting => AttemptAction::SubmitCredentials,
        AttemptModel::Done { .. } => AttemptAction::Finish,
    }
}

/// One login attempt in progress. The caller alternates `action`, the
/// outside work, and `step` until `result` reports an outcome.
pub struct LoginAttempt {
    pub state: AttemptState,
}

impl View for LoginAttempt {
    type V = AttemptModel;

    open spec fn view(&self) -> AttemptModel {
        self.state@
    }
}

impl LoginAttempt {
    /// A fresh attempt: discovery has fetched nothing yet.
    pub fn new() -> (a: Self)
        ensures
            a@ == (AttemptModel::Discovering { fetched: 0 }),
            attempt_wf(a@),
    {
        LoginAttempt { state: AttemptState::Discovering { fetched: 0 } }
    }

    /// What the caller must do next.
    pub fn action(&self) -> (a: AttemptAction)
        ensures
            a == spec_attempt_action(self@),
    {
        match &self.state {
            AttemptState::Discovering { .. } => AttemptAction::FetchPortalPage,
            AttemptState::Launching { .. } => AttemptAction::LaunchBrowser,
            AttemptState::Navigating { .. } => AttemptAction::Navigate,
            AttemptState::AwaitingLoad => AttemptAction::AwaitNavigation,
            AttemptState::CheckingUrl => AttemptAction::QueryUrl,
            AttemptState::Reloading => AttemptAction::ReloadWithCache,
            AttemptState::AwaitingReload => AttemptAction::AwaitNavigation,
            AttemptState::AwaitingBody => AttemptAction::AwaitBody,
            AttemptState::Submitting => AttemptAction::SubmitCredentials,
            AttemptState::Done { .. } => AttemptAction::Finish,
        }
    }

    /// The URL the `Navigate` action must go to, available from discovery
    /// until the first navigation completes.
    pub fn target_url(&self) -> (r: Option<&Vec<u8>>)
        ensures
            self@ matches AttemptModel::Launching { url } ==> (r matches Some(v) && v@ == url),
            self@ matches AttemptModel::Navigating { url, tries } ==> (r matches Some(v) && v@
                == url),
            !(self@ is Launching) && !(self@ is Navigating) ==> r is None,
    {
        match &self.state {
            AttemptState::Launching { url } => Some(url),
            AttemptState::Navigating { url, .. } => Some(url),
            _ => None,
        }
    }

    /// The attempt's outcome, once it is over.
    pub fn result(&self) -> (r: Option<Result<AttemptOutcome, LoginError>>)
        ensures
            match self@ {
                AttemptModel::Done { result } => r == Some(result),
                _ => r is None,
            },
    {
        match &self.state {
            AttemptState::Done { result } => Some(*result),
            _ => None,
        }
    }

    /// Feeds the outcome of the current action back in and advances the
    /// attempt exactly as `attempt_next` says.
    pub fn step(self, m: &PortalMatcher, e: AttemptEvent) -> (next: Self)
        requires
            attempt_wf(self@),
        ensures
            next@ == attempt_next(m.marker@, m.prefix@, self@, e@),
            attempt_wf(next@),
    {
        let state = match (self.state, e) {
            (AttemptState::Discovering { fetched }, AttemptEvent::FetchOk { body }) => {
                match extract_login_url(m, body.as_slice()) {
                    Some(u) => AttemptState::Launching { url: u },
                    None => {
                        if fetched + 1 >= DISCOVERY_FETCHES {
                            AttemptState::Done { result: Err(LoginError::NoPortal) }
                        } else {
                            AttemptState::Discovering { fetched: fetched + 1 }
                        }
                    },
                }
            },
            (AttemptState::Discovering { fetched }, AttemptEvent::FetchFailed) => {
                if fetched + 1 >= DISCOVERY_FETCHES {
                    AttemptState::Done { result: Err(LoginError::NoPortal) }
                } else {
                    AttemptState::Discovering { fetched: fetched + 1 }
                }
            },
            (AttemptState::Launching { url }, AttemptEvent::LaunchOk) => AttemptState::Navigating {
                url,
                tries: 0,
            },
            (AttemptState::Launching { .. }, AttemptEvent::LaunchFailed) => AttemptState::Done {
                result: Err(LoginError::Transport),
            },
            (AttemptState::Navigating { .. }, AttemptEvent::NavigateOk) => {
                AttemptState::AwaitingLoad
            },
            (AttemptState::Navigating { url, tries }, AttemptEvent::NavigateFailed) => {
                if tries + 1 >= NAVIGATION_TRIES {
                    AttemptState::Done { result: Err(LoginError::NavigationFailed) }
                } else {
                    AttemptState::Navigating { url, tries: tries + 1 }
                }
            },
            (AttemptState::AwaitingLoad, AttemptEvent::LoadOk) => AttemptState::CheckingUrl,
            (AttemptState::AwaitingLoad, AttemptEvent::LoadFailed) => AttemptState::Done {
                result: Err(LoginError::Transport),
            },
            (AttemptState::CheckingUrl, AttemptEvent::CurrentUrl { url }) => {
                if crate::portal::contains_bytes(url.as_slice(), m.marker.as_slice()) {
                    AttemptState::Reloading
                } else {
                    AttemptState::Done { result: Ok(AttemptOutcome::UnknownPage) }
                }
            },
            (AttemptState::Reloading, AttemptEvent::ReloadOk) => AttemptState::AwaitingReload,
            (AttemptState::Reloading, AttemptEvent::ReloadFailed) => AttemptState::Done {
                result: Err(LoginError::Transport),
            },
            (AttemptState::AwaitingReload, AttemptEvent::LoadOk) => AttemptState::AwaitingBody,
            (AttemptState::AwaitingReload, AttemptEvent::LoadFailed) => AttemptState::Done {
                result: Err(LoginError::Transport),
            },
            (AttemptState::AwaitingBody, AttemptEvent::BodyOk) => AttemptState::Submitting,
            (AttemptState::AwaitingBody, AttemptEvent::BodyFailed) => AttemptState::Done {
                result: Err(LoginError::Transport),
            },
            (AttemptState::Submitting, AttemptEvent::ScriptOk) => AttemptState::Done {
                result: Ok(AttemptOutcome::Submitted),
            },
            (AttemptState::Submitting, AttemptEvent::ScriptFailed) => AttemptState::Done {
                result: Err(LoginError::Transport),
            },
            (s2, _) => s2,
        };
        LoginAttempt { state }
    }
}

/// The login task: the stored credentials and the portal they belong to.
/// A fresh `LoginAttempt` is begun for each recovery try; the credentials
/// are read by the caller when the attempt asks for `SubmitCredentials`.
pub struct LoginTask {
    pub username: String,
    pub password: String,
    pub matcher: PortalMatcher,
}

impl LoginTask {
    /// A task for the campus portal, with the given credentials.
    pub fn new(username: String, password: String) -> (t: Self)
        ensures
            t.username@ == username@,
            t.password@ == password@,
            t.matcher.marker@ == "w.xidian.edu.cn".spec_bytes(),
            t.matcher.prefix@ == "https://w.xidian.edu.cn".spec_bytes(),
    {
        LoginTask {
            username,
            password,
            matcher: PortalMatcher {
                marker: "w.xidian.edu.cn".as_bytes_vec(),
                prefix: "https://w.xidian.edu.cn".as_bytes_vec(),
            },
        }
    }

    /// Begins one login attempt: yields the decision machine that dictates
    /// each network and browser action of the attempt.
    pub fn login(&self) -> (a: LoginAttempt)
        ensures
            a@ == (AttemptModel::Discovering { fetched: 0 }),
            attempt_wf(a@),
    {
        LoginAttempt::new()
    }
}

/// The state an attempt reaches after a whole sequence of observed outcomes.
pub open spec fn attempt_run(
    marker: Seq<u8>,
    prefix: Seq<u8>,
    s: AttemptModel,
    evs: Seq<AttemptEventModel>,
) -> AttemptModel
    decreases evs.len(),
{
    if evs.len() == 0 {
        s
    } else {
        attempt_run(marker, prefix, attempt_next(marker, prefix, s, evs[0]), evs.drop_first())
    }
}

/// A sequence of `n` failed navigations.
pub open spec fn nav_failures(n: nat) -> Seq<AttemptEventModel> {
    Seq::new(n, |i: int| AttemptEventModel::NavigateFailed)
}

/// Navigation gives up exactly at the budget: from a state with `tries`
/// failed navigations behind it, the remaining `NAVIGATION_TRIES - tries`
/// consecutive failures end the attempt with `NavigationFailed` — so an
/// attempt performs at most `NAVIGATION_TRIES` navigations in all.
pub proof fn lemma_navigation_exhausts(marker: Seq<u8>, prefix: Seq<u8>, url: Seq<u8>, tries: int)
    requires
        0 <= tries < NAVIGATION_TRIES,
    ensures
        attempt_run(
            marker,
            prefix,
            AttemptModel::Navigating { url, tries },
            nav_failures((NAVIGATION_TRIES - tries) as nat),
        ) == (AttemptModel::Done { result: Err(LoginError::NavigationFailed) }),
    decreases NAVIGATION_TRIES - tries,
{
    let n = (NAVIGATION_TRIES - tries) as nat;
    assert(nav_failures(n)[0] == AttemptEventModel::NavigateFailed);
    assert(nav_failures(n).drop_first() =~= nav_failures((n - 1) as nat));
    if tries + 1 < NAVIGATION_TRIES {
        lemma_navigation_exhausts(marker, prefix, url, tries + 1);
    } else {
        assert(attempt_run(
            marker,
            prefix,
            AttemptModel::Done { result: Err(LoginError::NavigationFailed) },
            nav_failures(0),
        ) == (AttemptModel::Done { result: Err(LoginError::NavigationFailed) }));
    }
}

/// A navigation success short-circuits the remaining retry budget: after
/// any `k` failures that leave budget to spare, one success moves the
/// attempt on to waiting for the page, regardless of the failures behind it.
pub proof fn lemma_navigation_short_circuit(
    marker: Seq<u8>,
    prefix: Seq<u8>,
    url: Seq<u8>,
    tries: int,
    k: int,
)
    requires
        0 <= tries,
        0 <= k,
        tries + k < NAVIGATION_TRIES,
    ensures
        attempt_run(
            marker,
            prefix,
            AttemptModel::Navigating { url, tries },
            nav_failures(k as nat).push(AttemptEventModel::NavigateOk),
        ) == AttemptModel::AwaitingLoad,
    decreases k,
{
    let evs = nav_failures(k as nat).push(AttemptEventModel::NavigateOk);
    if k == 0 {
        assert(evs[0] == AttemptEventModel::NavigateOk);
        assert(evs.drop_first() =~= nav_failures(0));
        assert(attempt_run(marker, prefix, AttemptModel::AwaitingLoad, nav_failures(0))
            == AttemptModel::AwaitingLoad);
    } else {
        assert(evs[0] == AttemptEventModel::NavigateFailed);
        assert(evs.drop_first() =~= nav_failures((k - 1) as nat).push(
            AttemptEventModel::NavigateOk,
        ));
        lemma_navigation_short_circuit(marker, prefix, url, tries + 1, k - 1);
    }
}

} // verus!
