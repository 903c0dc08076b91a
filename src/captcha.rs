//! The CAPTCHA-solving client: its configuration, the provider's request
//! URLs, the reading of provider replies, and the per-solve session that
//! decides after each poll whether to poll again.

use vstd::prelude::*;

verus! {

/// Polls that one solve may make before it times out.
pub const MAX_POLLS: u32 = 30;

/// Seconds to wait before each poll.
pub const POLL_INTERVAL_SECS: u64 = 5;

/// The challenge key of the target site, used where none is configured.
pub const DEFAULT_SITE_KEY: &'static str = "6LeYdFcsAAAAACXSB7EiVlXm6Wp2F1bkESWKnhkg";

/// Credentials for the solving provider.
#[derive(Clone, Debug)]
pub struct CaptchaConfig {
    pub api_key: String,
    /// reCAPTCHA site key of the target page.
    pub site_key: String,
}

/// Failures of one solve, or of the provider's balance query.
#[derive(Clone, Debug, PartialEq, Eq)]
pub enum CaptchaError {
    /// No provider API key is configured.
    MissingApiKey,
    /// The provider refused the submission; holds its message.
    Submit(String),
    /// The submission was accepted but carried no session id.
    NoSessionId,
    /// The provider reported an error while polling; holds its message.
    Provider(String),
    /// A solved reply carried no token.
    MissingToken,
    /// A reply's status was neither 0 nor 1.
    UnexpectedResponse,
    /// No solution came within the poll budget.
    Timeout,
    /// The balance query was refused.
    BalanceUnavailable,
}

impl CaptchaError {
    /// A copy of this error.
    pub fn duplicate(&self) -> (r: CaptchaError)
        ensures
            r == *self,
    {
        match self {
            CaptchaError::MissingApiKey => CaptchaError::MissingApiKey,
            CaptchaError::Submit(m) => CaptchaError::Submit(m.clone()),
            CaptchaError::NoSessionId => CaptchaError::NoSessionId,
            CaptchaError::Provider(m) => CaptchaError::Provider(m.clone()),
            CaptchaError::MissingToken => CaptchaError::MissingToken,
            CaptchaError::UnexpectedResponse => CaptchaError::UnexpectedResponse,
            CaptchaError::Timeout => CaptchaError::Timeout,
            CaptchaError::BalanceUnavailable => CaptchaError::BalanceUnavailable,
        }
    }
}

/// One poll reply, as read from the provider.
#[derive(Clone, Debug, PartialEq, Eq)]
pub enum PollReply {
    NotReady,
    Solved(String),
    Failed(CaptchaError),
}

/// Where a solve stands.
#[derive(Clone, Debug, PartialEq, Eq)]
pub enum SessionState {
    Pending,
    Solved(String),
    Failed(CaptchaError),
}

/// What the caller does next in a solve.
#[derive(Debug, PartialEq, Eq)]
pub enum SolverAction {
    /// Wait the poll interval, then poll once more.
    Poll,
    /// Stop, with the solve's result.
    Finish(Result<String, CaptchaError>),
}

/// One solve: the provider's session id, the polls made so far and the state.
#[derive(Clone, Debug)]
pub struct CaptchaSession {
    pub id: String,
    pub polls: u32,
    pub state: SessionState,
}

pub open spec fn target_page_url() -> Seq<char> {
    "https://soldrip.io"@
}

/// The provider's intake request for a site key.
pub open spec fn submit_url_of(api_key: Seq<char>, site_key: Seq<char>) -> Seq<char> {
    "https://2captcha.com/in.php?key="@ + api_key + "&method=userrecaptcha&googlekey="@
        + site_key + "&pageurl="@ + target_page_url() + "&json=1"@
}

/// The provider's solution query for a session.
pub open spec fn result_url_of(api_key: Seq<char>, id: Seq<char>) -> Seq<char> {
    "https://2captcha.com/res.php?key="@ + api_key + "&action=get&id="@ + id + "&json=1"@
}

/// The provider's balance query.
pub open spec fn balance_url_of(api_key: Seq<char>) -> Seq<char> {
    "https://2captcha.com/res.php?key="@ + api_key + "&action=getbalance&json=1"@
}

impl CaptchaConfig {
    /// The configuration from an API key, which is required, and a site key,
    /// which defaults to the target site's own.
    pub fn from_values(api_key: Option<String>, site_key: Option<String>) -> (r: Result<
        CaptchaConfig,
        CaptchaError,
    >)
        ensures
            api_key is None ==> r == Err::<CaptchaConfig, CaptchaError>(
                CaptchaError::MissingApiKey,
            ),
            api_key is Some ==> r is Ok && r->Ok_0.api_key@ == api_key->Some_0@,
            api_key is Some && site_key is Some ==> r is Ok && r->Ok_0.site_key@
                == site_key->Some_0@,
            api_key is Some && site_key is None ==> r is Ok && r->Ok_0.site_key@
                == DEFAULT_SITE_KEY@,
    {
        match api_key {
            None => Err(CaptchaError::MissingApiKey),
            Some(api_key) => {
                let site_key = match site_key {
                    Some(k) => k,
                    None => DEFAULT_SITE_KEY.to_owned(),
                };
                Ok(CaptchaConfig { api_key, site_key })
            },
        }
    }

    /// The intake request that submits this site's challenge.
    pub fn submit_url(&self) -> (r: String)
        ensures
            r@ == submit_url_of(self.api_key@, self.site_key@),
    {
        let mut s = "https://2captcha.com/in.php?key=".to_owned();
        s.append(self.api_key.as_str());
        s.append("&method=userrecaptcha&googlekey=");
        s.append(self.site_key.as_str());
        s.append("&pageurl=");
        s.append("https://soldrip.io");
        s.append("&json=1");
        s
    }

    /// The query for the solution of session `id`.
    pub fn result_url(&self, id: &str) -> (r: String)
        ensures
            r@ == result_url_of(self.api_key@, id@),
    {
        let mut s = "https://2captcha.com/res.php?key=".to_owned();
        s.append(self.api_key.as_str());
        s.append("&action=get&id=");
        s.append(id);
        s.append("&json=1");
        s
    }
}

/// The query for the provider account's balance.
pub fn balance_url(api_key: &str) -> (r: String)
    ensures
        r@ == balance_url_of(api_key@),
{
    let mut s = "https://2captcha.com/res.php?key=".to_owned();
    s.append(api_key);
    s.append("&action=getbalance&json=1");
    s
}

/// Text of an optional provider message.
fn message_or(request: Option<String>, fallback: &str) -> (r: String)
    ensures
        r@ == match request {
            Some(m) => m@,
            None => fallback@,
        },
        request is Some ==> r == request->Some_0,
{
    match request {
        Some(m) => m,
        None => fallback.to_owned(),
    }
}

/// Reads the intake reply, given its `status` field and its `request`
/// field where that is text: status 1 with a session id opens a session.
pub fn read_submit_reply(status: Option<i64>, request: Option<String>) -> (r: Result<
    CaptchaSession,
    CaptchaError,
>)
    ensures
        status != Some(1i64) ==> (r matches Err(CaptchaError::Submit(m)) && m@ == match request {
            Some(q) => q@,
            None => "Unknown error"@,
        }),
        status == Some(1i64) && request is None ==> r == Err::<CaptchaSession, CaptchaError>(
            CaptchaError::NoSessionId,
        ),
        status == Some(1i64) && request is Some ==> r is Ok && r->Ok_0 == CaptchaSession::new_spec(
            request->Some_0,
        ),
{
    match status {
        Some(1) => match request {
            Some(id) => Ok(CaptchaSession::new(id)),
            None => Err(CaptchaError::NoSessionId),
        },
        _ => Err(CaptchaError::Submit(message_or(request, "Unknown error"))),
    }
}

/// The provider's word for a solution that is not ready yet.
pub open spec fn not_ready_text() -> Seq<char> {
    "CAPCHA_NOT_READY"@
}

/// Reads a poll reply, given its `status` field and its `request` field
/// where that is text.
pub fn read_poll_reply(status: Option<i64>, request: Option<String>) -> (r: PollReply)
    ensures
        status == Some(1i64) ==> r == match request {
            Some(t) => PollReply::Solved(t),
            None => PollReply::Failed(CaptchaError::MissingToken),
        },
        status == Some(0i64) ==> r == match request {
            Some(m) => if m@ == not_ready_text() {
                PollReply::NotReady
            } else {
                PollReply::Failed(CaptchaError::Provider(m))
            },
            None => r,
        },
        status == Some(0i64) && request is None ==> (r matches PollReply::Failed(
            CaptchaError::Provider(m),
        ) && m@.len() == 0),
        status != Some(1i64) && status != Some(0i64) ==> r == PollReply::Failed(
            CaptchaError::UnexpectedResponse,
        ),
{
    match status {
        Some(1) => match request {
            Some(t) => PollReply::Solved(t),
            None => PollReply::Failed(CaptchaError::MissingToken),
        },
        Some(0) => {
            proof {
                reveal_strlit("");
                reveal_strlit("CAPCHA_NOT_READY");
                assert(""@ =~= Seq::<char>::empty());
                assert("CAPCHA_NOT_READY"@.len() == 16);
            }
            let m = message_or(request, "");
            if m == "CAPCHA_NOT_READY".to_owned() {
                PollReply::NotReady
            } else {
                PollReply::Failed(CaptchaError::Provider(m))
            }
        },
        _ => PollReply::Failed(CaptchaError::UnexpectedResponse),
    }
}

impl CaptchaSession {
    /// A session just opened: no polls yet, pending.
    pub open spec fn new_spec(id: String) -> CaptchaSession {
        CaptchaSession { id, polls: 0, state: SessionState::Pending }
    }

    /// The poll count stays within the budget, and a pending session has polls left.
    pub open spec fn wf(self) -> bool {
        &&& self.polls <= MAX_POLLS
        &&& self.state is Pending ==> self.polls < MAX_POLLS
    }

    /// The session after one poll reply. A finished session ignores replies.
    pub open spec fn step(self, reply: PollReply) -> CaptchaSession {
        if !(self.state is Pending) || self.polls >= MAX_POLLS {
            self
        } else {
            let polls = (self.polls + 1) as u32;
            let state = match reply {
                PollReply::NotReady => if polls == MAX_POLLS {
                    SessionState::Failed(CaptchaError::Timeout)
                } else {
                    SessionState::Pending
                },
                PollReply::Solved(t) => SessionState::Solved(t),
                PollReply::Failed(e) => SessionState::Failed(e),
            };
            CaptchaSession { id: self.id, polls, state }
        }
    }

    /// The session after a sequence of poll replies, in order.
    pub open spec fn run(self, replies: Seq<PollReply>) -> CaptchaSession
        decreases replies.len(),
    {
        if replies.len() == 0 {
            self
        } else {
            self.step(replies[0]).run(replies.drop_first())
        }
    }

    /// What the caller does next.
    pub open spec fn action(self) -> SolverAction {
        match self.state {
            SessionState::Pending => if self.polls < MAX_POLLS {
                SolverAction::Poll
            } else {
                SolverAction::Finish(Err(CaptchaError::Timeout))
            },
            SessionState::Solved(t) => SolverAction::Finish(Ok(t)),
            SessionState::Failed(e) => SolverAction::Finish(Err(e)),
        }
    }

    /// Opens a session for the provider's session id.
    pub fn new(id: String) -> (r: CaptchaSession)
        ensures
            r == CaptchaSession::new_spec(id),
            r.wf(),
    {
        CaptchaSession { id, polls: 0, state: SessionState::Pending }
    }

    /// What the caller does next: poll while pending, else finish with the result.
    pub fn next_action(&self) -> (r: SolverAction)
        ensures
            r == self.action(),
    {
        match &self.state {
            SessionState::Pending => if self.polls < MAX_POLLS {
                SolverAction::Poll
            } else {
                SolverAction::Finish(Err(CaptchaError::Timeout))
            },
            SessionState::Solved(t) => SolverAction::Finish(Ok(t.clone())),
            SessionState::Failed(e) => SolverAction::Finish(Err(e.duplicate())),
        }
    }

    /// Takes in the reply to one poll.
    pub fn record_reply(&mut self, reply: PollReply)
        requires
            old(self).wf(),
        ensures
            *final(self) == old(self).step(reply),
            final(self).wf(),
    {
        let pending = match self.state {
            SessionState::Pending => true,
            _ => false,
        };
        if pending && self.polls < MAX_POLLS {
            self.polls = self.polls + 1;
            self.state = match reply {
                PollReply::NotReady => if self.polls == MAX_POLLS {
                    SessionState::Failed(CaptchaError::Timeout)
                } else {
                    SessionState::Pending
                },
                PollReply::Solved(t) => SessionState::Solved(t),
                PollReply::Failed(e) => SessionState::Failed(e),
            };
        }
    }
}

/// `n` replies that each say the solution is not ready yet.
pub open spec fn not_ready_replies(n: nat) -> Seq<PollReply> {
    Seq::new(n, |i: int| PollReply::NotReady)
}

/// A well-formed session stays well-formed whatever the provider replies:
/// no solve ever makes more than `MAX_POLLS` polls.
pub proof fn lemma_polls_bounded(s: CaptchaSession, replies: Seq<PollReply>)
    requires
        s.wf(),
    ensures
        s.run(replies).wf(),
        s.run(replies).polls <= MAX_POLLS,
        s.run(replies).polls >= s.polls,
    decreases replies.len(),
{
    if replies.len() > 0 {
        lemma_polls_bounded(s.step(replies[0]), replies.drop_first());
    }
}

/// A finished session is unchanged by further replies.
pub proof fn lemma_finished_is_final(s: CaptchaSession, replies: Seq<PollReply>)
    requires
        !(s.state is Pending),
    ensures
        s.run(replies) == s,
    decreases replies.len(),
{
    if replies.len() > 0 {
        lemma_finished_is_final(s.step(replies[0]), replies.drop_first());
    }
}

/// Not-ready replies within the budget leave a session pending, one poll
/// further per reply; the next action is still to poll.
pub proof fn lemma_not_ready_keeps_polling(s: CaptchaSession, n: nat)
    requires
        s.state is Pending,
        s.polls + n < MAX_POLLS,
    ensures
        s.run(not_ready_replies(n)) == (CaptchaSession {
            id: s.id,
            polls: (s.polls + n) as u32,
            state: SessionState::Pending,
        }),
        s.run(not_ready_replies(n)).action() == SolverAction::Poll,
    decreases n,
{
    if n > 0 {
        assert(not_ready_replies(n).drop_first() =~= not_ready_replies((n - 1) as nat));
        lemma_not_ready_keeps_polling(s.step(PollReply::NotReady), (n - 1) as nat);
    }
}

/// A provider that answers "not ready" `n` times and then gives a token:
/// the session is pending and polling after each of the first `n` replies,
/// and after the next one it holds the token, having polled exactly `n + 1` times.
pub proof fn lemma_solved_after_not_ready(id: String, n: nat, token: String)
    requires
        n + 1 <= MAX_POLLS,
    ensures
        forall|k: nat|
            k <= n ==> #[trigger] CaptchaSession::new_spec(id).run(not_ready_replies(k)).action()
                == SolverAction::Poll,
        CaptchaSession::new_spec(id).run(not_ready_replies(n).push(PollReply::Solved(token)))
            == (CaptchaSession { id, polls: (n + 1) as u32, state: SessionState::Solved(token) }),
        CaptchaSession::new_spec(id).run(
            not_ready_replies(n).push(PollReply::Solved(token)),
        ).action() == SolverAction::Finish(Ok(token)),
{
    let s0 = CaptchaSession::new_spec(id);
    assert forall|k: nat| k <= n implies #[trigger] s0.run(not_ready_replies(k)).action()
        == SolverAction::Poll by {
        lemma_not_ready_keeps_polling(s0, k);
    }
    lemma_run_then_solved(s0, n, token);
}

proof fn lemma_run_then_solved(s: CaptchaSession, n: nat, token: String)
    requires
        s.state is Pending,
        s.polls + n < MAX_POLLS,
    ensures
        s.run(not_ready_replies(n).push(PollReply::Solved(token))) == (CaptchaSession {
            id: s.id,
            polls: (s.polls + n + 1) as u32,
            state: SessionState::Solved(token),
        }),
    decreases n,
{
    let rs = not_ready_replies(n).push(PollReply::Solved(token));
    if n == 0 {
        assert(rs[0] == PollReply::Solved(token));
        assert(rs.drop_first() =~= Seq::<PollReply>::empty());
        let next = s.step(PollReply::Solved(token));
        assert(next.run(rs.drop_first()) == next);
    } else {
        assert(rs[0] == PollReply::NotReady);
        assert(rs.drop_first() =~= not_ready_replies((n - 1) as nat).push(PollReply::Solved(token)));
        lemma_run_then_solved(s.step(PollReply::NotReady), (n - 1) as nat, token);
    }
}

/// A provider that never has the solution ready: after `MAX_POLLS` polls
/// (or any more replies) the session has failed with `Timeout`, having
/// polled exactly `MAX_POLLS` times, and asks for no further poll.
pub proof fn lemma_timeout_after_max_polls(id: String, n: nat)
    requires
        n >= MAX_POLLS,
    ensures
        CaptchaSession::new_spec(id).run(not_ready_replies(n)).state == SessionState::Failed(
            CaptchaError::Timeout,
        ),
        CaptchaSession::new_spec(id).run(not_ready_replies(n)).polls == MAX_POLLS,
        CaptchaSession::new_spec(id).run(not_ready_replies(n)).action() == SolverAction::Finish(
            Err(CaptchaError::Timeout),
        ),
{
    lemma_timeout_from(CaptchaSession::new_spec(id), n);
}

proof fn lemma_timeout_from(s: CaptchaSession, n: nat)
    requires
        s.state is Pending,
        s.polls < MAX_POLLS,
        s.polls + n >= MAX_POLLS,
    ensures
        s.run(not_ready_replies(n)) == (CaptchaSession {
            id: s.id,
            polls: MAX_POLLS,
            state: SessionState::Failed(CaptchaError::Timeout),
        }),
    decreases n,
{
    assert(not_ready_replies(n).drop_first() =~= not_ready_replies((n - 1) as nat));
    let next = s.step(PollReply::NotReady);
    if s.polls + 1 == MAX_POLLS {
        lemma_finished_is_final(next, not_ready_replies((n - 1) as nat));
    } else {
        lemma_timeout_from(next, (n - 1) as nat);
    }
}

} // verus!
