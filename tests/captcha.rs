use soldrip::captcha::{
    balance_url, read_poll_reply, read_submit_reply, CaptchaConfig, CaptchaError, CaptchaSession,
    PollReply, SessionState, SolverAction, DEFAULT_SITE_KEY, MAX_POLLS,
};

/// Runs a session against a scripted provider; returns the result and the polls made.
fn drive(mut provider: impl FnMut(u32) -> PollReply) -> (Result<String, CaptchaError>, u32) {
    let mut session = CaptchaSession::new("id-1".to_string());
    let mut polls = 0u32;
    loop {
        match session.next_action() {
            SolverAction::Poll => {
                polls += 1;
                session.record_reply(provider(polls));
            }
            SolverAction::Finish(r) => {
                assert_eq!(session.polls, polls);
                return (r, polls);
            }
        }
    }
}

#[test]
fn solved_after_n_not_ready_polls() {
    for n in [0u32, 1, 3, 29] {
        let (r, polls) = drive(|k| if k <= n { PollReply::NotReady } else { PollReply::Solved("tok".to_string()) });
        assert_eq!(r, Ok("tok".to_string()));
        assert_eq!(polls, n + 1);
    }
}

#[test]
fn never_ready_times_out_after_thirty_polls() {
    let (r, polls) = drive(|_| PollReply::NotReady);
    assert_eq!(r, Err(CaptchaError::Timeout));
    assert_eq!(polls, 30);
    assert_eq!(MAX_POLLS, 30);
}

#[test]
fn provider_error_stops_polling() {
    let (r, polls) = drive(|k| if k < 2 { PollReply::NotReady } else { PollReply::Failed(CaptchaError::Provider("ERROR_X".to_string())) });
    assert_eq!(r, Err(CaptchaError::Provider("ERROR_X".to_string())));
    assert_eq!(polls, 2);
}

#[test]
fn finished_session_ignores_replies() {
    let mut s = CaptchaSession::new("id".to_string());
    s.record_reply(PollReply::Solved("t".to_string()));
    s.record_reply(PollReply::NotReady);
    assert_eq!(s.polls, 1);
    assert_eq!(s.state, SessionState::Solved("t".to_string()));
}

#[test]
fn poll_reply_reading() {
    assert_eq!(read_poll_reply(Some(0), Some("CAPCHA_NOT_READY".to_string())), PollReply::NotReady);
    assert_eq!(read_poll_reply(Some(1), Some("tok".to_string())), PollReply::Solved("tok".to_string()));
    assert_eq!(read_poll_reply(Some(1), None), PollReply::Failed(CaptchaError::MissingToken));
    assert_eq!(
        read_poll_reply(Some(0), Some("ERROR_CAPTCHA_UNSOLVABLE".to_string())),
        PollReply::Failed(CaptchaError::Provider("ERROR_CAPTCHA_UNSOLVABLE".to_string()))
    );
    assert_eq!(read_poll_reply(Some(0), None), PollReply::Failed(CaptchaError::Provider(String::new())));
    assert_eq!(read_poll_reply(Some(2), None), PollReply::Failed(CaptchaError::UnexpectedResponse));
    assert_eq!(read_poll_reply(None, None), PollReply::Failed(CaptchaError::UnexpectedResponse));
}

#[test]
fn submit_reply_reading() {
    let s = read_submit_reply(Some(1), Some("123".to_string())).unwrap();
    assert_eq!(s.id, "123");
    assert_eq!(s.polls, 0);
    assert_eq!(s.state, SessionState::Pending);
    assert_eq!(read_submit_reply(Some(1), None).unwrap_err(), CaptchaError::NoSessionId);
    assert_eq!(
        read_submit_reply(Some(0), Some("ERROR_ZERO_BALANCE".to_string())).unwrap_err(),
        CaptchaError::Submit("ERROR_ZERO_BALANCE".to_string())
    );
    assert_eq!(
        read_submit_reply(None, None).unwrap_err(),
        CaptchaError::Submit("Unknown error".to_string())
    );
}

#[test]
fn config_requires_api_key() {
    assert_eq!(CaptchaConfig::from_values(None, None).unwrap_err(), CaptchaError::MissingApiKey);
    let c = CaptchaConfig::from_values(Some("k".to_string()), None).unwrap();
    assert_eq!(c.api_key, "k");
    assert_eq!(c.site_key, DEFAULT_SITE_KEY);
    let c = CaptchaConfig::from_values(Some("k".to_string()), Some("s".to_string())).unwrap();
    assert_eq!(c.site_key, "s");
}

#[test]
fn provider_urls() {
    let c = CaptchaConfig::from_values(Some("KEY".to_string()), Some("SITE".to_string())).unwrap();
    assert_eq!(
        c.submit_url(),
        "https://2captcha.com/in.php?key=KEY&method=userrecaptcha&googlekey=SITE&pageurl=https://soldrip.io&json=1"
    );
    assert_eq!(c.result_url("77"), "https://2captcha.com/res.php?key=KEY&action=get&id=77&json=1");
    assert_eq!(balance_url("KEY"), "https://2captcha.com/res.php?key=KEY&action=getbalance&json=1");
}
