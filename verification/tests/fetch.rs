use hostprobe::fetch::advance;
use hostprobe::fetch::begin;
use hostprobe::fetch::FetchAction;
use hostprobe::fetch::FetchError;
use hostprobe::fetch::FetchEvent;
use hostprobe::fetch::FetchState;
use hostprobe::fetch::USER_AGENT;

/// Plays the part of the network: answers each action with the next of the
/// given events and returns what the fetch finishes with.
fn run(url: &str, events: Vec<FetchEvent>) -> Result<String, FetchError> {
    let (mut state, mut action) = begin(url.to_string());
    let mut events = events.into_iter();
    loop {
        if let FetchAction::Finish { result } = action {
            assert_eq!(state, FetchState::Finished);
            assert!(events.next().is_none());
            return result;
        }
        let event = events.next().expect("the fetch waits for an event");
        let (next_state, next_action) = advance(state, event).expect("the event is accepted");
        state = next_state;
        action = next_action;
    }
}

#[test]
fn fetch_opens_with_the_fixed_identity() {
    let (state, action) = begin("http://mock/feed".to_string());
    assert_eq!(state, FetchState::Building { url: "http://mock/feed".to_string() });
    assert_eq!(
        action,
        FetchAction::BuildClient {
            user_agent: "Mozilla/5.0 (Windows NT 10.0; Win64; x64) AppleWebKit/537.36 (KHTML, like Gecko) Chrome/120.0.0.0 Safari/537.36".to_string()
        }
    );
    assert_eq!(USER_AGENT.len(), 111);
}

#[test]
fn fetch_sends_one_get_to_the_given_url() {
    let (state, _) = begin("http://mock/feed".to_string());
    assert_eq!(
        advance(state, FetchEvent::ClientBuilt),
        Some((FetchState::Sending, FetchAction::SendGet { url: "http://mock/feed".to_string() }))
    );
}

#[test]
fn fetch_returns_the_body_of_the_mock_feed() {
    let result = run(
        "http://mock/feed",
        vec![
            FetchEvent::ClientBuilt,
            FetchEvent::ResponseArrived { status: 200 },
            FetchEvent::BodyRead { text: "<rss>ok</rss>".to_string() },
        ],
    );
    assert_eq!(result, Ok("<rss>ok</rss>".to_string()));
}

#[test]
fn fetch_reports_an_unreachable_host_as_an_error() {
    let result = run(
        "http://unreachable.invalid/feed",
        vec![
            FetchEvent::ClientBuilt,
            FetchEvent::SendFailed { detail: "error sending request".to_string() },
        ],
    );
    assert_eq!(result, Err(FetchError::Transport("error sending request".to_string())));
}

#[test]
fn fetch_returns_the_body_of_a_404() {
    let result = run(
        "http://mock/missing",
        vec![
            FetchEvent::ClientBuilt,
            FetchEvent::ResponseArrived { status: 404 },
            FetchEvent::BodyRead { text: "not found".to_string() },
        ],
    );
    assert_eq!(result, Ok("not found".to_string()));
}

#[test]
fn fetch_reports_a_client_that_cannot_be_built() {
    let result = run(
        "http://mock/feed",
        vec![FetchEvent::ClientFailed { detail: "builder error".to_string() }],
    );
    assert_eq!(result, Err(FetchError::Transport("builder error".to_string())));
}

#[test]
fn fetch_reports_a_body_that_is_no_text() {
    let result = run(
        "http://mock/feed",
        vec![
            FetchEvent::ClientBuilt,
            FetchEvent::ResponseArrived { status: 200 },
            FetchEvent::BodyFailed { detail: "error decoding response body".to_string() },
        ],
    );
    assert_eq!(result, Err(FetchError::Decode("error decoding response body".to_string())));
}

#[test]
fn fetch_reads_the_body_whatever_the_status() {
    for status in [100u16, 200, 301, 404, 500, 599] {
        assert_eq!(
            advance(FetchState::Sending, FetchEvent::ResponseArrived { status }),
            Some((FetchState::Reading, FetchAction::ReadBody))
        );
    }
}

#[test]
fn fetch_refuses_events_it_does_not_wait_for() {
    let building = || FetchState::Building { url: "http://mock/feed".to_string() };
    assert_eq!(advance(building(), FetchEvent::ResponseArrived { status: 200 }), None);
    assert_eq!(advance(building(), FetchEvent::SendFailed { detail: "x".to_string() }), None);
    assert_eq!(advance(building(), FetchEvent::BodyRead { text: "x".to_string() }), None);
    assert_eq!(advance(FetchState::Sending, FetchEvent::ClientBuilt), None);
    assert_eq!(advance(FetchState::Sending, FetchEvent::BodyRead { text: "x".to_string() }), None);
    assert_eq!(advance(FetchState::Reading, FetchEvent::ResponseArrived { status: 200 }), None);
    assert_eq!(advance(FetchState::Reading, FetchEvent::ClientFailed { detail: "x".to_string() }), None);
}

#[test]
fn fetch_that_has_finished_accepts_nothing_more() {
    assert_eq!(advance(FetchState::Finished, FetchEvent::ClientBuilt), None);
    assert_eq!(advance(FetchState::Finished, FetchEvent::ResponseArrived { status: 200 }), None);
    assert_eq!(advance(FetchState::Finished, FetchEvent::BodyRead { text: "again".to_string() }), None);
    assert_eq!(advance(FetchState::Finished, FetchEvent::SendFailed { detail: "x".to_string() }), None);
}

#[test]
fn fetch_error_gives_up_its_description() {
    assert_eq!(FetchError::Transport("connection refused".to_string()).into_message(), "connection refused");
    assert_eq!(FetchError::Decode("invalid utf-8".to_string()).into_message(), "invalid utf-8");
}
