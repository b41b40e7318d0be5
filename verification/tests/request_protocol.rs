use x_client::auth::Authenticator;
use x_client::request::execute_step;
use x_client::request::handle_response;
use x_client::request::is_success;
use x_client::request::RequestStep;
use x_client::ApiError;
use x_client::ApiResponse;
use x_client::ApiTweet;
use x_client::Error;
use x_client::ExchangeOutcome;
use x_client::TokenGrant;
use x_client::TweetData;
use x_client::TweetObject;

fn api_error(status: u32) -> ApiError {
    ApiError {
        detail: "detail".to_owned(),
        status,
        title: "title".to_owned(),
        kind: "about:blank".to_owned(),
    }
}

#[test]
fn success_hands_the_body_through() {
    let r = handle_response(200, "{\"data\":{}}".to_owned(), None);
    assert_eq!(r.unwrap(), "{\"data\":{}}");
    assert!(is_success(204));
    assert!(!is_success(300));
    assert!(!is_success(199));
}

#[test]
fn unauthorized_status_maps_to_unauthorized() {
    let r = handle_response(401, "".to_owned(), None);
    assert!(matches!(r, Err(Error::Unauthorized)));
}

#[test]
fn throttled_status_maps_to_rate_limited() {
    let r = handle_response(429, "slow down".to_owned(), None);
    assert!(matches!(r, Err(Error::RateLimited)));
}

#[test]
fn structured_error_body_is_surfaced() {
    let r = handle_response(400, "{}".to_owned(), Some(api_error(400)));
    match r {
        Err(Error::Api(e)) => {
            assert_eq!(e.status, 400);
            assert_eq!(e.title, "title");
            assert_eq!(e.detail, "detail");
            assert_eq!(e.kind, "about:blank");
        }
        other => panic!("expected the structured error, got {other:?}"),
    }
}

#[test]
fn unrecognised_status_is_opaque() {
    let r = handle_response(500, "boom".to_owned(), None);
    match r {
        Err(Error::Opaque { status, body }) => {
            assert_eq!(status, 500);
            assert_eq!(body, "boom");
        }
        other => panic!("expected the opaque error, got {other:?}"),
    }
}

#[test]
fn scenario_single_retry_after_unauthorized() {
    // Downstream call with "b1" comes back 401: the request layer is
    // directed to force-refresh and retry once; the refresh grants "b2";
    // a second 401 settles as Unauthorized with no third attempt.
    let mut m = Authenticator::new(Some("rt".to_owned()));
    m.refresh_and_cache(ExchangeOutcome::Granted(TokenGrant {
        bearer: "b1".to_owned(),
        rotated_refresh: None,
    }))
    .unwrap();
    assert_eq!(m.authenticate(), Some("b1".to_owned()));

    let step0 = execute_step(0, 401, "".to_owned(), None);
    assert!(matches!(step0, RequestStep::Retry));

    let rt = m.force_refresh().unwrap();
    assert_eq!(rt, "rt");
    let g = m
        .refresh_and_cache(ExchangeOutcome::Granted(TokenGrant {
            bearer: "b2".to_owned(),
            rotated_refresh: None,
        }))
        .unwrap();
    assert_eq!(g.bearer, "b2");
    assert_eq!(m.authenticate(), Some("b2".to_owned()));

    let step1 = execute_step(1, 401, "".to_owned(), None);
    match step1 {
        RequestStep::Settled(Err(Error::Unauthorized)) => {}
        other => panic!("expected the settled failure, got {other:?}"),
    }
}

#[test]
fn throttling_is_not_retried() {
    let step = execute_step(0, 429, "".to_owned(), None);
    match step {
        RequestStep::Settled(Err(Error::RateLimited)) => {}
        other => panic!("expected the settled throttle, got {other:?}"),
    }
}

#[test]
fn first_attempt_success_settles() {
    let step = execute_step(0, 201, "made".to_owned(), None);
    match step {
        RequestStep::Settled(Ok(body)) => assert_eq!(body, "made"),
        other => panic!("expected the settled success, got {other:?}"),
    }
}

#[test]
fn tweet_builds_the_payload() {
    let api = x_client::Api::new(Some("rt".to_owned()));
    assert_eq!(api.authenticator.authenticate(), None);
    let req = api.tweet("hello world".to_owned());
    assert_eq!(req.text, "hello world");
}

#[test]
fn response_wrapper_carries_both_shapes() {
    let ok: ApiResponse<TweetObject> = ApiResponse::Success(TweetObject {
        data: TweetData { id: "1".to_owned(), text: "hello".to_owned() },
    });
    match ok {
        ApiResponse::Success(t) => {
            assert_eq!(t.data.id, "1");
            assert_eq!(t.data.text, "hello");
        }
        ApiResponse::Failure(_) => panic!("built as a success"),
    }
    let err: ApiResponse<TweetObject> = ApiResponse::Failure(api_error(403));
    assert!(matches!(err, ApiResponse::Failure(e) if e.status == 403));
}
