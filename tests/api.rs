use distributed_timer::api::{
    create_timer, create_token, creation_response, delete_timer, get_timer, grant_token,
    is_valid_timer_id,
    update_timer, ApiError,
};
use distributed_timer::auth::{authorize, create_jwt, subject_matches_path};
use distributed_timer::models::{TimerCreationRequest, TimerUpdateRequest, TokenRequest};
use distributed_timer::timer::{DisplayOptions, PreStartBehaviour, Segment, Sound, TimerMetadata};

const KEY: &str = "secret-key";

fn segment(time: u32, count_to: u32, sounds: Vec<Sound>) -> Segment {
    Segment { label: "S".to_string(), time, color: None, count_to, sounds }
}

fn request(id: &str, segments: Vec<Segment>) -> TimerCreationRequest {
    TimerCreationRequest {
        segments,
        id: id.to_string(),
        password: "pw".to_string(),
        repeat: false,
        start_at: 1,
        metadata: TimerMetadata { delay_start_stop: 0 },
        display_options: DisplayOptions {
            clock: false,
            pre_start_behaviour: PreStartBehaviour::ShowFirstSegment,
        },
    }
}

#[test]
fn create_then_get_round_trip() {
    let timer = create_timer(request("abc_1", vec![segment(1000, 0, vec![])])).unwrap();
    assert_eq!(timer.id, "abc_1");
    assert_eq!(timer.stop_at, None);
    assert_ne!(timer.password, "pw");
    let created = creation_response(timer.clone(), KEY);
    assert_eq!(created.timer.id, "abc_1");
    assert!(!created.token.is_empty());
    let got = get_timer(Some(timer)).unwrap();
    assert_eq!(got.id, "abc_1");
    assert_eq!(got.segments.len(), 1);
    assert_eq!(got.segments[0].time, 1000);
    assert!(authorize("/abc_1", &created.token, KEY));
}

#[test]
fn create_rejects_bad_id() {
    let r = create_timer(request("a b", vec![segment(1000, 0, vec![])]));
    assert_eq!(r.unwrap_err(), ApiError::BadRequest);
    assert_eq!(ApiError::BadRequest.status(), 400);
}

#[test]
fn id_pattern() {
    assert!(is_valid_timer_id("abc_1"));
    assert!(is_valid_timer_id("A-z_09"));
    assert!(!is_valid_timer_id(""));
    assert!(!is_valid_timer_id("a b"));
    assert!(!is_valid_timer_id("a/b"));
    assert!(!is_valid_timer_id("abc\n"));
    assert!(!is_valid_timer_id("ä"));
}

#[test]
fn create_rejects_sound_before_segment() {
    let sounds = vec![Sound { filename: "x".to_string(), trigger_time: 50 }];
    let r = create_timer(request("abc_1", vec![segment(1000, 100, sounds)]));
    assert_eq!(r.unwrap_err(), ApiError::BadRequest);
}

#[test]
fn create_sound_bounds_are_inclusive() {
    let at = |t: u32| vec![Sound { filename: "x".to_string(), trigger_time: t }];
    assert!(create_timer(request("a", vec![segment(1000, 100, at(100))])).is_ok());
    assert!(create_timer(request("a", vec![segment(1000, 100, at(1100))])).is_ok());
    assert!(create_timer(request("a", vec![segment(1000, 100, at(1101))])).is_err());
    assert!(create_timer(request("a", vec![segment(u32::MAX, u32::MAX, at(u32::MAX))])).is_ok());
}

#[test]
fn token_subject_must_match_path() {
    let token = create_jwt("other".to_string(), KEY);
    assert!(!authorize("/abc_1", &token, KEY));
    assert!(authorize("/other", &token, KEY));
}

#[test]
fn token_with_wrong_key_is_refused() {
    let token = create_jwt("abc_1".to_string(), "another-key");
    assert!(!authorize("/abc_1", &token, KEY));
    assert!(!authorize("/abc_1", "not-a-token", KEY));
}

#[test]
fn subject_path_comparison() {
    assert!(subject_matches_path("/abc", Some("abc".to_string())));
    assert!(!subject_matches_path("abc", Some("abc".to_string())));
    assert!(!subject_matches_path("/abc/", Some("abc".to_string())));
    assert!(!subject_matches_path("/abc", None));
}

#[test]
fn token_for_password() {
    let timer = create_timer(request("abc_1", vec![])).unwrap();
    let ok = create_token(
        TokenRequest { id: "abc_1".to_string(), password: "pw".to_string() },
        Some(timer.clone()),
        KEY,
    )
    .unwrap();
    assert!(authorize("/abc_1", &ok.token, KEY));
    let wrong = create_token(
        TokenRequest { id: "abc_1".to_string(), password: "nope".to_string() },
        Some(timer),
        KEY,
    );
    assert_eq!(wrong.unwrap_err(), ApiError::Unauthorized);
    let unknown = create_token(
        TokenRequest { id: "abc_1".to_string(), password: "pw".to_string() },
        None,
        KEY,
    );
    assert_eq!(unknown.unwrap_err(), ApiError::Unauthorized);
}

#[test]
fn get_unknown_is_unauthorized() {
    assert_eq!(get_timer(None).unwrap_err(), ApiError::Unauthorized);
    assert_eq!(ApiError::Unauthorized.status(), 401);
}

#[test]
fn update_keeps_password_and_id() {
    let timer = create_timer(request("abc_1", vec![])).unwrap();
    let hash = timer.password.clone();
    let update = TimerUpdateRequest {
        segments: vec![segment(5, 0, vec![])],
        repeat: true,
        display_options: DisplayOptions { clock: true, pre_start_behaviour: PreStartBehaviour::RunNormally },
        metadata: TimerMetadata { delay_start_stop: 9 },
        start_at: 42,
        stop_at: Some(50),
    };
    let updated = update_timer(update, Some(timer)).unwrap();
    assert_eq!(updated.password, hash);
    assert_eq!(updated.id, "abc_1");
    assert_eq!(updated.start_at, 42);
    assert_eq!(updated.stop_at, Some(50));
    assert!(updated.repeat);
    assert_eq!(updated.metadata.delay_start_stop, 9);
    assert_eq!(updated.segments.len(), 1);
}

#[test]
fn update_of_unknown_is_unauthorized() {
    let update = TimerUpdateRequest {
        segments: vec![],
        repeat: false,
        display_options: DisplayOptions::default(),
        metadata: TimerMetadata::default(),
        start_at: 0,
        stop_at: None,
    };
    assert_eq!(update_timer(update, None).unwrap_err(), ApiError::Unauthorized);
}

#[test]
fn delete_outcomes() {
    assert_eq!(delete_timer(true), Ok(()));
    assert_eq!(delete_timer(false), Err(ApiError::NotFound));
    assert_eq!(ApiError::NotFound.status(), 404);
    assert_eq!(ApiError::Conflict.status(), 409);
}

#[test]
fn grant_token_follows_password_check() {
    let granted = grant_token("abc_1".to_string(), true, KEY).unwrap();
    assert_eq!(granted.token, create_jwt("abc_1".to_string(), KEY));
    assert!(authorize("/abc_1", &granted.token, KEY));
    assert_eq!(grant_token("abc_1".to_string(), false, KEY).unwrap_err(), ApiError::Unauthorized);
}
