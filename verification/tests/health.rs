use azalea_bridge::health::{
    healthcheck_checker, healthcheck_server, route_trimmed, status_answer, Route,
};
use azalea_bridge::text::{ends_with, matches_at, starts_with, trim_end_matches, trim_start_matches};

#[test]
fn an_account_is_unwell_after_fifteen_seconds() {
    assert_eq!(healthcheck_checker(16, Some(200)), Some(404));
    assert_eq!(healthcheck_checker(16, None), Some(404));
    assert_eq!(healthcheck_checker(16, Some(404)), Some(404));
    assert_eq!(healthcheck_checker(u64::MAX, Some(200)), Some(404));
}

#[test]
fn an_account_recovers_with_a_keep_alive() {
    assert_eq!(healthcheck_checker(15, Some(404)), Some(200));
    assert_eq!(healthcheck_checker(0, None), Some(200));
    assert_eq!(healthcheck_checker(15, Some(200)), None);
    assert_eq!(healthcheck_checker(3, Some(500)), None);
}

#[test]
fn requests_are_routed() {
    assert_eq!(healthcheck_server(true, "/health"), Route::Respond(200));
    assert_eq!(healthcheck_server(true, " /health/ "), Route::Respond(200));
    assert_eq!(healthcheck_server(true, "/health///"), Route::Respond(200));
    assert_eq!(healthcheck_server(false, "/health"), Route::Respond(400));
    assert_eq!(healthcheck_server(true, "/healthy"), Route::Respond(400));
    assert_eq!(healthcheck_server(true, "/"), Route::Respond(400));
    assert_eq!(healthcheck_server(true, ""), Route::Respond(400));
    assert_eq!(healthcheck_server(true, "/status"), Route::Respond(400));
    assert_eq!(healthcheck_server(true, "/status/bot"), Route::Status("bot".to_string()));
    assert_eq!(healthcheck_server(true, "\t/status/bot/\n"), Route::Status("bot".to_string()));
    assert_eq!(healthcheck_server(true, "/status//status/bot"), Route::Status("bot".to_string()));
    assert_eq!(healthcheck_server(true, "/status//bot"), Route::Status("/bot".to_string()));
    assert_eq!(healthcheck_server(true, "/status/status/bot"), Route::Status("status/bot".to_string()));
    assert_eq!(healthcheck_server(true, "/status/ bot"), Route::Status(" bot".to_string()));
    assert_eq!(healthcheck_server(false, "/status/bot"), Route::Respond(400));
    assert_eq!(route_trimmed(true, "/status/a/b"), Route::Status("a/b".to_string()));
    assert_eq!(route_trimmed(true, " /health"), Route::Respond(400));
}

#[test]
fn an_unknown_account_is_not_found() {
    assert_eq!(status_answer(Some(200)), 200);
    assert_eq!(status_answer(Some(404)), 404);
    assert_eq!(status_answer(None), 404);
}

#[test]
fn text_is_matched_by_characters() {
    assert!(matches_at("héllo", 1, "él"));
    assert!(!matches_at("héllo", 2, "él"));
    assert!(matches_at("abc", 3, ""));
    assert!(!matches_at("abc", 4, ""));
    assert!(!matches_at("abc", 2, "cd"));
    assert!(starts_with("/status/x", "/status/"));
    assert!(!starts_with("/statu", "/status/"));
    assert!(ends_with("@_mc_.*", ".*"));
    assert!(!ends_with("*", ".*"));
    assert!(ends_with("é😀", "😀"));
}

#[test]
fn text_is_trimmed_of_every_repetition() {
    assert_eq!(trim_start_matches("@@@name", "@"), "name");
    assert_eq!(trim_start_matches("name", "@"), "name");
    assert_eq!(trim_start_matches("ababa", "ab"), "a");
    assert_eq!(trim_start_matches("", "ab"), "");
    assert_eq!(trim_end_matches("x.*.*", ".*"), "x");
    assert_eq!(trim_end_matches("x.*y", ".*"), "x.*y");
    assert_eq!(trim_end_matches("///", "/"), "");
    assert_eq!(trim_end_matches("é/é/", "/"), "é/é");
    assert_eq!(trim_start_matches("abc", ""), "abc");
    assert_eq!(trim_end_matches("abc", ""), "abc");
}
