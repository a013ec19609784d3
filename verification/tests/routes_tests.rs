use outlet_control::outlet::OutletError;
use outlet_control::registry::Registry;
use outlet_control::routes::{handle_request, handle_switch, outcome_reply, route_of, Reply, Route};

fn board() -> Registry {
    Registry::from_states(&vec![4u8, 22, 6, 26], &vec![false, true, false, false])
}

fn body_of(reply: &Reply) -> String {
    reply.body_text().expect("reply should carry a text body")
}

#[test]
fn routing_matches_the_four_paths() {
    assert_eq!(route_of("GET", "/"), Route::Root);
    assert_eq!(route_of("GET", "/status"), Route::Status);
    assert_eq!(route_of("GET", "/on"), Route::SwitchOn);
    assert_eq!(route_of("GET", "/off"), Route::SwitchOff);
}

#[test]
fn any_other_path_is_not_found() {
    assert_eq!(route_of("GET", "/restart"), Route::Unknown);
    assert_eq!(route_of("GET", "/status/"), Route::Unknown);
    assert_eq!(route_of("GET", ""), Route::Unknown);
    assert_eq!(route_of("GET", "/ON"), Route::Unknown);
}

#[test]
fn only_get_is_served() {
    assert_eq!(route_of("POST", "/status"), Route::Unknown);
    assert_eq!(route_of("PUT", "/on"), Route::Unknown);
    assert_eq!(route_of("DELETE", "/"), Route::Unknown);
}

#[test]
fn reply_status_codes_match_the_wire_contract() {
    assert_eq!(Reply::RedirectToStatus.status_code(), 302);
    assert_eq!(Reply::OutletList(Vec::new()).status_code(), 200);
    assert_eq!(Reply::Success.status_code(), 200);
    assert_eq!(Reply::InvalidId.status_code(), 200);
    assert_eq!(Reply::HardwareError.status_code(), 200);
    assert_eq!(Reply::NotFound.status_code(), 404);
}

#[test]
fn reply_bodies_match_the_wire_contract() {
    assert_eq!(body_of(&Reply::Success), "Success!");
    assert_eq!(body_of(&Reply::InvalidId), "Invalid id!");
    assert_eq!(body_of(&Reply::HardwareError), "Error!");
    assert!(Reply::NotFound.body_text().is_none());
    assert!(Reply::RedirectToStatus.body_text().is_none());
    assert_eq!(
        Reply::RedirectToStatus.redirect_target().as_deref(),
        Some("/status")
    );
}

#[test]
fn root_redirects_to_status() {
    let mut reg = board();
    let reply = handle_request(&mut reg, "GET", "/", None);
    assert!(matches!(reply, Reply::RedirectToStatus));
}

#[test]
fn status_lists_exactly_the_registered_outlets() {
    let mut reg = board();
    let expected = reg.list();
    let reply = handle_request(&mut reg, "GET", "/status", None);
    match reply {
        Reply::OutletList(outlets) => {
            assert_eq!(outlets, expected);
            let ids: Vec<usize> = outlets.iter().map(|o| o.id).collect();
            assert_eq!(ids, vec![0, 1, 2, 3]);
            let pins: Vec<u8> = outlets.iter().map(|o| o.pin).collect();
            assert_eq!(pins, vec![4u8, 22, 6, 26]);
        }
        other => panic!("expected the outlet list, got {:?}", other),
    }
}

#[test]
fn unknown_paths_get_404() {
    let mut reg = board();
    let before = reg.list();
    let reply = handle_request(&mut reg, "GET", "/reboot", None);
    assert!(matches!(reply, Reply::NotFound));
    assert_eq!(reg.list(), before);
}

#[test]
fn switch_without_id_is_invalid_and_changes_nothing() {
    let mut reg = board();
    let before = reg.list();
    let on = handle_request(&mut reg, "GET", "/on", None);
    assert_eq!(body_of(&on), "Invalid id!");
    assert_eq!(reg.list(), before);
    let off = handle_request(&mut reg, "GET", "/off", None);
    assert_eq!(body_of(&off), "Invalid id!");
    assert_eq!(reg.list(), before);
}

#[test]
fn switch_with_malformed_id_is_invalid_and_changes_nothing() {
    let mut reg = board();
    let before = reg.list();
    for bad in ["", "x", "1x", "-1", "99999999999999999999999999"] {
        let reply = handle_request(&mut reg, "GET", "/on", Some(bad));
        assert_eq!(body_of(&reply), "Invalid id!");
        assert_eq!(reg.list(), before);
    }
}

#[test]
fn switch_with_unregistered_id_is_invalid_and_changes_nothing() {
    let mut reg = board();
    let before = reg.list();
    let reply = handle_request(&mut reg, "GET", "/on", Some("999"));
    assert_eq!(body_of(&reply), "Invalid id!");
    assert_eq!(reg.list(), before);
    let reply = handle_request(&mut reg, "GET", "/off", Some("4"));
    assert_eq!(body_of(&reply), "Invalid id!");
    assert_eq!(reg.list(), before);
}

#[test]
fn switch_with_registered_id_succeeds_or_fails_atomically() {
    // The physical write goes through the real GPIO driver, so either outcome
    // may happen depending on the machine; the cache must match it exactly.
    let mut reg = board();
    let before = reg.list();
    let reply = handle_switch(&mut reg, Some("0"), true);
    let after = reg.list();
    match body_of(&reply).as_str() {
        "Success!" => {
            assert!(after[0].active);
            assert_eq!(&after[1..], &before[1..]);
        }
        "Error!" => assert_eq!(after, before),
        other => panic!("unexpected reply body {:?}", other),
    }
}

#[test]
fn outcome_reply_words_each_outcome() {
    assert!(matches!(outcome_reply(&Ok(())), Reply::Success));
    assert!(matches!(
        outcome_reply(&Err(OutletError::MissingParameter)),
        Reply::InvalidId
    ));
    assert!(matches!(
        outcome_reply(&Err(OutletError::MalformedParameter)),
        Reply::InvalidId
    ));
    assert!(matches!(
        outcome_reply(&Err(OutletError::UnknownOutlet)),
        Reply::InvalidId
    ));
    assert!(matches!(
        outcome_reply(&Err(OutletError::HardwareWriteFailed("x".to_string()))),
        Reply::HardwareError
    ));
}
