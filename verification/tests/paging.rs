use launch_pager::card::render;
use launch_pager::error::FetchError;
use launch_pager::launch::LaunchRecord;
use launch_pager::session::{
    accepts, button, button_id, move_index, pressed_direction, Action, Button, Direction, Event,
    Session, IDLE_TIMEOUT_SECS,
};
use launch_pager::Data;

fn launches(names: &[&str]) -> Vec<LaunchRecord> {
    names
        .iter()
        .enumerate()
        .map(|(i, name)| LaunchRecord {
            name: name.to_string(),
            scheduled_at: 1641040200 + i as i64,
            site: format!("Pad {}", i),
            details_path: format!("/launch/{}", i),
        })
        .collect()
}

fn three(invocation_id: u64, now: u64) -> Session {
    Session::open(invocation_id, &launches(&["Alpha", "Bravo", "Charlie"]), now).unwrap().0
}

fn press(session: &mut Session, custom_id: &str, at: u64) -> Action {
    session.handle(Event::Press { custom_id: custom_id.to_string(), at })
}

fn title(action: Action) -> String {
    match action {
        Action::Edit(card) => card.title,
        other => panic!("no edit: {:?}", other),
    }
}

fn page_html(names: &[&str]) -> String {
    let mut html = String::from("<html><body>");
    for (i, name) in names.iter().enumerate() {
        html.push_str(&format!(
            "<div class=\"mdl-card\"><h5 class=\"header-style\">{}</h5>\
             <div class=\"mdl-card__supporting-text\">rocket<br>Sat Jan 01, 2022 12:30 UTC<br>from<br>Pad</div>\
             <a class=\"mdc-button\" href=\"/launch/{}\">Details</a></div>",
            name, i
        ));
    }
    html.push_str("</body></html>");
    html
}

#[test]
fn the_idle_window_is_an_hour() {
    assert_eq!(IDLE_TIMEOUT_SECS, 3600);
}

#[test]
fn the_shared_state_is_empty() {
    let _data = Data {};
    assert_eq!(std::mem::size_of::<Data>(), 0);
}

#[test]
fn button_ids_are_the_invocation_id_and_the_direction() {
    assert_eq!(button_id(42, Direction::Previous), "42previous");
    assert_eq!(button_id(42, Direction::Next), "42next");
    assert_eq!(button_id(0, Direction::Next), "0next");
    assert_eq!(button_id(u64::MAX, Direction::Previous), "18446744073709551615previous");
}

#[test]
fn buttons_carry_their_labels() {
    assert_eq!(
        button(7, Direction::Previous),
        Button { custom_id: "7previous".to_string(), label: "Previous".to_string() }
    );
    assert_eq!(
        button(7, Direction::Next),
        Button { custom_id: "7next".to_string(), label: "Next".to_string() }
    );
}

#[test]
fn the_initial_reply_carries_the_first_card_and_both_buttons() {
    let (session, reply) = Session::start(900, &page_html(&["Alpha", "Bravo", "Charlie"]), 0).unwrap();
    assert_eq!(reply.card.title, "#1 | Alpha");
    assert_eq!(
        reply.buttons,
        vec![
            Button { custom_id: "900previous".to_string(), label: "Previous".to_string() },
            Button { custom_id: "900next".to_string(), label: "Next".to_string() },
        ]
    );
    assert_eq!(session.index(), 0);
    assert_eq!(session.invocation_id(), 900);
    assert!(!session.is_closed());
    assert_eq!(session.cards().len(), 3);
    assert_eq!(session.current_card().title, "#1 | Alpha");
}

#[test]
fn next_walks_forward_and_wraps() {
    let (mut session, _) = Session::start(900, &page_html(&["Alpha", "Bravo", "Charlie"]), 0).unwrap();
    assert_eq!(title(press(&mut session, "900next", 1)), "#2 | Bravo");
    assert_eq!(title(press(&mut session, "900next", 2)), "#3 | Charlie");
    assert_eq!(title(press(&mut session, "900next", 3)), "#1 | Alpha");
    assert_eq!(session.index(), 0);
}

#[test]
fn previous_wraps_from_the_first_card_to_the_last() {
    let (mut session, _) = Session::start(900, &page_html(&["Alpha", "Bravo", "Charlie"]), 0).unwrap();
    assert_eq!(title(press(&mut session, "900previous", 1)), "#3 | Charlie");
    assert_eq!(session.index(), 2);
    assert_eq!(title(press(&mut session, "900previous", 2)), "#2 | Bravo");
}

#[test]
fn a_dropped_card_leaves_two_numbered_in_order() {
    let mut html = page_html(&["Alpha"]);
    html.push_str(
        "<div class=\"mdl-card\"><h5 class=\"header-style\">Broken</h5>\
         <div class=\"mdl-card__supporting-text\">Sat Jan 01, 2022 12:30 UTC<br>from<br>Pad</div>\
         <a class=\"mdc-button\" href=\"/launch/9\">Details</a></div>",
    );
    html.push_str(&page_html(&["Charlie"]));
    let (session, reply) = Session::start(5, &html, 0).unwrap();
    let titles: Vec<&str> = session.cards().iter().map(|card| card.title.as_str()).collect();
    assert_eq!(titles, vec!["#1 | Alpha", "#2 | Charlie"]);
    assert_eq!(reply.card.title, "#1 | Alpha");
}

#[test]
fn no_valid_record_is_a_no_launches_error_and_no_session() {
    assert_eq!(Session::start(5, "<html><body></body></html>", 0).unwrap_err(), FetchError::NoLaunches);
    let only_broken = "<div class=\"mdl-card\"><h5 class=\"header-style\">Broken</h5></div>";
    assert_eq!(Session::start(5, only_broken, 0).unwrap_err(), FetchError::NoLaunches);
    assert_eq!(Session::open(5, &Vec::new(), 0).unwrap_err(), FetchError::NoLaunches);
    assert_eq!(FetchError::NoLaunches.message(), "No launches were found.");
}

#[test]
fn the_session_ends_silently_after_an_idle_hour() {
    let mut session = three(900, 1000);
    assert!(!session.expired(1000));
    assert!(!session.expired(4599));
    assert!(session.expired(4600));
    assert_eq!(session.handle(Event::Idle { at: 4600 }), Action::Close);
    assert!(session.is_closed());
    assert_eq!(press(&mut session, "900next", 4601), Action::Ignore);
    assert_eq!(press(&mut session, "900previous", 4602), Action::Ignore);
    assert_eq!(session.handle(Event::Idle { at: 9000 }), Action::Ignore);
    assert_eq!(session.index(), 0);
    assert!(session.is_closed());
}

#[test]
fn a_wait_that_ends_early_changes_nothing() {
    let mut session = three(900, 1000);
    assert_eq!(session.handle(Event::Idle { at: 4599 }), Action::Ignore);
    assert!(!session.is_closed());
    assert_eq!(title(press(&mut session, "900next", 4599)), "#2 | Bravo");
}

#[test]
fn a_press_at_the_deadline_closes_the_session() {
    let mut session = three(900, 0);
    assert_eq!(press(&mut session, "900next", 3600), Action::Close);
    assert!(session.is_closed());
    assert_eq!(session.index(), 0);
}

#[test]
fn each_press_starts_the_idle_window_anew() {
    let mut session = three(900, 0);
    assert_eq!(title(press(&mut session, "900next", 3599)), "#2 | Bravo");
    assert!(!session.expired(7198));
    assert!(session.expired(7199));
    assert_eq!(title(press(&mut session, "900next", 7198)), "#3 | Charlie");
    assert_eq!(session.handle(Event::Idle { at: 7199 }), Action::Ignore);
    assert_eq!(session.handle(Event::Idle { at: 10798 }), Action::Close);
}

#[test]
fn the_deadline_does_not_overflow_at_the_end_of_time() {
    let mut session = three(900, u64::MAX - 10);
    assert!(!session.expired(u64::MAX));
    assert!(!session.expired(0));
    assert_eq!(title(press(&mut session, "900next", u64::MAX)), "#2 | Bravo");
    assert_eq!(session.handle(Event::Idle { at: u64::MAX }), Action::Ignore);
}

#[test]
fn an_unrecognized_id_within_the_prefix_sends_the_card_on_show_again() {
    let mut session = three(900, 0);
    assert_eq!(title(press(&mut session, "900next", 1)), "#2 | Bravo");
    assert_eq!(title(press(&mut session, "900refresh", 2)), "#2 | Bravo");
    assert_eq!(title(press(&mut session, "900", 3)), "#2 | Bravo");
    assert_eq!(title(press(&mut session, "900nextnext", 4)), "#2 | Bravo");
    assert_eq!(title(press(&mut session, "900Next", 5)), "#2 | Bravo");
    assert_eq!(session.index(), 1);
    assert!(!session.expired(3604));
    assert!(session.expired(3605));
}

#[test]
fn a_press_outside_the_prefix_is_not_seen() {
    let mut session = three(900, 0);
    assert_eq!(press(&mut session, "901next", 1), Action::Ignore);
    assert_eq!(press(&mut session, "next", 1), Action::Ignore);
    assert_eq!(press(&mut session, "", 1), Action::Ignore);
    assert_eq!(press(&mut session, "90", 1), Action::Ignore);
    assert_eq!(press(&mut session, "901next", 5000), Action::Ignore);
    assert_eq!(session.index(), 0);
    assert!(!session.is_closed());
    assert!(session.expired(3600));
    assert!(!session.expired(3599));
}

#[test]
fn two_sessions_do_not_see_each_others_presses() {
    let mut first = three(4711, 0);
    let mut second = three(4712, 0);
    assert!(first.observes("4711next"));
    assert!(!first.observes("4712next"));
    assert!(second.observes("4712previous"));
    assert!(!second.observes("4711previous"));
    assert_eq!(title(press(&mut first, "4711next", 1)), "#2 | Bravo");
    assert_eq!(press(&mut second, "4711next", 1), Action::Ignore);
    assert_eq!(press(&mut first, "4712previous", 2), Action::Ignore);
    assert_eq!(title(press(&mut second, "4712previous", 2)), "#3 | Charlie");
    assert_eq!(first.index(), 1);
    assert_eq!(second.index(), 2);
}

#[test]
fn an_id_that_begins_with_another_is_seen_but_does_not_steer() {
    let mut short = three(1, 0);
    assert!(accepts(1, "12next"));
    assert!(!accepts(12, "1next"));
    assert_eq!(title(press(&mut short, "1next", 1)), "#2 | Bravo");
    assert_eq!(title(press(&mut short, "12next", 2)), "#2 | Bravo");
    assert_eq!(title(press(&mut short, "12previous", 3)), "#2 | Bravo");
    assert_eq!(short.index(), 1);
}

#[test]
fn accepts_is_a_prefix_test_on_the_decimal_id() {
    assert!(accepts(900, "900next"));
    assert!(accepts(900, "900"));
    assert!(accepts(900, "9001"));
    assert!(!accepts(900, "90"));
    assert!(!accepts(900, "0900next"));
    assert!(!accepts(900, " 900next"));
    assert!(accepts(0, "0previous"));
}

#[test]
fn pressed_direction_names_the_button() {
    assert_eq!(pressed_direction(900, &"900next".to_string()), Some(Direction::Next));
    assert_eq!(pressed_direction(900, &"900previous".to_string()), Some(Direction::Previous));
    assert_eq!(pressed_direction(900, &"900".to_string()), None);
    assert_eq!(pressed_direction(900, &"901next".to_string()), None);
    assert_eq!(pressed_direction(900, &"900next ".to_string()), None);
}

#[test]
fn move_index_goes_round_the_ring() {
    assert_eq!(move_index(0, 3, Some(Direction::Next)), 1);
    assert_eq!(move_index(2, 3, Some(Direction::Next)), 0);
    assert_eq!(move_index(0, 3, Some(Direction::Previous)), 2);
    assert_eq!(move_index(1, 3, Some(Direction::Previous)), 0);
    assert_eq!(move_index(1, 3, None), 1);
    assert_eq!(move_index(0, 1, Some(Direction::Next)), 0);
    assert_eq!(move_index(0, 1, Some(Direction::Previous)), 0);
    assert_eq!(move_index(usize::MAX - 1, usize::MAX, Some(Direction::Next)), 0);
}

#[test]
fn k_next_presses_end_at_k_mod_n() {
    for n in 1usize..6 {
        let names: Vec<String> = (0..n).map(|i| format!("L{}", i)).collect();
        let names: Vec<&str> = names.iter().map(|name| name.as_str()).collect();
        let mut session = Session::open(3, &launches(&names), 0).unwrap().0;
        for k in 1usize..14 {
            press(&mut session, "3next", k as u64);
            assert_eq!(session.index(), k % n);
        }
    }
}

#[test]
fn k_previous_presses_end_at_minus_k_mod_n() {
    for n in 1i64..6 {
        let names: Vec<String> = (0..n).map(|i| format!("L{}", i)).collect();
        let names: Vec<&str> = names.iter().map(|name| name.as_str()).collect();
        let mut session = Session::open(3, &launches(&names), 0).unwrap().0;
        for k in 1i64..14 {
            press(&mut session, "3previous", k as u64);
            assert_eq!(session.index() as i64, (-k).rem_euclid(n));
        }
    }
}

#[test]
fn mixed_presses_end_at_the_difference_mod_n() {
    let n = 5i64;
    let mut session = Session::open(8, &launches(&["a", "b", "c", "d", "e"]), 0).unwrap().0;
    let pattern = [true, true, false, true, false, false, false, false, true, false, false, true, true];
    let (mut a, mut b) = (0i64, 0i64);
    for (i, forward) in pattern.iter().enumerate() {
        if *forward {
            a += 1;
            press(&mut session, "8next", i as u64);
        } else {
            b += 1;
            press(&mut session, "8previous", i as u64);
        }
        assert_eq!(session.index() as i64, (a - b).rem_euclid(n));
    }
}

#[test]
fn the_edit_is_the_card_at_the_new_index() {
    let records = launches(&["Alpha", "Bravo", "Charlie"]);
    let mut session = Session::open(900, &records, 0).unwrap().0;
    assert_eq!(press(&mut session, "900next", 1), Action::Edit(render(&records[1], 2)));
    assert_eq!(press(&mut session, "900previous", 2), Action::Edit(render(&records[0], 1)));
    assert_eq!(press(&mut session, "900previous", 3), Action::Edit(render(&records[2], 3)));
    assert_eq!(*session.current_card(), render(&records[2], 3));
}

#[test]
fn a_single_card_stays_on_show() {
    let mut session = Session::open(900, &launches(&["Solo"]), 0).unwrap().0;
    assert_eq!(title(press(&mut session, "900next", 1)), "#1 | Solo");
    assert_eq!(title(press(&mut session, "900previous", 2)), "#1 | Solo");
    assert_eq!(session.index(), 0);
}
