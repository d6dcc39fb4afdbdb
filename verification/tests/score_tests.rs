use hoops::score::{detect_point, CollisionEvent, Hoop};

const TOP: u64 = 100;
const BOTTOM: u64 = 101;
const B1: u64 = 7;
const B2: u64 = 8;

fn hoop() -> Hoop {
    Hoop { top_sensor_id: TOP, bottom_sensor_id: BOTTOM }
}

#[test]
fn top_then_bottom_on_the_same_body_scores_once() {
    let hoop = hoop();
    let mut tracker: Option<u64> = None;
    let scored = detect_point(&hoop, &vec![CollisionEvent::Started(TOP, B1)], &mut tracker);
    assert!(!scored);
    assert_eq!(tracker, Some(B1));
    let scored = detect_point(&hoop, &vec![CollisionEvent::Started(B1, BOTTOM)], &mut tracker);
    assert!(scored);
    assert_eq!(tracker, None);
}

#[test]
fn bottom_contact_by_another_body_does_not_score() {
    let hoop = hoop();
    let mut tracker: Option<u64> = None;
    detect_point(&hoop, &vec![CollisionEvent::Started(TOP, B1)], &mut tracker);
    let scored = detect_point(&hoop, &vec![CollisionEvent::Started(BOTTOM, B2)], &mut tracker);
    assert!(!scored);
    assert_eq!(tracker, Some(B1));
}

#[test]
fn bottom_contact_without_a_prior_top_contact_does_not_score() {
    let hoop = hoop();
    let mut tracker: Option<u64> = None;
    let scored = detect_point(&hoop, &vec![CollisionEvent::Started(BOTTOM, B1)], &mut tracker);
    assert!(!scored);
    assert_eq!(tracker, None);
}

#[test]
fn a_duplicate_top_contact_still_scores_once_and_clears_the_tracker() {
    let hoop = hoop();
    let mut tracker: Option<u64> = None;
    detect_point(
        &hoop,
        &vec![CollisionEvent::Started(TOP, B1), CollisionEvent::Started(TOP, B1)],
        &mut tracker,
    );
    assert_eq!(tracker, Some(B1));
    let scored = detect_point(&hoop, &vec![CollisionEvent::Started(BOTTOM, B1)], &mut tracker);
    assert!(scored);
    assert_eq!(tracker, None);
    // with the tracker cleared, a second bottom contact scores nothing
    let scored = detect_point(&hoop, &vec![CollisionEvent::Started(BOTTOM, B1)], &mut tracker);
    assert!(!scored);
}

#[test]
fn the_latest_top_contact_of_a_step_wins() {
    let hoop = hoop();
    let mut tracker: Option<u64> = None;
    detect_point(
        &hoop,
        &vec![CollisionEvent::Started(TOP, B1), CollisionEvent::Started(TOP, B2)],
        &mut tracker,
    );
    assert_eq!(tracker, Some(B2));
    let scored = detect_point(&hoop, &vec![CollisionEvent::Started(BOTTOM, B2)], &mut tracker);
    assert!(scored);
}

#[test]
fn top_and_bottom_in_the_same_step_do_not_score() {
    // the bottom contact is checked against the tracker as it stood before
    // this step's top contact was recorded
    let hoop = hoop();
    let mut tracker: Option<u64> = None;
    let scored = detect_point(
        &hoop,
        &vec![CollisionEvent::Started(TOP, B1), CollisionEvent::Started(BOTTOM, B1)],
        &mut tracker,
    );
    assert!(!scored);
    assert_eq!(tracker, Some(B1));
    // the recorded entry still confirms on the next step
    let scored = detect_point(&hoop, &vec![CollisionEvent::Started(BOTTOM, B1)], &mut tracker);
    assert!(scored);
}

#[test]
fn contact_end_events_are_ignored() {
    let hoop = hoop();
    let mut tracker: Option<u64> = None;
    let scored = detect_point(&hoop, &vec![CollisionEvent::Stopped(TOP, B1)], &mut tracker);
    assert!(!scored);
    assert_eq!(tracker, None);
    detect_point(&hoop, &vec![CollisionEvent::Started(TOP, B1)], &mut tracker);
    let scored = detect_point(&hoop, &vec![CollisionEvent::Stopped(B1, BOTTOM)], &mut tracker);
    assert!(!scored);
    assert_eq!(tracker, Some(B1));
}

#[test]
fn an_empty_batch_changes_nothing() {
    let hoop = hoop();
    let mut tracker: Option<u64> = Some(B1);
    let scored = detect_point(&hoop, &Vec::new(), &mut tracker);
    assert!(!scored);
    assert_eq!(tracker, Some(B1));
}
