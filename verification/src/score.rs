//! Dual-sensor score detector: two trigger volumes sit just above and just
//! below the rim plane, and a basket counts only when the same physics body
//! contacts the top sensor first and the bottom sensor afterwards. That
//! rejects bounces that enter and leave through the bottom, and bodies that
//! only ever touch one sensor.

use vstd::prelude::*;

verus! {

/// The hoop as the detector sees it: the identifiers of its two sensor
/// volumes, the top one placed above the bottom one along the direction of
/// a successful pass-through.
pub struct Hoop {
    pub top_sensor_id: u64,
    pub bottom_sensor_id: u64,
}

/// One physics contact notification between the two named bodies. Only
/// `Started` events matter to the detector; `Stopped` events are ignored.
#[derive(Clone, Copy)]
pub enum CollisionEvent {
    Started(u64, u64),
    Stopped(u64, u64),
}

/// Whether the event is a contact-begin against the given sensor.
pub open spec fn touches_sensor(e: CollisionEvent, sensor: u64) -> bool {
    e matches CollisionEvent::Started(a, b) && (a == sensor || b == sensor)
}

/// The body on the other side of a contact-begin against the given sensor.
pub open spec fn contacting_body(e: CollisionEvent, sensor: u64) -> u64 {
    match e {
        CollisionEvent::Started(a, b) => if a == sensor {
            b
        } else {
            a
        },
        CollisionEvent::Stopped(a, b) => if a == sensor {
            b
        } else {
            a
        },
    }
}

/// Whether the event is a top-sensor contact. An event that touches both
/// sensors counts as a top contact only.
pub open spec fn is_top_contact(e: CollisionEvent, hoop: Hoop) -> bool {
    touches_sensor(e, hoop.top_sensor_id)
}

/// Whether the event is a bottom-sensor contact.
pub open spec fn is_bottom_contact(e: CollisionEvent, hoop: Hoop) -> bool {
    !touches_sensor(e, hoop.top_sensor_id) && touches_sensor(e, hoop.bottom_sensor_id)
}

/// The body of the latest top-sensor contact of the batch, if any: within
/// one step the most recent top contact wins.
pub open spec fn latest_top_contact(events: Seq<CollisionEvent>, hoop: Hoop) -> Option<u64>
    decreases events.len(),
{
    if events.len() == 0 {
        None
    } else if is_top_contact(events.last(), hoop) {
        Some(contacting_body(events.last(), hoop.top_sensor_id))
    } else {
        latest_top_contact(events.drop_last(), hoop)
    }
}

/// The body of the latest bottom-sensor contact of the batch, if any.
pub open spec fn latest_bottom_contact(events: Seq<CollisionEvent>, hoop: Hoop) -> Option<u64>
    decreases events.len(),
{
    if events.len() == 0 {
        None
    } else if is_bottom_contact(events.last(), hoop) {
        Some(contacting_body(events.last(), hoop.bottom_sensor_id))
    } else {
        latest_bottom_contact(events.drop_last(), hoop)
    }
}

/// Whether this step's batch confirms a basket: it holds a bottom-sensor
/// contact whose body is exactly the one the tracker recorded at the top
/// sensor on an earlier step.
pub open spec fn basket_confirmed(
    events: Seq<CollisionEvent>,
    hoop: Hoop,
    tracker: Option<u64>,
) -> bool {
    latest_bottom_contact(events, hoop) is Some && latest_bottom_contact(events, hoop) == tracker
}

/// The tracker value after the batch: cleared on a confirmed basket,
/// superseded by this step's latest top contact otherwise, and kept as it
/// was when the batch has neither.
pub open spec fn next_tracker(
    events: Seq<CollisionEvent>,
    hoop: Hoop,
    tracker: Option<u64>,
) -> Option<u64> {
    if basket_confirmed(events, hoop, tracker) {
        None
    } else if latest_top_contact(events, hoop) is Some {
        latest_top_contact(events, hoop)
    } else {
        tracker
    }
}

/// A clean pass-through scores exactly once, whatever the ball and whatever
/// the tracker held before: a step with a top-sensor contact alone scores
/// nothing and records the ball, the next step's bottom-sensor contact by
/// the same ball confirms the basket and clears the tracker, and with the
/// tracker cleared a further bottom contact scores nothing.
pub proof fn lemma_pass_through_scores(hoop: Hoop, body: u64, tracker0: Option<u64>)
    requires
        hoop.top_sensor_id != hoop.bottom_sensor_id,
        body != hoop.top_sensor_id,
    ensures
        !basket_confirmed(
            seq![CollisionEvent::Started(hoop.top_sensor_id, body)],
            hoop,
            tracker0,
        ),
        next_tracker(seq![CollisionEvent::Started(hoop.top_sensor_id, body)], hoop, tracker0)
            == Some(body),
        basket_confirmed(
            seq![CollisionEvent::Started(hoop.bottom_sensor_id, body)],
            hoop,
            Some(body),
        ),
        next_tracker(
            seq![CollisionEvent::Started(hoop.bottom_sensor_id, body)],
            hoop,
            Some(body),
        ) is None,
        !basket_confirmed(
            seq![CollisionEvent::Started(hoop.bottom_sensor_id, body)],
            hoop,
            None::<u64>,
        ),
{
    reveal_with_fuel(latest_top_contact, 2);
    reveal_with_fuel(latest_bottom_contact, 2);
    assert(seq![CollisionEvent::Started(hoop.top_sensor_id, body)].drop_last()
        =~= Seq::<CollisionEvent>::empty());
    assert(seq![CollisionEvent::Started(hoop.bottom_sensor_id, body)].drop_last()
        =~= Seq::<CollisionEvent>::empty());
}

/// A bottom-sensor contact by any other body than the recorded one scores
/// nothing and leaves the tracker as it was.
pub proof fn lemma_wrong_body_does_not_score(hoop: Hoop, recorded: u64, other: u64)
    requires
        hoop.top_sensor_id != hoop.bottom_sensor_id,
        other != recorded,
        other != hoop.top_sensor_id,
        other != hoop.bottom_sensor_id,
    ensures
        !basket_confirmed(
            seq![CollisionEvent::Started(hoop.bottom_sensor_id, other)],
            hoop,
            Some(recorded),
        ),
        next_tracker(
            seq![CollisionEvent::Started(hoop.bottom_sensor_id, other)],
            hoop,
            Some(recorded),
        ) == Some(recorded),
{
    reveal_with_fuel(latest_top_contact, 2);
    reveal_with_fuel(latest_bottom_contact, 2);
    assert(seq![CollisionEvent::Started(hoop.bottom_sensor_id, other)].drop_last()
        =~= Seq::<CollisionEvent>::empty());
}

/// Consumes one step's batch of physics contact events. The latest top
/// contact of the batch is recorded in the tracker; a bottom contact
/// confirms a basket only against the tracker value as it stood before
/// this step, so one ball cannot register a fresh top entry and a
/// confirmed bottom exit in the same step. On a confirmed basket the
/// tracker is cleared and `true` is returned.
pub fn detect_point(hoop: &Hoop, events: &Vec<CollisionEvent>, last_top_contact: &mut Option<u64>)
    -> (scored: bool)
    ensures
        scored == basket_confirmed(events@, *hoop, *old(last_top_contact)),
        *final(last_top_contact) == next_tracker(events@, *hoop, *old(last_top_contact)),
{
    let mut top_contact: Option<u64> = None;
    let mut bottom_contact: Option<u64> = None;

    let n = events.len();
    let mut i: usize = 0;
    while i < n
        invariant
            n == events@.len(),
            0 <= i <= n,
            top_contact == latest_top_contact(events@.subrange(0, i as int), *hoop),
            bottom_contact == latest_bottom_contact(events@.subrange(0, i as int), *hoop),
        decreases n - i,
    {
        match events[i] {
            CollisionEvent::Started(a, b) => {
                if a == hoop.top_sensor_id || b == hoop.top_sensor_id {
                    top_contact = Some(if a == hoop.top_sensor_id { b } else { a });
                } else if a == hoop.bottom_sensor_id || b == hoop.bottom_sensor_id {
                    bottom_contact = Some(if a == hoop.bottom_sensor_id { b } else { a });
                }
            },
            CollisionEvent::Stopped(_, _) => {},
        }
        proof {
            let sub1 = events@.subrange(0, i + 1);
            assert(sub1.drop_last() =~= events@.subrange(0, i as int));
            assert(sub1.last() == events@[i as int]);
        }
        i = i + 1;
    }
    proof {
        assert(events@.subrange(0, n as int) =~= events@);
    }

    let pre = *last_top_contact;
    if let Some(t) = top_contact {
        *last_top_contact = Some(t);
    }
    let mut scored = false;
    if let Some(b) = bottom_contact {
        let confirmed = match pre {
            Some(p) => p == b,
            None => false,
        };
        if confirmed {
            scored = true;
            *last_top_contact = None;
        }
    }
    scored
}

} // verus!
