use vstd::prelude::*;

verus! {

/// A contact reported by the physics engine between two entities, with the
/// engine's flag bits.
#[derive(Clone, Copy, Debug, PartialEq, Eq, Structural)]
pub enum CollisionEvent {
    Started(u64, u64, u32),
    Stopped(u64, u64, u32),
}

/// Sent to an entity when it starts touching `collider`.
#[derive(Clone, Copy, Debug, PartialEq, Eq, Structural)]
pub struct OnCollisionStart {
    pub collider: u64,
    pub flags: u32,
}

/// Sent to an entity when it stops touching `collider`.
#[derive(Clone, Copy, Debug, PartialEq, Eq, Structural)]
pub struct OnCollisionStop {
    pub collider: u64,
    pub flags: u32,
}

/// An event addressed to the entity `target`.
#[derive(Clone, Copy, Debug, PartialEq, Eq, Structural)]
pub enum Targeted {
    Start { target: u64, start: OnCollisionStart },
    Stop { target: u64, stop: OnCollisionStop },
}

/// The two events one contact gives: one for each entity, naming the other.
pub open spec fn targets_of(e: CollisionEvent) -> Seq<Targeted> {
    match e {
        CollisionEvent::Started(a, b, flags) => seq![
            Targeted::Start { target: a, start: OnCollisionStart { collider: b, flags } },
            Targeted::Start { target: b, start: OnCollisionStart { collider: a, flags } },
        ],
        CollisionEvent::Stopped(a, b, flags) => seq![
            Targeted::Stop { target: a, stop: OnCollisionStop { collider: b, flags } },
            Targeted::Stop { target: b, stop: OnCollisionStop { collider: a, flags } },
        ],
    }
}

/// The events that a list of contacts gives, in order.
pub open spec fn all_targets(s: Seq<CollisionEvent>) -> Seq<Targeted>
    decreases s.len(),
{
    if s.len() == 0 {
        Seq::empty()
    } else {
        all_targets(s.drop_last()) + targets_of(s.last())
    }
}

/// Turns each contact that the physics engine reports into one event for
/// each of the two entities, naming the other one.
pub fn send_bevy_events(events: &Vec<CollisionEvent>) -> (r: Vec<Targeted>)
    ensures
        r@ == all_targets(events@),
        r@.len() == 2 * events@.len(),
{
    let mut out: Vec<Targeted> = Vec::new();
    let mut i: usize = 0;
    while i < events.len()
        invariant
            i <= events.len(),
            out@ == all_targets(events@.take(i as int)),
            out@.len() == 2 * i,
        decreases events.len() - i,
    {
        proof {
            assert(events@.take(i + 1).drop_last() =~= events@.take(i as int));
        }
        match events[i] {
            CollisionEvent::Started(a, b, flags) => {
                out.push(Targeted::Start { target: a, start: OnCollisionStart { collider: b, flags } });
                out.push(Targeted::Start { target: b, start: OnCollisionStart { collider: a, flags } });
            },
            CollisionEvent::Stopped(a, b, flags) => {
                out.push(Targeted::Stop { target: a, stop: OnCollisionStop { collider: b, flags } });
                out.push(Targeted::Stop { target: b, stop: OnCollisionStop { collider: a, flags } });
            },
        }
        i = i + 1;
        assert(out@ =~= all_targets(events@.take(i as int)));
    }
    assert(events@.take(i as int) =~= events@);
    out
}

} // verus!
