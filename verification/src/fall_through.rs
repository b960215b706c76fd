//! Ghost platforms and falling through them.
//!
//! A ghost platform does not collide with the body, but the cast detects
//! it. The ghost sensor keeps the ghost platforms that the cast met before
//! the real floor. The helper decides each tick whether the body stands on
//! one of them, which makes it a one-way platform, or falls through.

use vstd::prelude::*;
use crate::data_for_backends::{TnuaCastHit, TnuaProximitySensor, TnuaProximitySensorOutput};
use crate::fixed::Scalar;

verus! {

/// The ghost platforms that the cast of this tick has met.
#[derive(Clone, Debug)]
pub struct TnuaGhostSensor {
    pub hits: Vec<TnuaProximitySensorOutput>,
}

/// A ghost platform that the body could stand on: within the sensor's
/// range, passing the test against sideways contacts, and nearer than the
/// real floor, if there is one.
pub open spec fn is_ghost_candidate(sensor: TnuaProximitySensor, hit: TnuaCastHit) -> bool {
    &&& hit.is_ghost
    &&& sensor.in_range(hit)
    &&& sensor.accepts(hit)
    &&& sensor.output matches Some(floor) ==> hit.proximity < floor.proximity
}

/// The outputs of the ghost candidates among `hits`, in their order.
pub open spec fn ghost_candidates(sensor: TnuaProximitySensor, hits: Seq<TnuaCastHit>) -> Seq<
    TnuaProximitySensorOutput,
>
    decreases hits.len(),
{
    if hits.len() == 0 {
        Seq::empty()
    } else {
        let before = ghost_candidates(sensor, hits.drop_last());
        if is_ghost_candidate(sensor, hits.last()) {
            before.push(hits.last().spec_output())
        } else {
            before
        }
    }
}

/// `output` reports a ghost candidate among `hits`.
pub open spec fn reports_ghost_candidate(
    sensor: TnuaProximitySensor,
    hits: Seq<TnuaCastHit>,
    output: TnuaProximitySensorOutput,
) -> bool {
    exists|j: int|
        0 <= j < hits.len() && is_ghost_candidate(sensor, #[trigger] hits[j]) && output
            == hits[j].spec_output()
}

/// What the ghost sensor keeps are the ghost candidates and nothing else:
/// every output that it keeps reports a ghost candidate among the hits, and
/// every ghost candidate among the hits is reported by an output that it
/// keeps.
pub proof fn lemma_ghost_candidates_are_the_candidates(
    sensor: TnuaProximitySensor,
    hits: Seq<TnuaCastHit>,
)
    ensures
        ghost_candidates(sensor, hits).len() <= hits.len(),
        forall|k: int|
            0 <= k < ghost_candidates(sensor, hits).len() ==> reports_ghost_candidate(
                sensor,
                hits,
                #[trigger] ghost_candidates(sensor, hits)[k],
            ),
        forall|j: int|
            0 <= j < hits.len() && is_ghost_candidate(sensor, #[trigger] hits[j])
                ==> ghost_candidates(sensor, hits).contains(hits[j].spec_output()),
    decreases hits.len(),
{
    if hits.len() > 0 {
        let before = hits.drop_last();
        let kept = ghost_candidates(sensor, hits);
        let kept_before = ghost_candidates(sensor, before);
        lemma_ghost_candidates_are_the_candidates(sensor, before);
        assert forall|k: int| 0 <= k < kept.len() implies reports_ghost_candidate(
            sensor,
            hits,
            #[trigger] kept[k],
        ) by {
            if k < kept_before.len() {
                assert(kept[k] == kept_before[k]);
                assert(reports_ghost_candidate(sensor, before, kept_before[k]));
                let j = choose|j: int|
                    0 <= j < before.len() && is_ghost_candidate(sensor, #[trigger] before[j])
                        && kept_before[k] == before[j].spec_output();
                assert(hits[j] == before[j]);
            } else {
                assert(kept[k] == hits[hits.len() - 1].spec_output());
            }
        }
        assert forall|j: int|
            0 <= j < hits.len() && is_ghost_candidate(sensor, #[trigger] hits[j]) implies kept.contains(
            hits[j].spec_output(),
        ) by {
            if j < before.len() {
                assert(hits[j] == before[j]);
                assert(kept_before.contains(before[j].spec_output()));
                let k = choose|k: int|
                    0 <= k < kept_before.len() && kept_before[k] == before[j].spec_output();
                assert(kept[k] == hits[j].spec_output());
            } else {
                assert(kept[kept.len() - 1] == hits[j].spec_output());
            }
        }
    }
}

impl TnuaGhostSensor {
    pub fn new() -> (ghost_sensor: TnuaGhostSensor)
        ensures
            ghost_sensor.hits@.len() == 0,
    {
        TnuaGhostSensor { hits: Vec::new() }
    }

    /// Replaces what the ghost sensor holds by the ghost candidates among
    /// this tick's hits. The sensor's output of this tick must be set
    /// before, as it says where the real floor is.
    pub fn update(&mut self, sensor: &TnuaProximitySensor, hits: &Vec<TnuaCastHit>)
        ensures
            final(self).hits@ == ghost_candidates(*sensor, hits@),
    {
        let mut found: Vec<TnuaProximitySensorOutput> = Vec::new();
        let mut i: usize = 0;
        while i < hits.len()
            invariant
                0 <= i <= hits.len(),
                found@ == ghost_candidates(*sensor, hits@.take(i as int)),
            decreases hits.len() - i,
        {
            let hit: &TnuaCastHit = &hits[i];
            let nearer: bool = match sensor.output {
                None => true,
                Some(floor) => hit.proximity < floor.proximity,
            };
            proof {
                assert(hits@.take(i + 1).drop_last() == hits@.take(i as int));
                assert(hits@.take(i + 1).last() == hits@[i as int]);
            }
            if hit.is_ghost && hit.proximity <= sensor.cast_range && sensor.is_accepted(hit) && nearer {
                found.push(hit.output());
            }
            i = i + 1;
        }
        proof {
            assert(hits@.take(hits.len() as int) == hits@);
        }
        self.hits = found;
    }
}

/// Remembers which ghost platforms the body is falling through.
#[derive(Clone, Debug)]
pub struct TnuaSimpleFallThroughPlatformsHelper {
    pub currently_falling_through: Vec<u64>,
}

/// A ghost platform far enough below the body to stand on.
pub open spec fn is_standable(hit: TnuaProximitySensorOutput, min_proximity: Scalar) -> bool {
    min_proximity <= hit.proximity
}

/// The entities of the ghost platforms that the body could stand on.
pub open spec fn standable_entities(ghosts: Seq<TnuaProximitySensorOutput>, min_proximity: Scalar)
    -> Set<u64> {
    Set::new(
        |entity: u64|
            exists|i: int|
                0 <= i < ghosts.len() && is_standable(#[trigger] ghosts[i], min_proximity)
                    && ghosts[i].entity == entity,
    )
}

/// `ghosts[i]` can be stood on and is not being fallen through.
pub open spec fn is_support(
    ghosts: Seq<TnuaProximitySensorOutput>,
    falling: Set<u64>,
    min_proximity: Scalar,
    i: int,
) -> bool {
    &&& 0 <= i < ghosts.len()
    &&& is_standable(ghosts[i], min_proximity)
    &&& !falling.contains(ghosts[i].entity)
}

/// `ghosts[i]` is the nearest support, and the first of those as near.
pub open spec fn is_nearest_support(
    ghosts: Seq<TnuaProximitySensorOutput>,
    falling: Set<u64>,
    min_proximity: Scalar,
    i: int,
) -> bool {
    &&& is_support(ghosts, falling, min_proximity, i)
    &&& forall|j: int| #[trigger]
        is_support(ghosts, falling, min_proximity, j) ==> ghosts[i].proximity < ghosts[j].proximity
            || (ghosts[i].proximity == ghosts[j].proximity && i <= j)
}

/// The output of a sensor that stands on the nearest support, if there is
/// one, and keeps `output` if there is none.
pub open spec fn stands_on(
    ghosts: Seq<TnuaProximitySensorOutput>,
    falling: Set<u64>,
    min_proximity: Scalar,
    output: Option<TnuaProximitySensorOutput>,
    after: Option<TnuaProximitySensorOutput>,
) -> bool {
    if exists|j: int| is_support(ghosts, falling, min_proximity, j) {
        exists|i: int| #[trigger]
            is_nearest_support(ghosts, falling, min_proximity, i) && after == Some(ghosts[i])
    } else {
        after == output
    }
}

/// A body that stands on a ghost platform stands on one that is far
/// enough below it and that it is not falling through; and where there is
/// such a platform, the body stands on one.
pub proof fn lemma_support_is_standable_and_not_fallen_through(
    ghosts: Seq<TnuaProximitySensorOutput>,
    falling: Set<u64>,
    min_proximity: Scalar,
    output: Option<TnuaProximitySensorOutput>,
    after: Option<TnuaProximitySensorOutput>,
)
    requires
        stands_on(ghosts, falling, min_proximity, output, after),
    ensures
        after != output ==> after is Some && ghosts.contains(after->0) && is_standable(
            after->0,
            min_proximity,
        ) && !falling.contains(after->0.entity),
        (exists|j: int| is_support(ghosts, falling, min_proximity, j)) ==> after is Some
            && is_standable(after->0, min_proximity) && !falling.contains(after->0.entity),
{
    if exists|j: int| is_support(ghosts, falling, min_proximity, j) {
        let i = choose|i: int| #[trigger]
            is_nearest_support(ghosts, falling, min_proximity, i) && after == Some(ghosts[i]);
        assert(is_support(ghosts, falling, min_proximity, i));
        assert(ghosts[i] == after->0);
    }
}

/// Whether `entity` is in the list.
pub fn holds(list: &Vec<u64>, entity: u64) -> (found: bool)
    ensures
        found == list@.contains(entity),
{
    let mut i: usize = 0;
    while i < list.len()
        invariant
            0 <= i <= list.len(),
            forall|j: int| 0 <= j < i ==> list@[j] != entity,
        decreases list.len() - i,
    {
        if list[i] == entity {
            return true;
        }
        i = i + 1;
    }
    false
}

/// The nearest ghost platform that the body can stand on and is not
/// falling through.
pub fn nearest_support(
    ghosts: &Vec<TnuaProximitySensorOutput>,
    falling: &Vec<u64>,
    min_proximity: Scalar,
) -> (support: Option<usize>)
    ensures
        match support {
            None => forall|j: int| !is_support(ghosts@, falling@.to_set(), min_proximity, j),
            Some(i) => is_nearest_support(ghosts@, falling@.to_set(), min_proximity, i as int),
        },
{
    let mut best: Option<usize> = None;
    let mut i: usize = 0;
    while i < ghosts.len()
        invariant
            0 <= i <= ghosts.len(),
            match best {
                None => forall|j: int|
                    0 <= j < i ==> !is_support(ghosts@, falling@.to_set(), min_proximity, j),
                Some(b) => {
                    &&& b < i
                    &&& is_support(ghosts@, falling@.to_set(), min_proximity, b as int)
                    &&& forall|j: int|
                        0 <= j < i && #[trigger] is_support(
                            ghosts@,
                            falling@.to_set(),
                            min_proximity,
                            j,
                        ) ==> ghosts@[b as int].proximity < ghosts@[j].proximity || (ghosts@[b as int].proximity
                            == ghosts@[j].proximity && b <= j)
                },
            },
        decreases ghosts.len() - i,
    {
        let platform: &TnuaProximitySensorOutput = &ghosts[i];
        if min_proximity <= platform.proximity && !holds(falling, platform.entity) {
            match best {
                None => {
                    best = Some(i);
                },
                Some(b) => {
                    if platform.proximity < ghosts[b].proximity {
                        best = Some(i);
                    }
                },
            }
        }
        i = i + 1;
    }
    best
}

/// Whether a ghost platform of the entity `entity` can be stood on.
pub fn is_standable_entity(
    ghosts: &Vec<TnuaProximitySensorOutput>,
    min_proximity: Scalar,
    entity: u64,
) -> (found: bool)
    ensures
        found == standable_entities(ghosts@, min_proximity).contains(entity),
{
    let mut i: usize = 0;
    while i < ghosts.len()
        invariant
            0 <= i <= ghosts.len(),
            forall|j: int|
                0 <= j < i ==> !(is_standable(#[trigger] ghosts@[j], min_proximity)
                    && ghosts@[j].entity == entity),
        decreases ghosts.len() - i,
    {
        if min_proximity <= ghosts[i].proximity && ghosts[i].entity == entity {
            return true;
        }
        i = i + 1;
    }
    false
}

impl TnuaSimpleFallThroughPlatformsHelper {
    /// The entities of the ghost platforms that the body is falling through.
    pub open spec fn falling(self) -> Set<u64> {
        self.currently_falling_through@.to_set()
    }

    pub fn new() -> (helper: TnuaSimpleFallThroughPlatformsHelper)
        ensures
            helper.falling() == Set::<u64>::empty(),
    {
        let helper = TnuaSimpleFallThroughPlatformsHelper { currently_falling_through: Vec::new() };
        assert(helper.falling() =~= Set::<u64>::empty());
        helper
    }

    /// The body does not ask to fall: it stands on the nearest ghost
    /// platform that it can stand on and is not falling through, which
    /// becomes the sensor's output. A platform is forgotten as soon as the
    /// body could no longer stand on it.
    pub fn dont_fall(
        &mut self,
        sensor: &mut TnuaProximitySensor,
        ghost_sensor: &TnuaGhostSensor,
        min_proximity: Scalar,
    )
        ensures
            stands_on(
                ghost_sensor.hits@,
                old(self).falling(),
                min_proximity,
                old(sensor).output,
                final(sensor).output,
            ),
            final(self).falling() == old(self).falling().intersect(
                standable_entities(ghost_sensor.hits@, min_proximity),
            ),
            final(sensor).cast_origin == old(sensor).cast_origin,
            final(sensor).cast_direction == old(sensor).cast_direction,
            final(sensor).cast_range == old(sensor).cast_range,
            final(sensor).intersection_match_prevention_cutoff == old(
                sensor,
            ).intersection_match_prevention_cutoff,
    {
        match nearest_support(&ghost_sensor.hits, &self.currently_falling_through, min_proximity) {
            None => {},
            Some(i) => {
                sensor.output = Some(ghost_sensor.hits[i]);
            },
        }
        let mut kept: Vec<u64> = Vec::new();
        let mut k: usize = 0;
        while k < self.currently_falling_through.len()
            invariant
                0 <= k <= self.currently_falling_through.len(),
                self.currently_falling_through == old(self).currently_falling_through,
                forall|e: u64|
                    kept@.contains(e) <==> (exists|j: int|
                        0 <= j < k && #[trigger] self.currently_falling_through@[j] == e)
                        && standable_entities(ghost_sensor.hits@, min_proximity).contains(e),
            decreases self.currently_falling_through.len() - k,
        {
            let entity: u64 = self.currently_falling_through[k];
            let ghost old_kept = kept@;
            if is_standable_entity(&ghost_sensor.hits, min_proximity, entity) {
                kept.push(entity);
                proof {
                    assert forall|e: u64|
                        kept@.contains(e) <==> (exists|j: int|
                            0 <= j < k + 1 && #[trigger] self.currently_falling_through@[j] == e)
                            && standable_entities(ghost_sensor.hits@, min_proximity).contains(
                            e,
                        ) by {
                        if kept@.contains(e) {
                            let w = choose|w: int| 0 <= w < kept@.len() && kept@[w] == e;
                            if w < old_kept.len() {
                                assert(old_kept[w] == e);
                                assert(old_kept.contains(e));
                            } else {
                                assert(self.currently_falling_through@[k as int] == e);
                            }
                        }
                        if (exists|j: int|
                            0 <= j < k + 1 && #[trigger] self.currently_falling_through@[j] == e)
                            && standable_entities(ghost_sensor.hits@, min_proximity).contains(e) {
                            let j = choose|j: int|
                                0 <= j < k + 1 && #[trigger] self.currently_falling_through@[j]
                                    == e;
                            if j < k {
                                assert(old_kept.contains(e));
                                let w = choose|w: int| 0 <= w < old_kept.len() && old_kept[w] == e;
                                assert(kept@[w] == e);
                            } else {
                                assert(kept@[kept@.len() - 1] == e);
                            }
                        }
                    }
                }
            }
            k = k + 1;
        }
        proof {
            let wanted = old(self).falling().intersect(
                standable_entities(ghost_sensor.hits@, min_proximity),
            );
            assert forall|e: u64| kept@.to_set().contains(e) <==> wanted.contains(e) by {
                if wanted.contains(e) {
                    assert(old(self).currently_falling_through@.contains(e));
                }
            }
            assert(kept@.to_set() =~= wanted);
        }
        self.currently_falling_through = kept;
    }

    /// The body asks to fall through the ghost platforms under it.
    ///
    /// When the request is new (`just_pressed`), or the body is falling
    /// through nothing yet, the body begins to fall through every ghost
    /// platform that it could stand on: the sensor's output stays as it
    /// is, and the answer says whether there is such a platform. Else the
    /// body goes on falling through the platforms that it fell through
    /// already, and stands on the nearest other one, if there is one; the
    /// answer is `true`.
    pub fn try_falling(
        &mut self,
        sensor: &mut TnuaProximitySensor,
        ghost_sensor: &TnuaGhostSensor,
        min_proximity: Scalar,
        just_pressed: bool,
    ) -> (falling: bool)
        ensures
            !just_pressed && old(self).currently_falling_through@.len() > 0 ==> {
                &&& falling
                &&& final(self).currently_falling_through == old(self).currently_falling_through
                &&& stands_on(
                    ghost_sensor.hits@,
                    old(self).falling(),
                    min_proximity,
                    old(sensor).output,
                    final(sensor).output,
                )
            },
            just_pressed || old(self).currently_falling_through@.len() == 0 ==> {
                &&& final(self).falling() == standable_entities(ghost_sensor.hits@, min_proximity)
                &&& final(sensor).output == old(sensor).output
                &&& falling == exists|i: int|
                    0 <= i < ghost_sensor.hits@.len() && is_standable(
                        #[trigger] ghost_sensor.hits@[i],
                        min_proximity,
                    )
            },
            final(sensor).cast_origin == old(sensor).cast_origin,
            final(sensor).cast_direction == old(sensor).cast_direction,
            final(sensor).cast_range == old(sensor).cast_range,
            final(sensor).intersection_match_prevention_cutoff == old(
                sensor,
            ).intersection_match_prevention_cutoff,
    {
        if !just_pressed && self.currently_falling_through.len() > 0 {
            match nearest_support(&ghost_sensor.hits, &self.currently_falling_through, min_proximity) {
                None => {},
                Some(i) => {
                    sensor.output = Some(ghost_sensor.hits[i]);
                },
            }
            return true;
        }
        let mut chosen: Vec<u64> = Vec::new();
        let mut i: usize = 0;
        while i < ghost_sensor.hits.len()
            invariant
                0 <= i <= ghost_sensor.hits.len(),
                forall|e: u64|
                    chosen@.contains(e) <==> exists|j: int|
                        0 <= j < i && is_standable(#[trigger] ghost_sensor.hits@[j], min_proximity)
                            && ghost_sensor.hits@[j].entity == e,
                chosen@.len() > 0 <==> exists|j: int|
                    0 <= j < i && is_standable(#[trigger] ghost_sensor.hits@[j], min_proximity),
            decreases ghost_sensor.hits.len() - i,
        {
            let platform: &TnuaProximitySensorOutput = &ghost_sensor.hits[i];
            let ghost before = chosen@;
            if min_proximity <= platform.proximity {
                chosen.push(platform.entity);
                proof {
                    assert(chosen@[chosen@.len() - 1] == platform.entity);
                    assert(is_standable(ghost_sensor.hits@[i as int], min_proximity));
                    assert forall|e: u64|
                        chosen@.contains(e) <==> exists|j: int|
                            0 <= j < i + 1 && is_standable(
                                #[trigger] ghost_sensor.hits@[j],
                                min_proximity,
                            ) && ghost_sensor.hits@[j].entity == e by {
                        if chosen@.contains(e) {
                            let w = choose|w: int| 0 <= w < chosen@.len() && chosen@[w] == e;
                            if w < before.len() {
                                assert(before[w] == e);
                                assert(before.contains(e));
                            } else {
                                assert(ghost_sensor.hits@[i as int].entity == e);
                            }
                        }
                        if exists|j: int|
                            0 <= j < i + 1 && is_standable(
                                #[trigger] ghost_sensor.hits@[j],
                                min_proximity,
                            ) && ghost_sensor.hits@[j].entity == e {
                            let j = choose|j: int|
                                0 <= j < i + 1 && is_standable(
                                    #[trigger] ghost_sensor.hits@[j],
                                    min_proximity,
                                ) && ghost_sensor.hits@[j].entity == e;
                            if j < i {
                                assert(before.contains(e));
                                let w = choose|w: int| 0 <= w < before.len() && before[w] == e;
                                assert(chosen@[w] == e);
                            } else {
                                assert(chosen@[chosen@.len() - 1] == e);
                            }
                        }
                    }
                }
            }
            i = i + 1;
        }
        proof {
            assert(chosen@.to_set() =~= standable_entities(ghost_sensor.hits@, min_proximity));
        }
        let falling: bool = chosen.len() > 0;
        self.currently_falling_through = chosen;
        falling
    }
}

} // verus!
