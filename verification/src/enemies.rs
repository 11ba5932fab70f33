//! The collection of live enemies and the respawn logic that keeps the
//! population at its target size.

use vstd::prelude::*;
use crate::aircraft::{Aircraft, AircraftKind};
use crate::enemy::{enemy_wf, Enemy};
use crate::id_gen::{IDGenerator, IDKind};
use crate::missile::EnemyID;

verus! {

/// The population the respawner maintains.
pub const TARGET_ENEMIES: usize = 3;

pub struct Enemies {
    pub list: Vec<Enemy>,
}

/// Every enemy well-formed, and no two enemies share an ID.
pub open spec fn enemies_wf(e: Enemies) -> bool {
    &&& forall|i: int| 0 <= i < e.list@.len() ==> enemy_wf(#[trigger] e.list@[i])
    &&& forall|i: int, j: int|
        #![trigger e.list@[i].id, e.list@[j].id]
        0 <= i < j < e.list@.len() ==> e.list@[i].id != e.list@[j].id
}

/// Every live ID has already been issued by the generator.
pub open spec fn id_issued(id: EnemyID, g: IDGenerator) -> bool {
    g.last_of(IDKind::Enemy) is Some && id <= g.last_of(IDKind::Enemy)->Some_0
}

pub open spec fn ids_issued(e: Enemies, g: IDGenerator) -> bool {
    forall|i: int| 0 <= i < e.list@.len() ==> id_issued((#[trigger] e.list@[i]).id, g)
}

/// The enemy of `s` holding `id`, when one is alive; well-defined once IDs
/// are unique.
pub open spec fn enemy_by_id_spec(s: Seq<Enemy>, id: EnemyID) -> Option<Enemy> {
    if exists|i: int| 0 <= i < s.len() && (#[trigger] s[i]).id == id {
        let i = choose|i: int| 0 <= i < s.len() && (#[trigger] s[i]).id == id;
        Some(s[i])
    } else {
        None
    }
}

/// With unique IDs, looking an enemy's own ID up finds that enemy.
pub proof fn lemma_enemy_by_id(e: Enemies, l: int)
    requires
        enemies_wf(e),
        0 <= l < e.list@.len(),
    ensures
        enemy_by_id_spec(e.list@, e.list@[l].id) == Some(e.list@[l]),
{
    let id = e.list@[l].id;
    assert(0 <= l < e.list@.len() && e.list@[l].id == id);
    let i = choose|i: int| 0 <= i < e.list@.len() && (#[trigger] e.list@[i]).id == id;
    if i != l {
        assert(e.list@[i].id != e.list@[l].id);
    }
}

/// One scatter step: the enemy's model rolled, yawed and pitched by the
/// drawn amount `a` (milli-degrees, about its own local axes) and moved five
/// units forward, everything else left alone.
pub open spec fn scattered_enemy_spec(e: Enemy, a: int) -> Enemy {
    let m0 = e.aircraft.model;
    let m1 = crate::model::Model {
        orientation: crate::quat::mul_spec(
            m0.orientation,
            crate::quat::from_axis_angle_spec(crate::model::vec_front_spec(), a),
        ),
        ..m0
    };
    let m2 = crate::model::Model {
        orientation: crate::quat::mul_spec(
            m1.orientation,
            crate::quat::from_axis_angle_spec(crate::model::vec_up_spec(), a),
        ),
        ..m1
    };
    let m3 = crate::model::Model {
        orientation: crate::quat::mul_spec(
            m2.orientation,
            crate::quat::from_axis_angle_spec(crate::model::vec_right_spec(), a),
        ),
        ..m2
    };
    Enemy { aircraft: Aircraft { model: crate::model::forward_spec(m3, 5000), ..e.aircraft }, ..e }
}

/// Room to issue `n` more enemy IDs.
pub open spec fn room_for(g: IDGenerator, n: int) -> bool {
    match g.last_of(IDKind::Enemy) {
        Some(last) => last + n <= u32::MAX,
        None => n <= u32::MAX,
    }
}

impl Enemies {
    pub fn new() -> (r: Enemies)
        ensures
            r.list@.len() == 0,
            enemies_wf(r),
    {
        Enemies { list: Vec::new() }
    }

    /// Enough fresh enemies to restore the population, each with a fresh ID,
    /// or `None` when the population is already full.
    pub fn respawned_enemies(&self, id_gen: &mut IDGenerator) -> (r: Option<Vec<Enemy>>)
        requires
            enemies_wf(*self),
            self.list@.len() <= TARGET_ENEMIES as int,
            room_for(*old(id_gen), TARGET_ENEMIES as int),
        ensures
            r is None <==> self.list@.len() == TARGET_ENEMIES as int,
            r matches Some(v) ==> {
                &&& v@.len() == TARGET_ENEMIES as int - self.list@.len()
                &&& forall|i: int| 0 <= i < v@.len() ==> enemy_wf(#[trigger] v@[i])
                &&& forall|i: int, j: int|
                    #![trigger v@[i].id, v@[j].id]
                    0 <= i < j < v@.len() ==> v@[i].id != v@[j].id
                &&& forall|i: int|
                    0 <= i < v@.len() ==> (#[trigger] v@[i].id) >= old(id_gen).next_of(
                        IDKind::Enemy,
                    )
                &&& final(id_gen).last_of(IDKind::Enemy) is Some
                &&& forall|i: int|
                    0 <= i < v@.len() ==> (#[trigger] v@[i].id) <= final(id_gen).last_of(
                        IDKind::Enemy,
                    )->Some_0
            },
            r is None ==> *final(id_gen) == *old(id_gen),
            old(id_gen).last_of(IDKind::Enemy) matches Some(l) ==> final(id_gen).last_of(
                IDKind::Enemy,
            ) is Some && final(id_gen).last_of(IDKind::Enemy)->Some_0 >= l,
            final(id_gen).last_of(IDKind::Sound) == old(id_gen).last_of(IDKind::Sound),
    {
        let diff = TARGET_ENEMIES - self.list.len();
        if diff == 0 {
            return None;
        }
        let mut fresh: Vec<Enemy> = Vec::new();
        let mut k: usize = 0;
        while k < diff
            invariant
                k <= diff,
                1 <= diff <= TARGET_ENEMIES,
                fresh@.len() == k,
                room_for(*id_gen, diff - k),
                forall|i: int| 0 <= i < k ==> enemy_wf(#[trigger] fresh@[i]),
                forall|i: int|
                    0 <= i < k ==> (#[trigger] fresh@[i].id) >= old(id_gen).next_of(IDKind::Enemy),
                k >= 1 ==> id_gen.last_of(IDKind::Enemy) is Some,
                forall|i: int|
                    0 <= i < k ==> id_gen.last_of(IDKind::Enemy) is Some
                        && (#[trigger] fresh@[i].id) <= id_gen.last_of(IDKind::Enemy)->Some_0,
                old(id_gen).last_of(IDKind::Enemy) matches Some(l) ==> id_gen.last_of(
                    IDKind::Enemy,
                ) is Some && id_gen.last_of(IDKind::Enemy)->Some_0 >= l,
                forall|i: int, j: int|
                    #![trigger fresh@[i].id, fresh@[j].id]
                    0 <= i < j < k ==> fresh@[i].id != fresh@[j].id,
                id_gen.last_of(IDKind::Sound) == old(id_gen).last_of(IDKind::Sound),
            decreases diff - k,
        {
            let id = id_gen.get_new_id_of(IDKind::Enemy);
            let enemy = Enemy::new(id, AircraftKind::Mig21);
            fresh.push(enemy);
            k = k + 1;
        }
        Some(fresh)
    }

    /// Top the population back up to `TARGET_ENEMIES`. Existing enemies are
    /// kept in place; the newcomers carry IDs never used before.
    pub fn respawn_enemies(&mut self, id_gen: &mut IDGenerator)
        requires
            enemies_wf(*old(self)),
            old(self).list@.len() <= TARGET_ENEMIES as int,
            room_for(*old(id_gen), TARGET_ENEMIES as int),
            ids_issued(*old(self), *old(id_gen)),
        ensures
            final(self).list@.len() == TARGET_ENEMIES as int,
            final(self).list@.subrange(0, old(self).list@.len() as int) == old(self).list@,
            enemies_wf(*final(self)),
            ids_issued(*final(self), *final(id_gen)),
            final(id_gen).last_of(IDKind::Sound) == old(id_gen).last_of(IDKind::Sound),
    {
        let ghost prior = self.list@;
        let fresh = self.respawned_enemies(id_gen);
        match fresh {
            Some(v) => {
                let mut v2 = v;
                let ghost vv = v2@;
                proof {
                    assert(prior + vv.subrange(0, 0) =~= prior);
                }
                while v2.len() > 0
                    invariant
                        v2@.len() <= vv.len(),
                        v2@ =~= vv.subrange(
                            vv.len() - v2@.len(),
                            vv.len() as int,
                        ),
                        self.list@ == prior + vv.subrange(0, vv.len() - v2@.len()),
                    decreases v2@.len(),
                {
                    let ghost taken = vv.len() - v2@.len();
                    let e = v2.remove(0);
                    proof {
                        assert(e == vv[taken]);
                        assert(v2@ =~= vv.subrange(taken + 1, vv.len() as int));
                    }
                    self.list.push(e);
                    proof {
                        assert(self.list@ =~= prior + vv.subrange(0, taken + 1));
                    }
                }
                proof {
                    assert(vv.subrange(0, vv.len() as int) =~= vv);
                    assert(self.list@ =~= prior + vv);
                    assert(self.list@.subrange(0, prior.len() as int) =~= prior);
                }
            }
            None => {
                proof {
                    assert(self.list@.subrange(0, old(self).list@.len() as int) =~= self.list@);
                }
            }
        }
    }

    /// Scatter the enemies: a random attitude and a throttle push for each.
    /// The returned ghost sequence holds the steering amount drawn for each
    /// enemy.
    pub fn randomize_positions(&mut self) -> (draws: Ghost<Seq<int>>)
        requires
            enemies_wf(*old(self)),
            old(self).list@.len() >= 1,
        ensures
            final(self).list@.len() == old(self).list@.len(),
            draws@.len() == old(self).list@.len(),
            forall|i: int|
                #![trigger final(self).list@[i]]
                0 <= i < final(self).list@.len() ==> -360_000 <= draws@[i] < 360_000 && final(self).list@[i] == scattered_enemy_spec(old(self).list@[i], draws@[i]),
            enemies_wf(*final(self)),
    {
        let ghost s = self.list@;
        let mut out: Vec<Enemy> = Vec::new();
        let ghost mut draws: Seq<int> = Seq::empty();
        while self.list.len() > 0
            invariant
                out@.len() + self.list@.len() == s.len(),
                self.list@ =~= s.subrange(out@.len() as int, s.len() as int),
                forall|i: int| 0 <= i < s.len() ==> enemy_wf(#[trigger] s[i]),
                forall|i: int, j: int|
                    #![trigger s[i].id, s[j].id]
                    0 <= i < j < s.len() ==> s[i].id != s[j].id,
                forall|i: int| 0 <= i < out@.len() ==> enemy_wf(#[trigger] out@[i]),
                draws.len() == out@.len(),
                forall|i: int|
                    #![trigger out@[i]]
                    0 <= i < out@.len() ==> -360_000 <= draws[i] < 360_000 && out@[i]
                        == scattered_enemy_spec(s[i], draws[i]),
            decreases self.list@.len(),
        {
            let ghost taken = out@.len() as int;
            let mut e = self.list.remove(0);
            proof {
                assert(e == s[taken]);
                assert(self.list@ =~= s.subrange(taken + 1, s.len() as int));
            }
            let amount = crate::rng::random_in_range(-360_000, 360_000);
            e.aircraft.model.roll(amount);
            e.aircraft.model.yaw(amount);
            e.aircraft.model.pitch(amount);
            e.aircraft.model.forward(5000);
            proof {
                assert(e == scattered_enemy_spec(s[taken], amount as int));
                draws = draws.push(amount as int);
            }
            out.push(e);
        }
        self.list = out;
        proof {
            assert forall|i: int, j: int|
                #![trigger self.list@[i].id, self.list@[j].id]
                0 <= i < j < self.list@.len() implies self.list@[i].id != self.list@[j].id by {
                assert(self.list@[i] == scattered_enemy_spec(s[i], draws[i]));
                assert(self.list@[j] == scattered_enemy_spec(s[j], draws[j]));
                assert(s[i].id != s[j].id);
            }
        }
        Ghost(draws)
    }

    /// The enemy with the given ID, when it is alive.
    pub fn get_by_id(&self, id: EnemyID) -> (r: Option<&Enemy>)
        ensures
            r matches Some(e) ==> exists|i: int|
                0 <= i < self.list@.len() && #[trigger] self.list@[i] == *e && e.id == id,
            r is None ==> forall|i: int|
                0 <= i < self.list@.len() ==> (#[trigger] self.list@[i]).id != id,
            r is None ==> enemy_by_id_spec(self.list@, id) is None,
            (r matches Some(e) ==> (enemies_wf(*self) ==> enemy_by_id_spec(self.list@, id) == Some(
                *e,
            ))),
    {
        let n = self.list.len();
        let mut k: usize = 0;
        while k < n
            invariant
                k <= n,
                n == self.list@.len(),
                forall|i: int| 0 <= i < k ==> (#[trigger] self.list@[i]).id != id,
            decreases n - k,
        {
            if self.list[k].id == id {
                proof {
                    if enemies_wf(*self) {
                        lemma_enemy_by_id(*self, k as int);
                    }
                }
                return Some(&self.list[k]);
            }
            k = k + 1;
        }
        None
    }

    /// Drop every enemy whose ID appears in `shot_down`; the others keep
    /// their order.
    pub fn remove_ids(&mut self, shot_down: &Vec<EnemyID>)
        requires
            enemies_wf(*old(self)),
        ensures
            final(self).list@ == surviving_spec(old(self).list@, shot_down@),
            enemies_wf(*final(self)),
            forall|i: int|
                0 <= i < final(self).list@.len() ==> !shot_down@.contains(
                    (#[trigger] final(self).list@[i]).id,
                ),
            final(self).list@.len() <= old(self).list@.len(),
    {
        let ghost s = self.list@;
        let mut out: Vec<Enemy> = Vec::new();
        let ghost mut processed: int = 0;
        proof {
            assert(s.subrange(0, 0) =~= Seq::<Enemy>::empty());
        }
        while self.list.len() > 0
            invariant
                0 <= processed <= s.len(),
                self.list@ =~= s.subrange(processed, s.len() as int),
                out@ == surviving_spec(s.subrange(0, processed), shot_down@),
            decreases self.list@.len(),
        {
            let e = self.list.remove(0);
            proof {
                assert(e == s[processed]);
                assert(self.list@ =~= s.subrange(processed + 1, s.len() as int));
                assert(s.subrange(0, processed + 1).drop_last() =~= s.subrange(0, processed));
                assert(s.subrange(0, processed + 1).last() == s[processed]);
            }
            let mut contains_id: bool = false;
            let m = shot_down.len();
            let mut j: usize = 0;
            while j < m
                invariant
                    j <= m,
                    m == shot_down@.len(),
                    contains_id <==> exists|l: int| 0 <= l < j && shot_down@[l] == e.id,
                decreases m - j,
            {
                if shot_down[j] == e.id {
                    contains_id = true;
                }
                j = j + 1;
            }
            if !contains_id {
                out.push(e);
            }
            proof {
                processed = processed + 1;
            }
        }
        proof {
            assert(s.subrange(0, s.len() as int) =~= s);
            lemma_surviving_sound(s, shot_down@);
        }
        self.list = out;
    }
}

/// The enemies of `s` that survive when the IDs in `ids` are shot down, in
/// their original order.
pub open spec fn surviving_spec(s: Seq<Enemy>, ids: Seq<EnemyID>) -> Seq<Enemy>
    decreases s.len(),
{
    if s.len() == 0 {
        Seq::empty()
    } else {
        let rest = surviving_spec(s.drop_last(), ids);
        if ids.contains(s.last().id) {
            rest
        } else {
            rest.push(s.last())
        }
    }
}

/// Survivors are original enemies whose IDs were not shot down; their IDs
/// stay unique and none of the shot-down IDs remains.
pub proof fn lemma_surviving_sound(s: Seq<Enemy>, ids: Seq<EnemyID>)
    ensures
        surviving_spec(s, ids).len() <= s.len(),
        forall|i: int|
            0 <= i < surviving_spec(s, ids).len() ==> s.contains(#[trigger] surviving_spec(s, ids)[i]),
        forall|i: int|
            0 <= i < surviving_spec(s, ids).len() ==> !ids.contains(
                (#[trigger] surviving_spec(s, ids)[i]).id,
            ),
        (forall|i: int, j: int|
            #![trigger s[i].id, s[j].id]
            0 <= i < j < s.len() ==> s[i].id != s[j].id) ==> (forall|i: int, j: int|
            #![trigger surviving_spec(s, ids)[i].id, surviving_spec(s, ids)[j].id]
            0 <= i < j < surviving_spec(s, ids).len() ==> surviving_spec(s, ids)[i].id
                != surviving_spec(s, ids)[j].id),
        (forall|i: int| 0 <= i < s.len() ==> enemy_wf(#[trigger] s[i])) ==> (forall|i: int|
            0 <= i < surviving_spec(s, ids).len() ==> enemy_wf(#[trigger] surviving_spec(s, ids)[i])),
    decreases s.len(),
{
    if s.len() > 0 {
        lemma_surviving_sound(s.drop_last(), ids);
        let rest = surviving_spec(s.drop_last(), ids);
        assert forall|i: int| 0 <= i < rest.len() implies s.contains(#[trigger] rest[i]) by {
            assert(s.drop_last().contains(rest[i]));
            let w = choose|w: int| 0 <= w < s.drop_last().len() && s.drop_last()[w] == rest[i];
            assert(s[w] == rest[i]);
        }
        if !ids.contains(s.last().id) {
            assert(s.contains(s.last())) by {
                assert(s[s.len() - 1] == s.last());
            }
            if forall|i: int, j: int|
                #![trigger s[i].id, s[j].id]
                0 <= i < j < s.len() ==> s[i].id != s[j].id {
                assert forall|i: int|
                    0 <= i < rest.len() implies (#[trigger] rest[i]).id != s.last().id by {
                    assert(s.drop_last().contains(rest[i]));
                    let w = choose|w: int|
                        0 <= w < s.drop_last().len() && s.drop_last()[w] == rest[i];
                    assert(s[w].id != s[s.len() - 1].id);
                }
            }
        }
    }
}

} // verus!
