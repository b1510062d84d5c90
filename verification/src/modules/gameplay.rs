use vstd::prelude::*;

pub mod coroutines;
pub mod game;
pub mod game_object;
pub mod input;
pub mod wait;

use crate::modules::draw::queue::DrawQueueInner;
use crate::modules::gameplay::coroutines::{
    coroutine_kept, resumed_coroutine, resumed_list, resumes_this_frame, scheduled_coroutine,
    Coroutine, ResumeOutcome,
};
use crate::modules::gameplay::game::{
    apply_effects, camera_after, draw_appended_only, drawn_of, fonts_of, game_staged_only,
    hooks_scripted, ids_of, lemma_appended_only_transitive, lemma_staged_only_transitive,
    sheets_of, slices_of, staged_coroutines_of, staged_creates_of, staged_deletes_of, GameInner,
    ScriptEffect,
};
use crate::modules::gameplay::game_object::{GameObject, HookCall, ResumeReply, ScriptHost};
use crate::modules::gameplay::input::InputInner;

verus! {

broadcast use vstd::seq_lib::group_filter_ensures;

/// The core gameplay module: it owns the per-frame lifecycle of the shared
/// game state — advancing time, running entity hooks and coroutines, and
/// applying staged structural changes at the merge point.
pub struct CoreModule;

/// The staging lists have only grown at their ends and time stands still;
/// the live list itself may have changed.
pub open spec fn staging_extended(g0: GameInner, g1: GameInner) -> bool {
    &&& g1.time == g0.time
    &&& g0.pending_creates@.is_prefix_of(g1.pending_creates@)
    &&& g0.pending_deletes@.is_prefix_of(g1.pending_deletes@)
    &&& g0.pending_coroutines@.is_prefix_of(g1.pending_coroutines@)
}

/// One entity's coroutines at the end of a whole update phase, related to
/// its state when the phase began: the identity is kept, the pending
/// sublist has been merged and is empty, and the active list holds exactly
/// the kept survivors of the scheduled list under some host outcomes,
/// followed by the old pending coroutines, followed by whatever the tidy
/// point routed to the entity.
pub open spec fn frame_coroutines_settled(pre: GameObject, post: GameObject, delta: u64) -> bool {
    &&& post.id == pre.id
    &&& post.coroutines.pending@ == Seq::<Coroutine>::empty()
    &&& exists|outcomes: Seq<ResumeOutcome>, extra: Seq<Coroutine>|
        #![trigger outcomes.len(), extra.len()]
        {
            &&& outcomes.len() == pre.coroutines.coroutines@.len()
            &&& post.coroutines.coroutines@ == resumed_list(
                pre.coroutines.coroutines@,
                delta,
                outcomes,
            ).filter(|c: Coroutine| coroutine_kept(c)) + pre.coroutines.pending@ + extra
        }
}

/// The resumption records of one entity's pass over its first `j` active
/// coroutines: one per coroutine that is ready once this frame's tick is
/// applied, in list order.
pub open spec fn resume_calls_upto(id: u64, cs: Seq<Coroutine>, delta: u64, j: int) -> Seq<
    HookCall,
>
    decreases j,
{
    if j <= 0 {
        Seq::empty()
    } else {
        resume_calls_upto(id, cs, delta, j - 1) + if resumes_this_frame(cs[j - 1], delta) {
            seq![HookCall::Resume { entity: id, block: cs[j - 1].block }]
        } else {
            Seq::<HookCall>::empty()
        }
    }
}

/// The resumption records of the whole pass over the first `i` entities,
/// in live-list order.
pub open spec fn all_resume_calls_upto(objs: Seq<GameObject>, delta: u64, i: int) -> Seq<
    HookCall,
>
    decreases i,
{
    if i <= 0 {
        Seq::empty()
    } else {
        all_resume_calls_upto(objs, delta, i - 1) + resume_calls_upto(
            objs[i - 1].id,
            objs[i - 1].coroutines.coroutines@,
            delta,
            objs[i - 1].coroutines.coroutines@.len() as int,
        )
    }
}

/// The position of the first live entity carrying an identity, if any:
/// staged coroutines and deletion requests match the live list by identity.
pub open spec fn first_with_id(ids: Seq<u64>, id: u64) -> Option<int>
    decreases ids.len(),
{
    if ids.len() == 0 {
        None
    } else if ids[0] == id {
        Some(0int)
    } else {
        match first_with_id(ids.drop_first(), id) {
            Some(k) => Some(k + 1),
            None => None,
        }
    }
}

/// The staged coroutines, among the first `k`, that the tidy point routes
/// to the entity at position `i`: those staged under its identity, in
/// staging order, where that position is the first carrying the identity.
pub open spec fn routed_upto(
    staged: Seq<(u64, Coroutine)>,
    ids: Seq<u64>,
    i: int,
    k: int,
) -> Seq<Coroutine>
    decreases k,
{
    if k <= 0 {
        Seq::empty()
    } else {
        routed_upto(staged, ids, i, k - 1) + if first_with_id(ids, staged[k - 1].0) == Some(i) {
            seq![staged[k - 1].1]
        } else {
            Seq::<Coroutine>::empty()
        }
    }
}

/// The staged coroutines, among the first `k`, whose identity matches no
/// live entity: they stay staged, awaiting an entity still to be merged.
pub open spec fn kept_staged_upto(staged: Seq<(u64, Coroutine)>, ids: Seq<u64>, k: int) -> Seq<
    (u64, Coroutine),
>
    decreases k,
{
    if k <= 0 {
        Seq::empty()
    } else {
        kept_staged_upto(staged, ids, k - 1) + if first_with_id(ids, staged[k - 1].0) is None {
            seq![staged[k - 1]]
        } else {
            Seq::<(u64, Coroutine)>::empty()
        }
    }
}

/// The live entities, among the first `k`, that survive the deletion
/// merge: those whose identity no staged deletion request names.
pub open spec fn kept_objs_upto(objs: Seq<GameObject>, deletes: Seq<u64>, k: int) -> Seq<
    GameObject,
>
    decreases k,
{
    if k <= 0 {
        Seq::empty()
    } else {
        kept_objs_upto(objs, deletes, k - 1) + if deletes.contains(objs[k - 1].id) {
            Seq::<GameObject>::empty()
        } else {
            seq![objs[k - 1]]
        }
    }
}

/// The on-delete hook records of the deletion merge over the first `k`
/// live entities: one per removed entity, in live-list order.
pub open spec fn deleted_calls_upto(objs: Seq<GameObject>, deletes: Seq<u64>, k: int) -> Seq<
    HookCall,
>
    decreases k,
{
    if k <= 0 {
        Seq::empty()
    } else {
        deleted_calls_upto(objs, deletes, k - 1) + if deletes.contains(objs[k - 1].id) {
            seq![HookCall::Delete(objs[k - 1].id)]
        } else {
            Seq::<HookCall>::empty()
        }
    }
}

/// The staged coroutines, among the first `k`, whose identity is live:
/// the rest are orphans of deleted or unknown entities and are dropped.
pub open spec fn surviving_staged_upto(
    staged: Seq<(u64, Coroutine)>,
    ids: Seq<u64>,
    k: int,
) -> Seq<(u64, Coroutine)>
    decreases k,
{
    if k <= 0 {
        Seq::empty()
    } else {
        surviving_staged_upto(staged, ids, k - 1) + if ids.contains(staged[k - 1].0) {
            seq![staged[k - 1]]
        } else {
            Seq::<(u64, Coroutine)>::empty()
        }
    }
}

proof fn lemma_first_with_id_at(ids: Seq<u64>, id: u64, i: int)
    requires
        0 <= i < ids.len(),
        ids[i] == id,
        forall|j: int| 0 <= j < i ==> ids[j] != id,
    ensures
        first_with_id(ids, id) == Some(i),
    decreases i,
{
    if i > 0 {
        lemma_first_with_id_at(ids.drop_first(), id, i - 1);
    }
}

proof fn lemma_first_with_id_absent(ids: Seq<u64>, id: u64)
    requires
        forall|j: int| 0 <= j < ids.len() ==> ids[j] != id,
    ensures
        first_with_id(ids, id) is None,
    decreases ids.len(),
{
    if ids.len() > 0 {
        lemma_first_with_id_absent(ids.drop_first(), id);
    }
}

/// Whether a staged deletion list names an identity.
fn contains_id(v: &Vec<u64>, id: u64) -> (r: bool)
    ensures
        r == v@.contains(id),
{
    let n = v.len();
    for i in 0..n
        invariant
            n == v@.len(),
            forall|j: int| 0 <= j < i ==> v@[j] != id,
    {
        if v[i] == id {
            assert(v@[i as int] == id);
            return true;
        }
    }
    false
}

/// The position of the first live entity carrying `id`, if any.
fn find_live_index(game: &GameInner, id: u64) -> (r: Option<usize>)
    ensures
        match r {
            Some(i) => i < game.game_objects@.len() && game.game_objects@[i as int].id == id
                && first_with_id(ids_of(game.game_objects@), id) == Some(i as int),
            None => first_with_id(ids_of(game.game_objects@), id) is None,
        },
{
    let n = game.game_objects.len();
    for i in 0..n
        invariant
            n == game.game_objects@.len(),
            forall|j: int| 0 <= j < i ==> ids_of(game.game_objects@)[j] != id,
    {
        assert(ids_of(game.game_objects@)[i as int] == game.game_objects@[i as int].id);
        if game.game_objects[i].id == id {
            proof {
                lemma_first_with_id_at(ids_of(game.game_objects@), id, i as int);
            }
            return Some(i);
        }
    }
    proof {
        lemma_first_with_id_absent(ids_of(game.game_objects@), id);
    }
    None
}

impl CoreModule {
    /// The pre-update phase: advance the frame counter and sample the
    /// elapsed time; nothing else of the game state moves.
    pub fn pre_update(&mut self, game: &mut GameInner)
        requires
            old(game).time.frame < u64::MAX,
        ensures
            final(game).time.frame == old(game).time.frame + 1,
            final(game).time.now_micros >= old(game).time.now_micros,
            final(game).time.delta_micros == final(game).time.now_micros - old(game).time.now_micros,
            final(game).time.clock == old(game).time.clock,
            final(game).time.start == old(game).time.start,
            final(game).camera == old(game).camera,
            final(game).pending_creates@ == old(game).pending_creates@,
            final(game).pending_deletes@ == old(game).pending_deletes@,
            final(game).game_objects@ == old(game).game_objects@,
            final(game).pending_coroutines@ == old(game).pending_coroutines@,
    {
        game.time.tick();
    }

    /// The first update pass: run every live entity's update hook exactly
    /// once, in live-list order, applying each hook's staged effects as it
    /// returns. The live list itself and the time stand still; the hook
    /// journal grows by exactly one update record per live entity, in
    /// order.
    pub fn run_update_hooks<H: ScriptHost>(
        &mut self,
        host: &mut H,
        game: &mut GameInner,
        draw: &mut DrawQueueInner,
        input: &InputInner,
        log: &mut Vec<HookCall>,
    )
        ensures
            game_staged_only(*old(game), *final(game)),
            draw_appended_only(*old(draw), *final(draw)),
            final(log)@ == old(log)@ + ids_of(old(game).game_objects@).map_values(
                |id: u64| HookCall::Update(id),
            ),
            exists|es: Seq<ScriptEffect>|
                #![trigger es.len()]
                hooks_scripted(*old(game), *old(draw), *final(game), *final(draw), es),
    {
        let ghost update_calls = ids_of(old(game).game_objects@).map_values(
            |id: u64| HookCall::Update(id),
        );
        let ghost mut es: Seq<ScriptEffect> = Seq::empty();
        proof {
            crate::modules::gameplay::game::lemma_scripted_only_refl(*game, *draw);
        }
        let n = game.game_objects.len();
        for i in 0..n
            invariant
                n == game.game_objects@.len(),
                game_staged_only(*old(game), *game),
                draw_appended_only(*old(draw), *draw),
                hooks_scripted(*old(game), *old(draw), *game, *draw, es),
                game.game_objects@ == old(game).game_objects@,
                update_calls == ids_of(old(game).game_objects@).map_values(
                    |id: u64| HookCall::Update(id),
                ),
                log@ == old(log)@ + update_calls.subrange(0, i as int),
        {
            let id = game.game_objects[i].id;
            log.push(HookCall::Update(id));
            let effects = host.update(game, input, id);
            let ghost batch = effects@;
            let ghost g_mid = *game;
            let ghost d_mid = *draw;
            apply_effects(game, draw, effects);
            proof {
                lemma_staged_only_transitive(*old(game), g_mid, *game);
                lemma_appended_only_transitive(*old(draw), d_mid, *draw);
                crate::modules::gameplay::game::lemma_hooks_scripted_concat(
                    *old(game),
                    *old(draw),
                    g_mid,
                    d_mid,
                    *game,
                    *draw,
                    es,
                    batch,
                );
                es = es + batch;
                assert(update_calls[i as int] == HookCall::Update(
                    old(game).game_objects@[i as int].id,
                ));
                assert(update_calls.subrange(0, i + 1) =~= update_calls.subrange(0, i as int).push(
                    update_calls[i as int],
                ));
                assert(log@ =~= old(log)@ + update_calls.subrange(0, i + 1));
            }
        }
        proof {
            assert(update_calls.subrange(0, n as int) =~= update_calls);
            assert(es.len() >= 0);
            assert(hooks_scripted(*old(game), *old(draw), *game, *draw, es));
        }
    }

    /// The second update pass: for each live entity in order, advance every
    /// active coroutine by the frame's elapsed time exactly once, resume
    /// exactly the coroutines that are then ready, each exactly once and in
    /// list order, apply the effects each routine asked for, and retire
    /// every coroutine that failed or finished. The entity list keeps its
    /// identities and per-entity pending lists; the journal grows by
    /// exactly one resumption record per ready coroutine, per entity in
    /// live order; each entity ends with exactly the kept survivors of its
    /// scheduled list under the host's outcomes; every staged entry came
    /// from the routines' effects.
    #[verifier::rlimit(50)]
    pub fn execute_coroutines<H: ScriptHost>(
        &mut self,
        host: &mut H,
        game: &mut GameInner,
        draw: &mut DrawQueueInner,
        input: &InputInner,
        log: &mut Vec<HookCall>,
    )
        ensures
            final(game).game_objects@.len() == old(game).game_objects@.len(),
            ids_of(final(game).game_objects@) == ids_of(old(game).game_objects@),
            forall|i: int|
                #![trigger final(game).game_objects@[i]]
                0 <= i < old(game).game_objects@.len() ==> {
                    &&& final(game).game_objects@[i].id == old(game).game_objects@[i].id
                    &&& final(game).game_objects@[i].coroutines.pending@ == old(
                        game,
                    ).game_objects@[i].coroutines.pending@
                    &&& exists|outcomes: Seq<ResumeOutcome>|
                        #![trigger outcomes.len()]
                        {
                            &&& outcomes.len() == old(
                                game,
                            ).game_objects@[i].coroutines.coroutines@.len()
                            &&& final(game).game_objects@[i].coroutines.coroutines@
                                == resumed_list(
                                old(game).game_objects@[i].coroutines.coroutines@,
                                old(game).time.delta_micros,
                                outcomes,
                            ).filter(|c: Coroutine| coroutine_kept(c))
                        }
                },
            final(log)@ == old(log)@ + all_resume_calls_upto(
                old(game).game_objects@,
                old(game).time.delta_micros,
                old(game).game_objects@.len() as int,
            ),
            staging_extended(*old(game), *final(game)),
            draw_appended_only(*old(draw), *final(draw)),
            exists|es: Seq<ScriptEffect>|
                #![auto]
                hooks_scripted(*old(game), *old(draw), *final(game), *final(draw), es),
            forall|i: int, j: int|
                0 <= i < final(game).game_objects@.len() && 0 <= j < final(game).game_objects@[i].coroutines.coroutines@.len() ==> coroutine_kept(
                    final(game).game_objects@[i].coroutines.coroutines@[j],
                ),
    {
        let delta = game.time.delta_micros;
        let ghost objs0 = old(game).game_objects@;
        let ghost mut es: Seq<ScriptEffect> = Seq::empty();
        proof {
            crate::modules::gameplay::game::lemma_scripted_only_refl(*game, *draw);
        }
        let n = game.game_objects.len();
        for i in 0..n
            invariant
                n == game.game_objects@.len(),
                n == objs0.len(),
                objs0 == old(game).game_objects@,
                ids_of(game.game_objects@) == ids_of(objs0),
                staging_extended(*old(game), *game),
                delta == game.time.delta_micros,
                delta == old(game).time.delta_micros,
                draw_appended_only(*old(draw), *draw),
                hooks_scripted(*old(game), *old(draw), *game, *draw, es),
                log@ == old(log)@ + all_resume_calls_upto(objs0, delta, i as int),
                forall|i2: int|
                    #![trigger game.game_objects@[i2]]
                    i <= i2 < n ==> game.game_objects@[i2] == objs0[i2],
                forall|i2: int|
                    #![trigger game.game_objects@[i2]]
                    0 <= i2 < i ==> {
                        &&& game.game_objects@[i2].id == old(game).game_objects@[i2].id
                        &&& game.game_objects@[i2].coroutines.pending@ == old(
                            game,
                        ).game_objects@[i2].coroutines.pending@
                        &&& exists|outcomes: Seq<ResumeOutcome>|
                            #![trigger outcomes.len()]
                            {
                                &&& outcomes.len() == old(
                                    game,
                                ).game_objects@[i2].coroutines.coroutines@.len()
                                &&& game.game_objects@[i2].coroutines.coroutines@ == resumed_list(
                                    old(game).game_objects@[i2].coroutines.coroutines@,
                                    old(game).time.delta_micros,
                                    outcomes,
                                ).filter(|c: Coroutine| coroutine_kept(c))
                            }
                    },
                forall|i2: int, j: int|
                    0 <= i2 < i && 0 <= j < game.game_objects@[i2].coroutines.coroutines@.len()
                        ==> coroutine_kept(game.game_objects@[i2].coroutines.coroutines@[j]),
        {
            let ghost objs_at_entry = game.game_objects@;
            let ghost log_at_entry = log@;
            let ghost orig = objs0[i as int].coroutines.coroutines@;
            let ghost mut outcomes: Seq<ResumeOutcome> = Seq::empty();
            let mut obj = game.game_objects.remove(i);
            proof {
                assert(obj == objs0[i as int]);
            }
            obj.coroutines.schedule_all(delta);
            let m = obj.coroutines.coroutines.len();
            for j in 0..m
                invariant
                    m == obj.coroutines.coroutines@.len(),
                    m == orig.len(),
                    orig == objs0[i as int].coroutines.coroutines@,
                    i < n == objs0.len(),
                    obj.id == objs0[i as int].id,
                    obj.coroutines.pending@ == objs0[i as int].coroutines.pending@,
                    outcomes.len() == j,
                    forall|j2: int|
                        #![trigger obj.coroutines.coroutines@[j2]]
                        0 <= j2 < j ==> obj.coroutines.coroutines@[j2] == resumed_coroutine(
                            orig[j2],
                            delta,
                            outcomes[j2],
                        ),
                    forall|j2: int|
                        #![trigger obj.coroutines.coroutines@[j2]]
                        j <= j2 < m ==> obj.coroutines.coroutines@[j2] == scheduled_coroutine(
                            orig[j2],
                            delta,
                        ),
                    game.game_objects@ == objs_at_entry.remove(i as int),
                    staging_extended(*old(game), *game),
                    delta == game.time.delta_micros,
                    draw_appended_only(*old(draw), *draw),
                    hooks_scripted(*old(game), *old(draw), *game, *draw, es),
                    log@ == log_at_entry + resume_calls_upto(
                        objs0[i as int].id,
                        orig,
                        delta,
                        j as int,
                    ),
                    log_at_entry == old(log)@ + all_resume_calls_upto(objs0, delta, i as int),
                    forall|i2: int|
                        #![trigger objs_at_entry[i2]]
                        0 <= i2 < i ==> {
                            &&& objs_at_entry[i2].id == old(game).game_objects@[i2].id
                            &&& objs_at_entry[i2].coroutines.pending@ == old(
                                game,
                            ).game_objects@[i2].coroutines.pending@
                            &&& exists|outcomes: Seq<ResumeOutcome>|
                                #![trigger outcomes.len()]
                                {
                                    &&& outcomes.len() == old(
                                        game,
                                    ).game_objects@[i2].coroutines.coroutines@.len()
                                    &&& objs_at_entry[i2].coroutines.coroutines@ == resumed_list(
                                        old(game).game_objects@[i2].coroutines.coroutines@,
                                        old(game).time.delta_micros,
                                        outcomes,
                                    ).filter(|c: Coroutine| coroutine_kept(c))
                                }
                            &&& forall|j2: int|
                                0 <= j2 < objs_at_entry[i2].coroutines.coroutines@.len()
                                    ==> coroutine_kept(objs_at_entry[i2].coroutines.coroutines@[j2])
                        },
            {
                let c = obj.coroutines.coroutines[j];
                proof {
                    assert(c == scheduled_coroutine(orig[j as int], delta));
                }
                if c.ready() {
                    log.push(HookCall::Resume { entity: obj.id, block: c.block });
                    let reply = host.resume(game, input, obj.id, c.block);
                    let ResumeReply { outcome, effects } = reply;
                    let ghost batch = effects@;
                    let ghost g_mid = *game;
                    let ghost d_mid = *draw;
                    apply_effects(game, draw, effects);
                    obj.coroutines.set_outcome(j, outcome);
                    proof {
                        assert(game_staged_only(g_mid, *game));
                        assert(staging_extended(*old(game), *game)) by {
                            crate::modules::gameplay::game::lemma_prefix_transitive(
                                old(game).pending_creates@,
                                g_mid.pending_creates@,
                                game.pending_creates@,
                            );
                            crate::modules::gameplay::game::lemma_prefix_transitive(
                                old(game).pending_deletes@,
                                g_mid.pending_deletes@,
                                game.pending_deletes@,
                            );
                            crate::modules::gameplay::game::lemma_prefix_transitive(
                                old(game).pending_coroutines@,
                                g_mid.pending_coroutines@,
                                game.pending_coroutines@,
                            );
                        }
                        lemma_appended_only_transitive(*old(draw), d_mid, *draw);
                        crate::modules::gameplay::game::lemma_hooks_scripted_concat(
                            *old(game),
                            *old(draw),
                            g_mid,
                            d_mid,
                            *game,
                            *draw,
                            es,
                            batch,
                        );
                        es = es + batch;
                        assert(resumes_this_frame(orig[j as int], delta));
                        assert(resume_calls_upto(objs0[i as int].id, orig, delta, j + 1)
                            =~= resume_calls_upto(objs0[i as int].id, orig, delta, j as int).push(
                            HookCall::Resume {
                                entity: objs0[i as int].id,
                                block: orig[j as int].block,
                            },
                        ));
                        assert(log@ =~= log_at_entry + resume_calls_upto(
                            objs0[i as int].id,
                            orig,
                            delta,
                            j + 1,
                        ));
                        outcomes = outcomes.push(outcome);
                        assert(obj.coroutines.coroutines@[j as int] == resumed_coroutine(
                            orig[j as int],
                            delta,
                            outcome,
                        ));
                    }
                } else {
                    proof {
                        assert(!resumes_this_frame(orig[j as int], delta));
                        assert(resume_calls_upto(objs0[i as int].id, orig, delta, j + 1)
                            =~= resume_calls_upto(objs0[i as int].id, orig, delta, j as int));
                        outcomes = outcomes.push(ResumeOutcome::Failed);
                        assert(obj.coroutines.coroutines@[j as int] == resumed_coroutine(
                            orig[j as int],
                            delta,
                            outcomes[j as int],
                        ));
                    }
                }
            }
            proof {
                assert(obj.coroutines.coroutines@ =~= resumed_list(orig, delta, outcomes));
            }
            obj.coroutines.retire();
            let ghost obj_final = obj;
            game.game_objects.insert(i, obj);
            proof {
                assert(game.game_objects@ =~= objs_at_entry.update(i as int, obj_final));
                assert(ids_of(game.game_objects@) =~= ids_of(objs_at_entry));
                assert(game.game_objects@[i as int] == obj_final);
                assert(obj_final.coroutines.coroutines@ == resumed_list(
                    orig,
                    delta,
                    outcomes,
                ).filter(|c: Coroutine| coroutine_kept(c)));
                assert(exists|os: Seq<ResumeOutcome>|
                    #![trigger os.len()]
                    {
                        &&& os.len() == old(game).game_objects@[i as int].coroutines.coroutines@.len()
                        &&& game.game_objects@[i as int].coroutines.coroutines@ == resumed_list(
                            old(game).game_objects@[i as int].coroutines.coroutines@,
                            old(game).time.delta_micros,
                            os,
                        ).filter(|c: Coroutine| coroutine_kept(c))
                    }) by {
                    assert(outcomes.len() == old(
                        game,
                    ).game_objects@[i as int].coroutines.coroutines@.len());
                    assert(game.game_objects@[i as int].coroutines.coroutines@ == resumed_list(
                        old(game).game_objects@[i as int].coroutines.coroutines@,
                        old(game).time.delta_micros,
                        outcomes,
                    ).filter(|c: Coroutine| coroutine_kept(c)));
                }
                assert(all_resume_calls_upto(objs0, delta, i + 1) =~= all_resume_calls_upto(
                    objs0,
                    delta,
                    i as int,
                ) + resume_calls_upto(objs0[i as int].id, orig, delta, orig.len() as int));
                assert(log@ =~= old(log)@ + all_resume_calls_upto(objs0, delta, i + 1));
                assert forall|i2: int|
                    #![trigger game.game_objects@[i2]]
                    0 <= i2 < i + 1 implies {
                    &&& game.game_objects@[i2].id == old(game).game_objects@[i2].id
                    &&& game.game_objects@[i2].coroutines.pending@ == old(
                        game,
                    ).game_objects@[i2].coroutines.pending@
                    &&& exists|outcomes: Seq<ResumeOutcome>|
                        #![trigger outcomes.len()]
                        {
                            &&& outcomes.len() == old(
                                game,
                            ).game_objects@[i2].coroutines.coroutines@.len()
                            &&& game.game_objects@[i2].coroutines.coroutines@ == resumed_list(
                                old(game).game_objects@[i2].coroutines.coroutines@,
                                old(game).time.delta_micros,
                                outcomes,
                            ).filter(|c: Coroutine| coroutine_kept(c))
                        }
                } by {
                    if i2 < i {
                        assert(game.game_objects@[i2] == objs_at_entry[i2]);
                        assert(objs_at_entry[i2].id == old(game).game_objects@[i2].id);
                        assert(objs_at_entry[i2].coroutines.pending@ == old(
                            game,
                        ).game_objects@[i2].coroutines.pending@);
                        let os2 = choose|os2: Seq<ResumeOutcome>|
                            #![trigger os2.len()]
                            {
                                &&& os2.len() == old(
                                    game,
                                ).game_objects@[i2].coroutines.coroutines@.len()
                                &&& objs_at_entry[i2].coroutines.coroutines@ == resumed_list(
                                    old(game).game_objects@[i2].coroutines.coroutines@,
                                    old(game).time.delta_micros,
                                    os2,
                                ).filter(|c: Coroutine| coroutine_kept(c))
                            };
                        assert(game.game_objects@[i2].coroutines.coroutines@ == resumed_list(
                            old(game).game_objects@[i2].coroutines.coroutines@,
                            old(game).time.delta_micros,
                            os2,
                        ).filter(|c: Coroutine| coroutine_kept(c)));
                    } else {
                        assert(game.game_objects@[i2] == obj_final);
                        assert(obj_final.id == objs0[i as int].id);
                        assert(obj_final.coroutines.pending@ == old(
                            game,
                        ).game_objects@[i2].coroutines.pending@);
                        assert(outcomes.len() == old(
                            game,
                        ).game_objects@[i2].coroutines.coroutines@.len());
                        assert(game.game_objects@[i2].coroutines.coroutines@ == resumed_list(
                            old(game).game_objects@[i2].coroutines.coroutines@,
                            old(game).time.delta_micros,
                            outcomes,
                        ).filter(|c: Coroutine| coroutine_kept(c)));
                    }
                }
            }
        }
    proof {
            assert forall|i: int|
                #![trigger game.game_objects@[i]]
                0 <= i < old(game).game_objects@.len() implies {
                &&& game.game_objects@[i].id == old(game).game_objects@[i].id
                &&& game.game_objects@[i].coroutines.pending@ == old(
                    game,
                ).game_objects@[i].coroutines.pending@
                &&& exists|outcomes: Seq<ResumeOutcome>|
                    #![trigger outcomes.len()]
                    {
                        &&& outcomes.len() == old(
                            game,
                        ).game_objects@[i].coroutines.coroutines@.len()
                        &&& game.game_objects@[i].coroutines.coroutines@ == resumed_list(
                            old(game).game_objects@[i].coroutines.coroutines@,
                            old(game).time.delta_micros,
                            outcomes,
                        ).filter(|c: Coroutine| coroutine_kept(c))
                    }
            } by {
            }
        }
    }
}

impl CoreModule {
    /// The tidy point's first half: hand each staged coroutine to the
    /// first live entity carrying its identity, in staging order, onto
    /// that entity's pending sublist; a coroutine staged under an identity
    /// not yet live stays staged.
    pub fn route_staged_coroutines(&mut self, game: &mut GameInner)
        ensures
            final(game).game_objects@.len() == old(game).game_objects@.len(),
            forall|i: int|
                #![trigger final(game).game_objects@[i]]
                0 <= i < old(game).game_objects@.len() ==> {
                    &&& final(game).game_objects@[i].id == old(game).game_objects@[i].id
                    &&& final(game).game_objects@[i].coroutines.coroutines@ == old(game).game_objects@[i].coroutines.coroutines@
                    &&& final(game).game_objects@[i].coroutines.pending@ == old(game).game_objects@[i].coroutines.pending@ + routed_upto(
                        old(game).pending_coroutines@,
                        ids_of(old(game).game_objects@),
                        i,
                        old(game).pending_coroutines@.len() as int,
                    )
                },
            final(game).pending_coroutines@ == kept_staged_upto(
                old(game).pending_coroutines@,
                ids_of(old(game).game_objects@),
                old(game).pending_coroutines@.len() as int,
            ),
            final(game).camera == old(game).camera,
            final(game).time == old(game).time,
            final(game).pending_creates@ == old(game).pending_creates@,
            final(game).pending_deletes@ == old(game).pending_deletes@,
    {
        let mut staged: Vec<(u64, Coroutine)> = Vec::new();
        std::mem::swap(&mut game.pending_coroutines, &mut staged);
        let ghost staged0 = staged@;
        let ghost ids0 = ids_of(old(game).game_objects@);
        let ghost mut k: int = 0;
        while staged.len() > 0
            invariant
                0 <= k <= staged0.len(),
                staged@ == staged0.subrange(k, staged0.len() as int),
                game.game_objects@.len() == old(game).game_objects@.len(),
                ids0 == ids_of(old(game).game_objects@),
                ids_of(game.game_objects@) == ids0,
                forall|i: int|
                    #![trigger game.game_objects@[i]]
                    0 <= i < old(game).game_objects@.len() ==> {
                        &&& game.game_objects@[i].id == old(game).game_objects@[i].id
                        &&& game.game_objects@[i].coroutines.coroutines@ == old(game).game_objects@[i].coroutines.coroutines@
                        &&& game.game_objects@[i].coroutines.pending@ == old(game).game_objects@[i].coroutines.pending@ + routed_upto(staged0, ids0, i, k)
                    },
                game.pending_coroutines@ == kept_staged_upto(staged0, ids0, k),
                game.camera == old(game).camera,
                game.time == old(game).time,
                game.pending_creates@ == old(game).pending_creates@,
                game.pending_deletes@ == old(game).pending_deletes@,
            decreases staged@.len(),
        {
            let entry = staged.remove(0);
            proof {
                assert(entry == staged0[k]);
            }
            let entity = entry.0;
            let coroutine = entry.1;
            match find_live_index(game, entity) {
                Some(idx) => {
                    let ghost objs_before = game.game_objects@;
                    let mut obj = game.game_objects.remove(idx);
                    obj.coroutines.push(coroutine);
                    let ghost obj_after = obj;
                    game.game_objects.insert(idx, obj);
                    proof {
                        assert(game.game_objects@ =~= objs_before.update(idx as int, obj_after));
                        assert(ids_of(game.game_objects@) =~= ids0);
                        assert forall|i: int|
                            0 <= i < old(game).game_objects@.len() implies {
                            &&& game.game_objects@[i].id == old(game).game_objects@[i].id
                            &&& game.game_objects@[i].coroutines.coroutines@ == old(game).game_objects@[i].coroutines.coroutines@
                        } by {
                            if i == idx as int {
                                assert(game.game_objects@[i] == obj_after);
                                assert(obj_after.id == objs_before[i].id);
                                assert(obj_after.coroutines.coroutines@ == objs_before[
                                    i
                                ].coroutines.coroutines@);
                                assert(objs_before[i].id == old(game).game_objects@[i].id);
                            } else {
                                assert(game.game_objects@[i] == objs_before[i]);
                            }
                        }
                        assert forall|i: int|
                            0 <= i < old(game).game_objects@.len() implies
                            game.game_objects@[i].coroutines.pending@ == old(game).game_objects@[i].coroutines.pending@ + routed_upto(
                                staged0,
                                ids0,
                                i,
                                k + 1,
                            ) by {
                            if i == idx as int {
                                assert(routed_upto(staged0, ids0, i, k + 1) =~= routed_upto(
                                    staged0,
                                    ids0,
                                    i,
                                    k,
                                ).push(staged0[k].1));
                                assert(game.game_objects@[i].coroutines.pending@ =~= old(game).game_objects@[i].coroutines.pending@ + routed_upto(
                                    staged0,
                                    ids0,
                                    i,
                                    k + 1,
                                ));
                            } else {
                                assert(routed_upto(staged0, ids0, i, k + 1) =~= routed_upto(
                                    staged0,
                                    ids0,
                                    i,
                                    k,
                                ));
                            }
                        }
                        assert(kept_staged_upto(staged0, ids0, k + 1) =~= kept_staged_upto(
                            staged0,
                            ids0,
                            k,
                        ));
                        assert(staged@ =~= staged0.subrange(k + 1, staged0.len() as int));
                        k = k + 1;
                    }
                }
                None => {
                    game.pending_coroutines.push(entry);
                    proof {
                        assert forall|i: int|
                            0 <= i < old(game).game_objects@.len() implies {
                            &&& game.game_objects@[i].id == old(game).game_objects@[i].id
                            &&& game.game_objects@[i].coroutines.coroutines@ == old(game).game_objects@[i].coroutines.coroutines@
                        } by {
                        }
                        assert(kept_staged_upto(staged0, ids0, k + 1) =~= kept_staged_upto(
                            staged0,
                            ids0,
                            k,
                        ).push(staged0[k]));
                        assert forall|i: int|
                            0 <= i < old(game).game_objects@.len() implies routed_upto(
                                staged0,
                                ids0,
                                i,
                                k + 1,
                            ) =~= routed_upto(staged0, ids0, i, k) by {
                            assert(first_with_id(ids0, staged0[k].0) is None);
                        }
                        assert(staged@ =~= staged0.subrange(k + 1, staged0.len() as int));
                        k = k + 1;
                    }
                }
            }
        }
        proof {
            assert(k == staged0.len());
        }
    }

    /// The tidy point's second half: every entity's pending coroutines
    /// join the end of its active list, exactly once, after the active
    /// list has finished iterating for this frame.
    pub fn tidy_all_coroutines(&mut self, game: &mut GameInner)
        ensures
            final(game).game_objects@.len() == old(game).game_objects@.len(),
            forall|i: int|
                0 <= i < old(game).game_objects@.len() ==> {
                    &&& final(game).game_objects@[i].id == old(game).game_objects@[i].id
                    &&& final(game).game_objects@[i].coroutines.coroutines@ == old(game).game_objects@[i].coroutines.coroutines@ + old(game).game_objects@[i].coroutines.pending@
                    &&& final(game).game_objects@[i].coroutines.pending@ == Seq::<
                        Coroutine,
                    >::empty()
                },
            final(game).camera == old(game).camera,
            final(game).time == old(game).time,
            final(game).pending_creates@ == old(game).pending_creates@,
            final(game).pending_deletes@ == old(game).pending_deletes@,
            final(game).pending_coroutines@ == old(game).pending_coroutines@,
    {
        let n = game.game_objects.len();
        for i in 0..n
            invariant
                n == game.game_objects@.len(),
                game.game_objects@.len() == old(game).game_objects@.len(),
                forall|i2: int|
                    0 <= i2 < i ==> {
                        &&& game.game_objects@[i2].id == old(game).game_objects@[i2].id
                        &&& game.game_objects@[i2].coroutines.coroutines@ == old(game).game_objects@[i2].coroutines.coroutines@ + old(game).game_objects@[i2].coroutines.pending@
                        &&& game.game_objects@[i2].coroutines.pending@ == Seq::<
                            Coroutine,
                        >::empty()
                    },
                forall|i2: int|
                    i <= i2 < n ==> game.game_objects@[i2] == old(game).game_objects@[i2],
                game.camera == old(game).camera,
                game.time == old(game).time,
                game.pending_creates@ == old(game).pending_creates@,
                game.pending_deletes@ == old(game).pending_deletes@,
                game.pending_coroutines@ == old(game).pending_coroutines@,
        {
            let ghost objs_before = game.game_objects@;
            let mut obj = game.game_objects.remove(i);
            obj.tidy_coroutines();
            game.game_objects.insert(i, obj);
            proof {
                assert(game.game_objects@ =~= objs_before.update(
                    i as int,
                    game.game_objects@[i as int],
                ));
            }
        }
    }
}

impl CoreModule {
    /// The deletion half of the merge point: every live entity whose
    /// identity a staged deletion request names is removed, its on-delete
    /// hook running exactly once, in live-list order, before the creation
    /// merge; an identity that is not live is a no-op, not an error. The
    /// drained deletion requests are gone; requests staged by the hooks
    /// themselves wait for the next frame.
    pub fn handle_pending_deletes<H: ScriptHost>(
        &mut self,
        host: &mut H,
        game: &mut GameInner,
        draw: &mut DrawQueueInner,
        input: &InputInner,
        log: &mut Vec<HookCall>,
    )
        ensures
            final(game).game_objects@ == kept_objs_upto(
                old(game).game_objects@,
                old(game).pending_deletes@,
                old(game).game_objects@.len() as int,
            ),
            final(log)@ == old(log)@ + deleted_calls_upto(
                old(game).game_objects@,
                old(game).pending_deletes@,
                old(game).game_objects@.len() as int,
            ),
            final(game).time == old(game).time,
            old(game).pending_creates@.is_prefix_of(final(game).pending_creates@),
            old(game).pending_coroutines@.is_prefix_of(final(game).pending_coroutines@),
            draw_appended_only(*old(draw), *final(draw)),
            exists|es: Seq<ScriptEffect>|
                #![trigger es.len()]
                {
                    &&& final(game).pending_deletes@ == staged_deletes_of(es)
                    &&& final(game).pending_creates@ == old(game).pending_creates@
                        + staged_creates_of(es)
                    &&& final(game).pending_coroutines@ == old(game).pending_coroutines@
                        + staged_coroutines_of(es)
                    &&& final(game).camera == camera_after(old(game).camera, es)
                    &&& final(draw).queue@ == old(draw).queue@ + drawn_of(es)
                    &&& final(draw).pending_fonts@ == old(draw).pending_fonts@ + fonts_of(es)
                    &&& final(draw).pending_spritesheets@ == old(draw).pending_spritesheets@
                        + sheets_of(es)
                    &&& final(draw).pending_sprites@ == old(draw).pending_sprites@ + slices_of(es)
                },
    {
        let mut deletes: Vec<u64> = Vec::new();
        std::mem::swap(&mut game.pending_deletes, &mut deletes);
        let mut live: Vec<GameObject> = Vec::new();
        std::mem::swap(&mut game.game_objects, &mut live);
        let ghost g_base = *game;
        let ghost mut es: Seq<ScriptEffect> = Seq::empty();
        proof {
            crate::modules::gameplay::game::lemma_scripted_only_refl(*game, *draw);
        }
        let ghost objs0 = live@;
        let ghost deletes0 = deletes@;
        let ghost mut k: int = 0;
        while live.len() > 0
            invariant
                0 <= k <= objs0.len(),
                live@ == objs0.subrange(k, objs0.len() as int),
                deletes@ == deletes0,
                game.game_objects@ == kept_objs_upto(objs0, deletes0, k),
                log@ == old(log)@ + deleted_calls_upto(objs0, deletes0, k),
                game.time == old(game).time,
                old(game).pending_creates@.is_prefix_of(game.pending_creates@),
                old(game).pending_coroutines@.is_prefix_of(game.pending_coroutines@),
                draw_appended_only(*old(draw), *draw),
                hooks_scripted(g_base, *old(draw), *game, *draw, es),
            decreases live@.len(),
        {
            let obj = live.remove(0);
            proof {
                assert(obj == objs0[k]);
            }
            if contains_id(&deletes, obj.id) {
                let id = obj.id;
                log.push(HookCall::Delete(id));
                let effects = host.on_delete(game, input, id);
                let ghost batch = effects@;
                let ghost g_mid = *game;
                let ghost d_mid = *draw;
                apply_effects(game, draw, effects);
                proof {
                    assert(game_staged_only(g_mid, *game));
                    crate::modules::gameplay::game::lemma_hooks_scripted_concat(
                        g_base,
                        *old(draw),
                        g_mid,
                        d_mid,
                        *game,
                        *draw,
                        es,
                        batch,
                    );
                    es = es + batch;
                    crate::modules::gameplay::game::lemma_prefix_transitive(
                        old(game).pending_creates@,
                        g_mid.pending_creates@,
                        game.pending_creates@,
                    );
                    crate::modules::gameplay::game::lemma_prefix_transitive(
                        old(game).pending_coroutines@,
                        g_mid.pending_coroutines@,
                        game.pending_coroutines@,
                    );
                    lemma_appended_only_transitive(*old(draw), d_mid, *draw);
                    assert(deleted_calls_upto(objs0, deletes0, k + 1) =~= deleted_calls_upto(
                        objs0,
                        deletes0,
                        k,
                    ).push(HookCall::Delete(objs0[k].id)));
                    assert(log@ =~= old(log)@ + deleted_calls_upto(objs0, deletes0, k + 1));
                    assert(kept_objs_upto(objs0, deletes0, k + 1) =~= kept_objs_upto(
                        objs0,
                        deletes0,
                        k,
                    ));
                }
            } else {
                game.game_objects.push(obj);
                proof {
                    assert(kept_objs_upto(objs0, deletes0, k + 1) =~= kept_objs_upto(
                        objs0,
                        deletes0,
                        k,
                    ).push(objs0[k]));
                    assert(deleted_calls_upto(objs0, deletes0, k + 1) =~= deleted_calls_upto(
                        objs0,
                        deletes0,
                        k,
                    ));
                }
            }
            proof {
                assert(live@ =~= objs0.subrange(k + 1, objs0.len() as int));
                k = k + 1;
            }
        }
        proof {
            assert(k == objs0.len());
            assert(es.len() >= 0);
            assert(game.pending_deletes@ =~= staged_deletes_of(es));
            assert(game.pending_creates@ =~= old(game).pending_creates@ + staged_creates_of(es));
            assert(game.pending_coroutines@ =~= old(game).pending_coroutines@
                + staged_coroutines_of(es));
        }
    }

    /// The creation half of the merge point: every staged entity joins the
    /// end of the live list, in staging order, its on-start hook running
    /// exactly once as it joins. The drained creation requests are gone;
    /// requests staged by the hooks themselves wait for the next frame.
    pub fn handle_pending_creates<H: ScriptHost>(
        &mut self,
        host: &mut H,
        game: &mut GameInner,
        draw: &mut DrawQueueInner,
        input: &InputInner,
        log: &mut Vec<HookCall>,
    )
        ensures
            final(game).game_objects@ == old(game).game_objects@ + old(game).pending_creates@,
            final(log)@ == old(log)@ + ids_of(old(game).pending_creates@).map_values(
                |id: u64| HookCall::Start(id),
            ),
            final(game).time == old(game).time,
            old(game).pending_deletes@.is_prefix_of(final(game).pending_deletes@),
            old(game).pending_coroutines@.is_prefix_of(final(game).pending_coroutines@),
            draw_appended_only(*old(draw), *final(draw)),
            exists|es: Seq<ScriptEffect>|
                #![trigger es.len()]
                {
                    &&& final(game).pending_creates@ == staged_creates_of(es)
                    &&& final(game).pending_deletes@ == old(game).pending_deletes@
                        + staged_deletes_of(es)
                    &&& final(game).pending_coroutines@ == old(game).pending_coroutines@
                        + staged_coroutines_of(es)
                    &&& final(game).camera == camera_after(old(game).camera, es)
                    &&& final(draw).queue@ == old(draw).queue@ + drawn_of(es)
                    &&& final(draw).pending_fonts@ == old(draw).pending_fonts@ + fonts_of(es)
                    &&& final(draw).pending_spritesheets@ == old(draw).pending_spritesheets@
                        + sheets_of(es)
                    &&& final(draw).pending_sprites@ == old(draw).pending_sprites@ + slices_of(es)
                },
    {
        let ghost start_calls = ids_of(old(game).pending_creates@).map_values(
            |id: u64| HookCall::Start(id),
        );
        let mut creates: Vec<GameObject> = Vec::new();
        std::mem::swap(&mut game.pending_creates, &mut creates);
        let ghost g_base = *game;
        let ghost mut es: Seq<ScriptEffect> = Seq::empty();
        proof {
            crate::modules::gameplay::game::lemma_scripted_only_refl(*game, *draw);
        }
        let ghost creates0 = creates@;
        let ghost mut k: int = 0;
        while creates.len() > 0
            invariant
                0 <= k <= creates0.len(),
                creates@ == creates0.subrange(k, creates0.len() as int),
                start_calls == ids_of(creates0).map_values(|id: u64| HookCall::Start(id)),
                game.game_objects@ == old(game).game_objects@ + creates0.subrange(0, k),
                log@ == old(log)@ + start_calls.subrange(0, k),
                game.time == old(game).time,
                old(game).pending_deletes@.is_prefix_of(game.pending_deletes@),
                old(game).pending_coroutines@.is_prefix_of(game.pending_coroutines@),
                draw_appended_only(*old(draw), *draw),
                hooks_scripted(g_base, *old(draw), *game, *draw, es),
            decreases creates@.len(),
        {
            let obj = creates.remove(0);
            proof {
                assert(obj == creates0[k]);
            }
            let id = obj.id;
            game.game_objects.push(obj);
            log.push(HookCall::Start(id));
            let effects = host.on_start(game, input, id);
            let ghost batch = effects@;
            let ghost g_mid = *game;
            let ghost d_mid = *draw;
            apply_effects(game, draw, effects);
            proof {
                assert(game_staged_only(g_mid, *game));
                crate::modules::gameplay::game::lemma_hooks_scripted_concat(
                    g_base,
                    *old(draw),
                    g_mid,
                    d_mid,
                    *game,
                    *draw,
                    es,
                    batch,
                );
                es = es + batch;
                crate::modules::gameplay::game::lemma_prefix_transitive(
                    old(game).pending_deletes@,
                    g_mid.pending_deletes@,
                    game.pending_deletes@,
                );
                crate::modules::gameplay::game::lemma_prefix_transitive(
                    old(game).pending_coroutines@,
                    g_mid.pending_coroutines@,
                    game.pending_coroutines@,
                );
                lemma_appended_only_transitive(*old(draw), d_mid, *draw);
                assert(ids_of(creates0)[k] == creates0[k].id);
                assert(start_calls[k] == HookCall::Start(creates0[k].id));
                assert(start_calls.subrange(0, k + 1) =~= start_calls.subrange(0, k).push(
                    start_calls[k],
                ));
                assert(log@ =~= old(log)@ + start_calls.subrange(0, k + 1));
                assert(creates0.subrange(0, k + 1) =~= creates0.subrange(0, k).push(creates0[k]));
                assert(game.game_objects@ =~= old(game).game_objects@ + creates0.subrange(
                    0,
                    k + 1,
                ));
                assert(creates@ =~= creates0.subrange(k + 1, creates0.len() as int));
                k = k + 1;
            }
        }
        proof {
            assert(k == creates0.len());
            assert(creates0.subrange(0, creates0.len() as int) =~= creates0);
            assert(start_calls.subrange(0, start_calls.len() as int) =~= start_calls);
            assert(es.len() >= 0);
            assert(game.pending_creates@ =~= staged_creates_of(es));
            assert(game.pending_deletes@ =~= old(game).pending_deletes@ + staged_deletes_of(es));
            assert(game.pending_coroutines@ =~= old(game).pending_coroutines@
                + staged_coroutines_of(es));
        }
    }

    /// Drop every staged coroutine whose entity is no longer (or not yet
    /// known to be) live: a deleted entity's coroutines are never resumed.
    pub fn drop_orphan_coroutines(&mut self, game: &mut GameInner)
        ensures
            final(game).pending_coroutines@ == surviving_staged_upto(
                old(game).pending_coroutines@,
                ids_of(old(game).game_objects@),
                old(game).pending_coroutines@.len() as int,
            ),
            final(game).game_objects@ == old(game).game_objects@,
            final(game).time == old(game).time,
            final(game).camera == old(game).camera,
            final(game).pending_creates@ == old(game).pending_creates@,
            final(game).pending_deletes@ == old(game).pending_deletes@,
    {
        let mut staged: Vec<(u64, Coroutine)> = Vec::new();
        std::mem::swap(&mut game.pending_coroutines, &mut staged);
        let ghost staged0 = staged@;
        let ghost ids0 = ids_of(old(game).game_objects@);
        let ghost mut k: int = 0;
        while staged.len() > 0
            invariant
                0 <= k <= staged0.len(),
                staged@ == staged0.subrange(k, staged0.len() as int),
                ids0 == ids_of(old(game).game_objects@),
                game.pending_coroutines@ == surviving_staged_upto(staged0, ids0, k),
                game.game_objects@ == old(game).game_objects@,
                game.time == old(game).time,
                game.camera == old(game).camera,
                game.pending_creates@ == old(game).pending_creates@,
                game.pending_deletes@ == old(game).pending_deletes@,
            decreases staged@.len(),
        {
            let entry = staged.remove(0);
            proof {
                assert(entry == staged0[k]);
            }
            let keep = match find_live_index(game, entry.0) {
                Some(idx) => {
                    proof {
                        assert(ids_of(game.game_objects@)[idx as int] == game.game_objects@[
                            idx as int
                        ].id);
                        assert(ids0.contains(staged0[k].0));
                    }
                    true
                }
                None => {
                    proof {
                        assert(!ids0.contains(staged0[k].0)) by {
                            if ids0.contains(staged0[k].0) {
                                let i = choose|i: int|
                                    0 <= i < ids0.len() && ids0[i] == staged0[k].0;
                                lemma_first_with_id_somewhere(ids0, staged0[k].0, i);
                            }
                        }
                    }
                    false
                }
            };
            if keep {
                game.pending_coroutines.push(entry);
                proof {
                    assert(surviving_staged_upto(staged0, ids0, k + 1) =~= surviving_staged_upto(
                        staged0,
                        ids0,
                        k,
                    ).push(staged0[k]));
                }
            } else {
                proof {
                    assert(surviving_staged_upto(staged0, ids0, k + 1) =~= surviving_staged_upto(
                        staged0,
                        ids0,
                        k,
                    ));
                }
            }
            proof {
                assert(staged@ =~= staged0.subrange(k + 1, staged0.len() as int));
                k = k + 1;
            }
        }
        proof {
            assert(k == staged0.len());
        }
    }
}

impl CoreModule {
    /// The whole update phase: every live entity's update hook runs
    /// exactly once, in order, before any coroutine resumes; then every
    /// ready coroutine resumes exactly once; then, once the active lists
    /// have finished iterating, staged coroutines are routed and merged.
    /// The live list keeps its identities throughout — structural changes
    /// wait for the merge point — and the hook journal grows by exactly
    /// one update record per live entity, in order, followed only by
    /// resumption records.
    #[verifier::rlimit(50)]
    pub fn update<H: ScriptHost>(
        &mut self,
        host: &mut H,
        game: &mut GameInner,
        draw: &mut DrawQueueInner,
        input: &InputInner,
        log: &mut Vec<HookCall>,
    )
        ensures
            ids_of(final(game).game_objects@) == ids_of(old(game).game_objects@),
            final(game).time == old(game).time,
            draw_appended_only(*old(draw), *final(draw)),
            old(game).pending_creates@.is_prefix_of(final(game).pending_creates@),
            old(game).pending_deletes@.is_prefix_of(final(game).pending_deletes@),
            exists|es: Seq<ScriptEffect>|
                #![trigger es.len()]
                {
                    &&& final(game).pending_creates@ == old(game).pending_creates@
                        + staged_creates_of(es)
                    &&& final(game).pending_deletes@ == old(game).pending_deletes@
                        + staged_deletes_of(es)
                    &&& final(game).camera == camera_after(old(game).camera, es)
                    &&& final(draw).queue@ == old(draw).queue@ + drawn_of(es)
                    &&& final(draw).pending_fonts@ == old(draw).pending_fonts@ + fonts_of(es)
                    &&& final(draw).pending_spritesheets@ == old(draw).pending_spritesheets@
                        + sheets_of(es)
                    &&& final(draw).pending_sprites@ == old(draw).pending_sprites@ + slices_of(es)
                },
            old(log)@.is_prefix_of(final(log)@),
            final(log)@ == old(log)@ + ids_of(old(game).game_objects@).map_values(
                |id: u64| HookCall::Update(id),
            ) + all_resume_calls_upto(
                old(game).game_objects@,
                old(game).time.delta_micros,
                old(game).game_objects@.len() as int,
            ),
            forall|i: int|
                #![trigger final(game).game_objects@[i]]
                0 <= i < old(game).game_objects@.len() ==> frame_coroutines_settled(
                    old(game).game_objects@[i],
                    final(game).game_objects@[i],
                    old(game).time.delta_micros,
                ),
    {
        let ghost update_calls = ids_of(old(game).game_objects@).map_values(
            |id: u64| HookCall::Update(id),
        );
        self.run_update_hooks(host, game, draw, input, log);
        let ghost g1 = *game;
        let ghost d1 = *draw;
        let ghost log1 = log@;
        self.execute_coroutines(host, game, draw, input, log);
        let ghost g2 = *game;
        let ghost log2 = log@;
        self.route_staged_coroutines(game);
        let ghost g3 = *game;
        self.tidy_all_coroutines(game);
        proof {
            assert(g1.game_objects@ == old(game).game_objects@);
            assert(g1.time == old(game).time);
            let es1 = choose|es1: Seq<ScriptEffect>|
                #![trigger es1.len()]
                hooks_scripted(*old(game), *old(draw), g1, d1, es1);
            let es2 = choose|es2: Seq<ScriptEffect>|
                #![trigger es2.len()]
                hooks_scripted(g1, d1, g2, *draw, es2);
            crate::modules::gameplay::game::lemma_hooks_scripted_concat(
                *old(game),
                *old(draw),
                g1,
                d1,
                g2,
                *draw,
                es1,
                es2,
            );
            let es = es1 + es2;
            assert(es.len() >= 0);
            assert(game.pending_creates@ == g2.pending_creates@);
            assert(game.pending_deletes@ == g2.pending_deletes@);
            assert(game.camera == g2.camera);
            assert(game.pending_creates@ == old(game).pending_creates@ + staged_creates_of(es));
            assert(game.pending_deletes@ == old(game).pending_deletes@ + staged_deletes_of(es));
            assert(game.camera == camera_after(old(game).camera, es));
            assert(old(game).pending_creates@.is_prefix_of(game.pending_creates@)) by {
                assert(old(game).pending_creates@ =~= game.pending_creates@.subrange(
                    0,
                    old(game).pending_creates@.len() as int,
                ));
            }
            assert(old(game).pending_deletes@.is_prefix_of(game.pending_deletes@)) by {
                assert(old(game).pending_deletes@ =~= game.pending_deletes@.subrange(
                    0,
                    old(game).pending_deletes@.len() as int,
                ));
            }
            assert(ids_of(g2.game_objects@) == ids_of(g1.game_objects@));
            assert(ids_of(g3.game_objects@) =~= ids_of(g2.game_objects@));
            assert(ids_of(game.game_objects@) =~= ids_of(g3.game_objects@));
            lemma_appended_only_transitive(*old(draw), d1, *draw);
            assert(log1 == old(log)@ + update_calls);
            assert(log2 == log1 + all_resume_calls_upto(
                g1.game_objects@,
                g1.time.delta_micros,
                g1.game_objects@.len() as int,
            ));
            assert(log@ == log2);
            assert(log@ =~= old(log)@ + update_calls + all_resume_calls_upto(
                old(game).game_objects@,
                old(game).time.delta_micros,
                old(game).game_objects@.len() as int,
            ));
            assert(old(log)@.is_prefix_of(log@)) by {
                assert(old(log)@ =~= log@.subrange(0, old(log)@.len() as int));
            }
            assert forall|i: int|
                #![trigger game.game_objects@[i]]
                0 <= i < old(game).game_objects@.len() implies frame_coroutines_settled(
                old(game).game_objects@[i],
                game.game_objects@[i],
                old(game).time.delta_micros,
            ) by {
                assert(g2.game_objects@[i].id == old(game).game_objects@[i].id);
                assert(g2.game_objects@[i].coroutines.pending@ == old(
                    game,
                ).game_objects@[i].coroutines.pending@);
                let os = choose|os: Seq<ResumeOutcome>|
                    #![trigger os.len()]
                    {
                        &&& os.len() == old(game).game_objects@[i].coroutines.coroutines@.len()
                        &&& g2.game_objects@[i].coroutines.coroutines@ == resumed_list(
                            old(game).game_objects@[i].coroutines.coroutines@,
                            old(game).time.delta_micros,
                            os,
                        ).filter(|c: Coroutine| coroutine_kept(c))
                    };
                assert(g3.game_objects@[i].coroutines.coroutines@
                    == g2.game_objects@[i].coroutines.coroutines@);
                let routed = routed_upto(
                    g2.pending_coroutines@,
                    ids_of(g2.game_objects@),
                    i,
                    g2.pending_coroutines@.len() as int,
                );
                assert(g3.game_objects@[i].coroutines.pending@
                    == g2.game_objects@[i].coroutines.pending@ + routed);
                assert(game.game_objects@[i].coroutines.coroutines@
                    == g3.game_objects@[i].coroutines.coroutines@ + g3.game_objects@[
                    i
                ].coroutines.pending@);
                assert(game.game_objects@[i].coroutines.pending@ == Seq::<Coroutine>::empty());
                assert(os.len() + routed.len() >= 0);
                assert(game.game_objects@[i].coroutines.coroutines@ =~= resumed_list(
                    old(game).game_objects@[i].coroutines.coroutines@,
                    old(game).time.delta_micros,
                    os,
                ).filter(|c: Coroutine| coroutine_kept(c)) + old(
                    game,
                ).game_objects@[i].coroutines.pending@ + routed);
            }
        }
    }

    /// The whole merge point: first the deletion merge, then the creation
    /// merge — so an entity staged for creation by an on-delete hook is
    /// merged in the same frame — then the purge of orphaned coroutines.
    /// The hook journal grows by exactly one on-delete record per removed
    /// entity, in live-list order, followed by exactly one on-start record
    /// per merged entity, in staging order; the merged entities are the
    /// staged ones, followed by any staged by the on-delete hooks
    /// themselves.
    pub fn post_update<H: ScriptHost>(
        &mut self,
        host: &mut H,
        game: &mut GameInner,
        draw: &mut DrawQueueInner,
        input: &InputInner,
        log: &mut Vec<HookCall>,
    )
        ensures
            final(game).time == old(game).time,
            draw_appended_only(*old(draw), *final(draw)),
            old(log)@.is_prefix_of(final(log)@),
            exists|es_removed: Seq<ScriptEffect>, es_merged: Seq<ScriptEffect>|
                #![trigger es_removed.len(), es_merged.len()]
                {
                    &&& final(game).pending_deletes@ == staged_deletes_of(es_removed)
                        + staged_deletes_of(es_merged)
                    &&& final(game).pending_creates@ == staged_creates_of(es_merged)
                },
            exists|merged: Seq<GameObject>|
                #![auto]
                {
                    &&& old(game).pending_creates@.is_prefix_of(merged)
                    &&& final(game).game_objects@ == kept_objs_upto(
                        old(game).game_objects@,
                        old(game).pending_deletes@,
                        old(game).game_objects@.len() as int,
                    ) + merged
                    &&& final(log)@ == old(log)@ + deleted_calls_upto(
                        old(game).game_objects@,
                        old(game).pending_deletes@,
                        old(game).game_objects@.len() as int,
                    ) + ids_of(merged).map_values(|id: u64| HookCall::Start(id))
                },
    {
        self.handle_pending_deletes(host, game, draw, input, log);
        let ghost g1 = *game;
        let ghost d1 = *draw;
        let ghost log1 = log@;
        self.handle_pending_creates(host, game, draw, input, log);
        let ghost g2 = *game;
        self.drop_orphan_coroutines(game);
        proof {
            lemma_appended_only_transitive(*old(draw), d1, *draw);
            let es1 = choose|es1: Seq<ScriptEffect>|
                #![trigger es1.len()]
                {
                    &&& g1.pending_deletes@ == staged_deletes_of(es1)
                    &&& g1.pending_creates@ == old(game).pending_creates@ + staged_creates_of(es1)
                };
            let es2 = choose|es2: Seq<ScriptEffect>|
                #![trigger es2.len()]
                {
                    &&& g2.pending_creates@ == staged_creates_of(es2)
                    &&& g2.pending_deletes@ == g1.pending_deletes@ + staged_deletes_of(es2)
                };
            assert(es1.len() + es2.len() >= 0);
            assert(game.pending_deletes@ == staged_deletes_of(es1) + staged_deletes_of(es2));
            assert(game.pending_creates@ == staged_creates_of(es2));
            let merged = g1.pending_creates@;
            assert(old(log)@.is_prefix_of(log@)) by {
                assert(old(log)@ =~= log@.subrange(0, old(log)@.len() as int));
            }
            let deleted = deleted_calls_upto(
                old(game).game_objects@,
                old(game).pending_deletes@,
                old(game).game_objects@.len() as int,
            );
            assert(log@ =~= old(log)@ + deleted + ids_of(merged).map_values(
                |id: u64| HookCall::Start(id),
            ));
            assert({
                &&& old(game).pending_creates@.is_prefix_of(merged)
                &&& final(game).game_objects@ == kept_objs_upto(
                    old(game).game_objects@,
                    old(game).pending_deletes@,
                    old(game).game_objects@.len() as int,
                ) + merged
                &&& final(log)@ == old(log)@ + deleted + ids_of(merged).map_values(
                    |id: u64| HookCall::Start(id),
                )
            });
        }
    }
}

/// How many positions of a sequence hold a value.
pub open spec fn occurrences<T>(s: Seq<T>, x: T) -> nat
    decreases s.len(),
{
    if s.len() == 0 {
        0nat
    } else {
        occurrences(s.drop_last(), x) + if s.last() == x {
            1nat
        } else {
            0nat
        }
    }
}

pub proof fn lemma_occurrences_concat<T>(a: Seq<T>, b: Seq<T>, x: T)
    ensures
        occurrences(a + b, x) == occurrences(a, x) + occurrences(b, x),
    decreases b.len(),
{
    if b.len() == 0 {
        assert(a + b =~= a);
    } else {
        assert((a + b).drop_last() =~= a + b.drop_last());
        assert((a + b).last() == b.last());
        lemma_occurrences_concat(a, b.drop_last(), x);
    }
}

proof fn lemma_occurrences_start_map(ids: Seq<u64>, id: u64)
    ensures
        occurrences(ids.map_values(|i: u64| HookCall::Start(i)), HookCall::Start(id))
            == occurrences(ids, id),
    decreases ids.len(),
{
    if ids.len() > 0 {
        let mapped = ids.map_values(|i: u64| HookCall::Start(i));
        assert(mapped.drop_last() =~= ids.drop_last().map_values(|i: u64| HookCall::Start(i)));
        assert(mapped.last() == HookCall::Start(ids.last()));
        lemma_occurrences_start_map(ids.drop_last(), id);
    }
}

proof fn lemma_deleted_calls_count(objs: Seq<GameObject>, deletes: Seq<u64>, id: u64, k: int)
    requires
        deletes.contains(id),
        0 <= k <= objs.len(),
    ensures
        occurrences(deleted_calls_upto(objs, deletes, k), HookCall::Delete(id)) == occurrences(
            ids_of(objs).subrange(0, k),
            id,
        ),
    decreases k,
{
    if k == 0 {
        assert(ids_of(objs).subrange(0, 0) =~= Seq::<u64>::empty());
    } else {
        lemma_deleted_calls_count(objs, deletes, id, k - 1);
        let prev = deleted_calls_upto(objs, deletes, k - 1);
        if deletes.contains(objs[k - 1].id) {
            assert(deleted_calls_upto(objs, deletes, k) =~= prev.push(
                HookCall::Delete(objs[k - 1].id),
            ));
            assert(prev.push(HookCall::Delete(objs[k - 1].id)).drop_last() =~= prev);
        } else {
            assert(deleted_calls_upto(objs, deletes, k) =~= prev);
            assert(objs[k - 1].id != id);
        }
        assert(ids_of(objs).subrange(0, k).drop_last() =~= ids_of(objs).subrange(0, k - 1));
        assert(ids_of(objs).subrange(0, k).last() == objs[k - 1].id);
    }
}

proof fn lemma_kept_objs_never_deleted(objs: Seq<GameObject>, deletes: Seq<u64>, id: u64, k: int)
    requires
        deletes.contains(id),
        0 <= k <= objs.len(),
    ensures
        !ids_of(kept_objs_upto(objs, deletes, k)).contains(id),
    decreases k,
{
    if k > 0 {
        lemma_kept_objs_never_deleted(objs, deletes, id, k - 1);
        let prev = kept_objs_upto(objs, deletes, k - 1);
        if deletes.contains(objs[k - 1].id) {
            assert(kept_objs_upto(objs, deletes, k) =~= prev);
        } else {
            assert(kept_objs_upto(objs, deletes, k) =~= prev.push(objs[k - 1]));
            assert(ids_of(prev.push(objs[k - 1])) =~= ids_of(prev).push(objs[k - 1].id));
            assert(objs[k - 1].id != id);
            let pushed = ids_of(prev).push(objs[k - 1].id);
            assert forall|i: int| 0 <= i < pushed.len() implies pushed[i] != id by {
                if i < ids_of(prev).len() {
                    assert(pushed[i] == ids_of(prev)[i]);
                    if ids_of(prev)[i] == id {
                        assert(ids_of(prev).contains(id));
                    }
                }
            }
            assert(!pushed.contains(id));
        }
    }
}

/// An entity staged for creation under an identity the staging list names
/// once is started exactly once by the creation merge — its on-start
/// record appears exactly once in the journal extension — and it joins the
/// live list exactly once.
pub proof fn lemma_on_start_exactly_once(
    live: Seq<GameObject>,
    creates: Seq<GameObject>,
    id: u64,
)
    requires
        occurrences(ids_of(creates), id) == 1,
    ensures
        occurrences(
            ids_of(creates).map_values(|i: u64| HookCall::Start(i)),
            HookCall::Start(id),
        ) == 1,
        occurrences(ids_of(live + creates), id) == occurrences(ids_of(live), id) + 1,
{
    lemma_occurrences_start_map(ids_of(creates), id);
    assert(ids_of(live + creates) =~= ids_of(live) + ids_of(creates));
    lemma_occurrences_concat(ids_of(live), ids_of(creates), id);
}

/// An entity whose identity is staged for deletion, and which is live
/// exactly once, has its on-delete hook run exactly once by the deletion
/// merge — its on-delete record appears exactly once in the journal
/// extension — and its identity never appears in the live list after the
/// merge point.
pub proof fn lemma_on_delete_exactly_once(objs: Seq<GameObject>, deletes: Seq<u64>, id: u64)
    requires
        deletes.contains(id),
        occurrences(ids_of(objs), id) == 1,
    ensures
        occurrences(
            deleted_calls_upto(objs, deletes, objs.len() as int),
            HookCall::Delete(id),
        ) == 1,
        !ids_of(kept_objs_upto(objs, deletes, objs.len() as int)).contains(id),
{
    lemma_deleted_calls_count(objs, deletes, id, objs.len() as int);
    assert(ids_of(objs).subrange(0, objs.len() as int) =~= ids_of(objs));
    lemma_kept_objs_never_deleted(objs, deletes, id, objs.len() as int);
}

/// An entity whose identity is staged for deletion is absent from the
/// deletion merge's survivors; if its identity stands in the live list
/// after the merge at all, it entered among the entities the merge
/// appended — that is, only as a freshly created entity.
pub proof fn lemma_deleted_absent_unless_recreated(
    objs: Seq<GameObject>,
    deletes: Seq<u64>,
    merged: Seq<GameObject>,
    id: u64,
)
    requires
        deletes.contains(id),
    ensures
        ids_of(kept_objs_upto(objs, deletes, objs.len() as int) + merged).contains(id)
            ==> ids_of(merged).contains(id),
{
    lemma_kept_objs_never_deleted(objs, deletes, id, objs.len() as int);
    let kept = kept_objs_upto(objs, deletes, objs.len() as int);
    assert(ids_of(kept + merged) =~= ids_of(kept) + ids_of(merged));
    if ids_of(kept + merged).contains(id) {
        let i = choose|i: int|
            0 <= i < ids_of(kept + merged).len() && ids_of(kept + merged)[i] == id;
        if i < ids_of(kept).len() {
            assert(ids_of(kept)[i] == id);
            assert(ids_of(kept).contains(id));
        } else {
            assert(ids_of(merged)[i - ids_of(kept).len()] == id);
            assert(ids_of(merged).contains(id));
        }
    }
}

proof fn lemma_first_with_id_somewhere(ids: Seq<u64>, id: u64, i: int)
    requires
        0 <= i < ids.len(),
        ids[i] == id,
    ensures
        first_with_id(ids, id) is Some,
    decreases i,
{
    if ids[0] != id {
        lemma_first_with_id_somewhere(ids.drop_first(), id, i - 1);
    }
}

} // verus!
