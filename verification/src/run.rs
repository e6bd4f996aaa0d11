//! A resolution from beginning to end, in a world that answers each action:
//! the model against which the order of the actions is stated.

use crate::schema::is_schema_text;
use crate::candidates::{distinct, with_candidate};
use crate::registry::{interpret_spec, request_url_spec, OutcomeView};
use crate::resolver::{
    initial, lemma_step_keeps_wf, outcome, pending, state_wf, step, ActionView, EventView, Phase,
    State,
};
use crate::text::redacted;
use vstd::prelude::*;

verus! {

/// What a resolution meets: the cache, the registries and whether the cache
/// can be written.
pub struct World {
    /// The cache, from key to text.
    pub cache: Map<Seq<char>, Seq<char>>,
    /// What the registry of each network answers, in the order of the
    /// networks.
    pub answers: Seq<EventView>,
    /// Whether a write to the cache succeeds.
    pub writable: bool,
}

/// A resolution that has run: where it ended, what became of the world, and
/// the actions that were performed, in their order.
pub struct Run {
    pub state: State,
    pub world: World,
    pub actions: Seq<ActionView>,
}

/// The world has one answer for each network, and each is that of a
/// registry: a reply, or none.
pub open spec fn world_fits(w: World, networks: Seq<(Seq<char>, Seq<char>)>) -> bool {
    &&& w.answers.len() == networks.len()
    &&& forall|i: int|
        0 <= i < w.answers.len() ==> (#[trigger] w.answers[i]) is Reply || w.answers[i] is Unreachable
}

/// The event with which the world answers an action.
pub open spec fn answer(w: World, action: ActionView) -> EventView {
    match action {
        ActionView::ReadCache { key } => if w.cache.contains_key(key) {
            EventView::CacheHit { text: w.cache[key] }
        } else {
            EventView::CacheMiss
        },
        ActionView::Query { index, .. } => w.answers[index],
        ActionView::Store { .. } => if w.writable {
            EventView::Stored
        } else {
            EventView::StoreFailed { cause: Seq::empty() }
        },
        ActionView::Done => EventView::Stored,
    }
}

/// The world after an action: a write changes the cache, where the cache
/// can be written.
pub open spec fn effect(w: World, action: ActionView) -> World {
    match action {
        ActionView::Store { key, text } => if w.writable {
            World { cache: w.cache.insert(key, text), ..w }
        } else {
            w
        },
        _ => w,
    }
}

/// Drives a resolver: performs the pending action, hands back the answer,
/// and so on until nothing is pending or `fuel` actions were performed.
pub open spec fn run(s: State, w: World, fuel: nat) -> Run
    decreases fuel,
{
    if fuel == 0 || pending(s) is Done {
        Run { state: s, world: w, actions: Seq::empty() }
    } else {
        let action = pending(s);
        let rest = run(step(s, answer(w, action)), effect(w, action), (fuel - 1) as nat);
        Run { state: rest.state, world: rest.world, actions: seq![action] + rest.actions }
    }
}

/// A whole resolution of the address with cache key `key`. No resolution
/// takes more actions than one for the cache, one for each network and one
/// to store.
pub open spec fn resolve(
    networks: Seq<(Seq<char>, Seq<char>)>,
    api_key: Seq<char>,
    key: Seq<char>,
    w: World,
) -> Run {
    run(initial(networks, api_key, key), w, networks.len() + 2)
}

/// The request to the network at `index`.
pub open spec fn query_action(
    networks: Seq<(Seq<char>, Seq<char>)>,
    api_key: Seq<char>,
    key: Seq<char>,
    index: int,
) -> ActionView {
    ActionView::Query {
        index,
        chain_id: networks[index].0,
        url: request_url_spec(networks[index].0, key, api_key),
        log_url: redacted(request_url_spec(networks[index].0, key, api_key), api_key),
    }
}

/// The candidates after one more answer: a reply that holds a schema adds
/// it, unless it is there already; any other answer adds nothing.
pub open spec fn with_answer(found: Seq<Seq<char>>, answer: EventView) -> Seq<Seq<char>> {
    match answer {
        EventView::Reply { body } => match interpret_spec(body) {
            OutcomeView::Found(text) => with_candidate(found, text),
            _ => found,
        },
        _ => found,
    }
}

/// The candidates that the answers from `from` on add to `found`, in the
/// order of the networks.
pub open spec fn gathered(found: Seq<Seq<char>>, answers: Seq<EventView>, from: int) -> Seq<
    Seq<char>,
>
    decreases answers.len() - from,
{
    if from < 0 || from >= answers.len() {
        found
    } else {
        gathered(with_answer(found, answers[from]), answers, from + 1)
    }
}

/// From a state in which a network is in turn, every remaining network is
/// asked once, in order, whatever the answers; then the first candidate is
/// stored, if there is one.
proof fn lemma_queries(s: State, w: World, fuel: nat)
    requires
        state_wf(s),
        s.phase == Phase::NetworkQuery,
        world_fits(w, s.networks),
        fuel >= s.networks.len() - s.next + 1,
    ensures
        ({
            let r = run(s, w, fuel);
            let m = s.networks.len() - s.next;
            &&& state_wf(r.state)
            &&& r.state.networks == s.networks
            &&& r.state.key == s.key
            &&& r.state.candidates == gathered(s.candidates, w.answers, s.next)
            &&& r.state.phase == Phase::Resolved || r.state.phase == Phase::Failed
            &&& forall|i: int|
                0 <= i < m ==> #[trigger] r.actions[i] == query_action(
                    s.networks,
                    s.api_key,
                    s.key,
                    s.next + i,
                )
            &&& r.state.phase == Phase::Failed ==> r.actions.len() == m && r.world == w
            &&& r.state.phase == Phase::Resolved ==> {
                &&& r.actions.len() == m + 1
                &&& r.actions[m] == (ActionView::Store { key: s.key, text: r.state.candidates[0] })
                &&& r.world == effect(w, r.actions[m])
            }
        }),
    decreases s.networks.len() - s.next,
{
    let m = s.networks.len() - s.next;
    let action = pending(s);
    assert(action == query_action(s.networks, s.api_key, s.key, s.next));
    let event = answer(w, action);
    assert(event == w.answers[s.next]);
    let t = step(s, event);
    lemma_step_keeps_wf(s, event);
    assert(t.networks == s.networks && t.key == s.key && t.api_key == s.api_key);
    assert(t.next == s.next + 1);
    assert(t.candidates == with_answer(s.candidates, w.answers[s.next]));
    assert(gathered(s.candidates, w.answers, s.next) == gathered(t.candidates, w.answers, t.next));
    let rest = run(t, effect(w, action), (fuel - 1) as nat);
    let r = run(s, w, fuel);
    assert(r.actions == seq![action] + rest.actions);
    assert(effect(w, action) == w);
    if t.phase == Phase::NetworkQuery {
        lemma_queries(t, w, (fuel - 1) as nat);
        assert forall|i: int| 0 <= i < m implies #[trigger] r.actions[i] == query_action(
            s.networks,
            s.api_key,
            s.key,
            s.next + i,
        ) by {
            if i > 0 {
                assert(r.actions[i] == rest.actions[i - 1]);
            }
        }
        if r.state.phase == Phase::Resolved {
            assert(r.actions[m] == rest.actions[m - 1]);
        }
    } else if t.phase == Phase::Failed {
        assert(pending(t) is Done);
        assert(rest.actions =~= Seq::<ActionView>::empty());
        assert(r.actions =~= seq![action]);
    } else {
        assert(t.phase == Phase::Persist);
        assert(m == 1);
        let store = pending(t);
        assert(store == (ActionView::Store { key: s.key, text: t.candidates[0] }));
        let u = step(t, answer(w, store));
        assert(u.phase == Phase::Resolved);
        assert(u.candidates == t.candidates);
        lemma_step_keeps_wf(t, answer(w, store));
        let last = run(u, effect(w, store), (fuel - 2) as nat);
        assert(pending(u) is Done);
        assert(last.actions =~= Seq::<ActionView>::empty());
        assert(rest.actions =~= seq![store]);
        assert(r.actions =~= seq![action, store]);
    }
}

/// With an entry in the cache that is a schema, a resolution reads the cache
/// and does nothing else: no registry is asked, nothing is written, and the
/// outcome is the one candidate that the cache holds.
pub proof fn law_cache_hit_asks_no_registry(
    networks: Seq<(Seq<char>, Seq<char>)>,
    api_key: Seq<char>,
    key: Seq<char>,
    w: World,
)
    requires
        w.cache.contains_key(key),
        is_schema_text(w.cache[key]),
    ensures
        ({
            let r = resolve(networks, api_key, key, w);
            &&& r.actions == seq![ActionView::ReadCache { key }]
            &&& outcome(r.state) == Some(
                Ok::<Seq<Seq<char>>, crate::resolver::ErrorView>(seq![w.cache[key]]),
            )
            &&& r.world == w
        }),
{
    let s = initial(networks, api_key, key);
    let fuel = (networks.len() + 2) as nat;
    let action = pending(s);
    let t = step(s, answer(w, action));
    assert(t.phase == Phase::Resolved);
    assert(pending(t) is Done);
    let rest = run(t, effect(w, action), (fuel - 1) as nat);
    assert(rest.actions =~= Seq::<ActionView>::empty());
    let r = run(s, w, fuel);
    assert(r.actions =~= seq![action]);
}

/// With an entry in the cache that is no schema, a resolution fails on the
/// cache and asks no registry either.
pub proof fn law_corrupt_entry_asks_no_registry(
    networks: Seq<(Seq<char>, Seq<char>)>,
    api_key: Seq<char>,
    key: Seq<char>,
    w: World,
)
    requires
        w.cache.contains_key(key),
        !is_schema_text(w.cache[key]),
    ensures
        ({
            let r = resolve(networks, api_key, key, w);
            &&& r.actions == seq![ActionView::ReadCache { key }]
            &&& outcome(r.state) == Some(
                Err::<Seq<Seq<char>>, crate::resolver::ErrorView>(
                    crate::resolver::ErrorView::CacheError { key },
                ),
            )
            &&& r.world == w
        }),
{
    let s = initial(networks, api_key, key);
    let fuel = (networks.len() + 2) as nat;
    let action = pending(s);
    let t = step(s, answer(w, action));
    assert(t.phase == Phase::Corrupt);
    assert(pending(t) is Done);
    let rest = run(t, effect(w, action), (fuel - 1) as nat);
    assert(rest.actions =~= Seq::<ActionView>::empty());
    let r = run(s, w, fuel);
    assert(r.actions =~= seq![action]);
}

/// Without an entry in the cache, a resolution reads the cache and then asks
/// every configured network exactly once, in the configured order, whatever
/// the earlier networks answered. Nothing follows but the write of the first
/// candidate, where there is one; and the resolution is then over.
pub proof fn law_cache_miss_asks_every_network(
    networks: Seq<(Seq<char>, Seq<char>)>,
    api_key: Seq<char>,
    key: Seq<char>,
    w: World,
)
    requires
        !w.cache.contains_key(key),
        world_fits(w, networks),
    ensures
        ({
            let r = resolve(networks, api_key, key, w);
            let n = networks.len() as int;
            &&& r.actions.len() == n + 1 || r.actions.len() == n + 2
            &&& r.actions[0] == (ActionView::ReadCache { key })
            &&& forall|i: int|
                0 <= i < n ==> #[trigger] r.actions[i + 1] == query_action(networks, api_key, key, i)
            &&& r.actions.len() == n + 2 ==> r.actions[n + 1] is Store
            &&& outcome(r.state) is Some
            &&& outcome(r.state).unwrap() is Ok <==> r.actions.len() == n + 2
        }),
{
    let s = initial(networks, api_key, key);
    let n = networks.len() as int;
    let fuel = (networks.len() + 2) as nat;
    let action = pending(s);
    let t = step(s, answer(w, action));
    let rest = run(t, effect(w, action), (fuel - 1) as nat);
    let r = run(s, w, fuel);
    assert(r.actions == seq![action] + rest.actions);
    if n == 0 {
        assert(t.phase == Phase::Failed);
        assert(pending(t) is Done);
        assert(rest.actions =~= Seq::<ActionView>::empty());
        assert(r.actions =~= seq![action]);
    } else {
        assert(t.phase == Phase::NetworkQuery);
        assert(state_wf(t));
        lemma_queries(t, w, (fuel - 1) as nat);
        assert forall|i: int| 0 <= i < n implies #[trigger] r.actions[i + 1] == query_action(
            networks,
            api_key,
            key,
            i,
        ) by {
            assert(r.actions[i + 1] == rest.actions[i]);
        }
        if rest.state.phase == Phase::Resolved {
            assert(r.actions[n + 1] == rest.actions[n]);
        }
    }
}

/// After a resolution that gave candidates, in a world whose cache can be
/// written, the cache holds the first candidate under the key of the
/// address: a second resolution of the same address is a cache hit, asks no
/// registry, and gives that first candidate alone.
pub proof fn law_second_resolution_hits_cache(
    networks: Seq<(Seq<char>, Seq<char>)>,
    api_key: Seq<char>,
    key: Seq<char>,
    w: World,
)
    requires
        world_fits(w, networks),
        w.writable,
        outcome(resolve(networks, api_key, key, w).state) matches Some(Ok(_)),
    ensures
        ({
            let first = resolve(networks, api_key, key, w);
            let candidates = outcome(first.state)->Some_0->Ok_0;
            let second = resolve(networks, api_key, key, first.world);
            &&& candidates.len() > 0
            &&& first.world.cache.contains_key(key)
            &&& first.world.cache[key] == candidates[0]
            &&& second.actions == seq![ActionView::ReadCache { key }]
            &&& outcome(second.state) == Some(
                Ok::<Seq<Seq<char>>, crate::resolver::ErrorView>(seq![candidates[0]]),
            )
        }),
{
    let first = resolve(networks, api_key, key, w);
    if w.cache.contains_key(key) {
        if is_schema_text(w.cache[key]) {
            law_cache_hit_asks_no_registry(networks, api_key, key, w);
            assert(seq![w.cache[key]][0] == w.cache[key]);
        } else {
            law_corrupt_entry_asks_no_registry(networks, api_key, key, w);
        }
    } else {
        let s = initial(networks, api_key, key);
        let fuel = (networks.len() + 2) as nat;
        let action = pending(s);
        let t = step(s, answer(w, action));
        let rest = run(t, effect(w, action), (fuel - 1) as nat);
        assert(first.state == rest.state && first.world == rest.world);
        if networks.len() == 0 {
            assert(t.phase == Phase::Failed);
            assert(pending(t) is Done);
        } else {
            assert(t.phase == Phase::NetworkQuery);
            assert(state_wf(t));
            lemma_queries(t, w, (fuel - 1) as nat);
            assert(rest.state.phase == Phase::Resolved);
            let m = networks.len() as int;
            assert(rest.world == effect(w, rest.actions[m]));
            assert(rest.world.cache == w.cache.insert(key, rest.state.candidates[0]));
            assert(is_schema_text(rest.state.candidates[0]));
        }
    }
    law_cache_hit_asks_no_registry(networks, api_key, key, first.world);
}

/// A resolution that finds no schema on any network fails with exactly one
/// reason for each configured network, in the configured order, and writes
/// nothing to the cache.
pub proof fn law_failure_names_every_network(
    networks: Seq<(Seq<char>, Seq<char>)>,
    api_key: Seq<char>,
    key: Seq<char>,
    w: World,
)
    requires
        !w.cache.contains_key(key),
        world_fits(w, networks),
        outcome(resolve(networks, api_key, key, w).state) matches Some(Err(_)),
    ensures
        ({
            let r = resolve(networks, api_key, key, w);
            &&& outcome(r.state) matches Some(
                Err(crate::resolver::ErrorView::ResolutionFailed { reasons }),
            ) && reasons.len() == networks.len() && forall|i: int|
                0 <= i < reasons.len() ==> crate::resolver::failure_network(#[trigger] reasons[i])
                    == networks[i].0
            &&& r.world == w
        }),
{
    let s = initial(networks, api_key, key);
    let fuel = (networks.len() + 2) as nat;
    let action = pending(s);
    let t = step(s, answer(w, action));
    let rest = run(t, effect(w, action), (fuel - 1) as nat);
    let r = run(s, w, fuel);
    assert(r.state == rest.state && r.world == rest.world);
    if networks.len() == 0 {
        assert(t.phase == Phase::Failed);
        assert(pending(t) is Done);
    } else {
        assert(t.phase == Phase::NetworkQuery);
        assert(state_wf(t));
        lemma_queries(t, w, (fuel - 1) as nat);
    }
}

/// Without an entry in the cache, the candidates of a resolution are the
/// schemas that the networks returned, in the order of the networks, each
/// once. With at least one candidate the resolution succeeds with them, and
/// the cache afterwards is the old one with the first candidate written
/// under the key, where the cache can be written; in every other case the
/// cache is the old one.
pub proof fn law_cache_miss_gathers_found_schemas(
    networks: Seq<(Seq<char>, Seq<char>)>,
    api_key: Seq<char>,
    key: Seq<char>,
    w: World,
)
    requires
        !w.cache.contains_key(key),
        world_fits(w, networks),
    ensures
        ({
            let r = resolve(networks, api_key, key, w);
            let found = gathered(Seq::empty(), w.answers, 0);
            &&& distinct(found)
            &&& found.len() > 0 ==> outcome(r.state) == Some(
                Ok::<Seq<Seq<char>>, crate::resolver::ErrorView>(found),
            )
            &&& found.len() == 0 ==> (outcome(r.state) is Some && outcome(r.state)->Some_0 is Err)
            &&& r.world.cache == if found.len() > 0 && w.writable {
                w.cache.insert(key, found[0])
            } else {
                w.cache
            }
            &&& r.world.answers == w.answers
            &&& r.world.writable == w.writable
        }),
{
    let s = initial(networks, api_key, key);
    let fuel = (networks.len() + 2) as nat;
    let action = pending(s);
    let t = step(s, answer(w, action));
    let rest = run(t, effect(w, action), (fuel - 1) as nat);
    let r = run(s, w, fuel);
    assert(r.state == rest.state && r.world == rest.world);
    if networks.len() == 0 {
        assert(t.phase == Phase::Failed);
        assert(pending(t) is Done);
    } else {
        assert(t.phase == Phase::NetworkQuery);
        assert(state_wf(t));
        lemma_queries(t, w, (fuel - 1) as nat);
    }
}

} // verus!
