//! The state of a client's actors: their tasks, inboxes, devices, models and routers.
//!
//! Tasks, channels and models live outside this module; here each is known by a token, a number
//! that its owner gives it.

use crate::errors::StateManagerError;
use crate::ids::{uuid_chars, uuid_text};
use crate::maps::{
    names, names_clear, names_entries, names_get, names_insert, names_new, names_remove, tokens,
    tokens_clear, tokens_get, tokens_insert, tokens_keys, tokens_new, tokens_remove,
};
use crate::messages::{RoutedMessage, RoutedPayload, RoutingProtocol};
use crate::modes::ClientModes;
use crate::paths::{FilePath, PathView};
use crate::registry::{
    context_entries, lists_context, pool_error_chars, refuses_removal, refuses_replacement,
    remove_entry, replace_id, IdEntry,
};
use dashmap::DashMap;
use vstd::prelude::*;

verus! {

/// The registry context of actors.
pub const ACTOR_CONTEXT: &'static str = "actor";

/// The state of a client's actors.
pub struct StateManager {
    pub client_namespace: String,
    pub client_modes: ClientModes,
    /// One model token per device, in the order in which the devices came.
    pub shared_local_models: Vec<(u64, u64)>,
    pub actor_inboxes: DashMap<u128, u64>,
    pub actor_router_addresses: DashMap<u128, String>,
    pub actor_handles: DashMap<u128, u64>,
    pub actor_devices: DashMap<u128, u64>,
    pub actor_model_handles: DashMap<u128, u64>,
    pub actor_count: usize,
}

/// Where a model for an actor comes from.
#[derive(Clone, Copy, Debug, PartialEq, Eq, Structural)]
pub enum ModelSource {
    Parameter,
    Cache,
    LocalPath,
    Nowhere,
}

/// A model given for the actor goes before the cached one, and that before the local file; without
/// a path there is no local file.
pub open spec fn spec_model_source(given: bool, cached: bool, local_model_path: PathView) -> ModelSource {
    if given {
        ModelSource::Parameter
    } else if cached {
        ModelSource::Cache
    } else if !local_model_path.is_empty() {
        ModelSource::LocalPath
    } else {
        ModelSource::Nowhere
    }
}

/// Decides where a model for an actor is loaded from.
pub fn model_source(given: bool, cached: bool, local_model_path: &FilePath) -> (r: ModelSource)
    ensures
        r == spec_model_source(given, cached, local_model_path@),
{
    if given {
        ModelSource::Parameter
    } else if cached {
        ModelSource::Cache
    } else if !local_model_path.is_empty() {
        ModelSource::LocalPath
    } else {
        ModelSource::Nowhere
    }
}

impl ModelSource {
    /// What is reported when loading from this source fails.
    pub open spec fn spec_failure(self) -> Seq<char> {
        match self {
            ModelSource::Parameter => "[StateManager] Failed to create reloadable model from parameter"@,
            ModelSource::Cache => "[StateManager] Failed to create reloadable model from cache"@,
            _ => "[StateManager] Failed to load model from local_model_path"@,
        }
    }

    fn failure(&self) -> (r: String)
        ensures
            r@ == self.spec_failure(),
    {
        match self {
            ModelSource::Parameter =>
                "[StateManager] Failed to create reloadable model from parameter".to_owned(),
            ModelSource::Cache =>
                "[StateManager] Failed to create reloadable model from cache".to_owned(),
            _ => "[StateManager] Failed to load model from local_model_path".to_owned(),
        }
    }
}

/// What came of loading a model: from where, and whether it failed.
#[derive(Clone, Copy, Debug, PartialEq, Eq, Structural)]
pub struct ModelLoad {
    pub source: ModelSource,
    pub failed: bool,
}

/// The tokens that an actor starts with.
#[derive(Clone, Copy, Debug, PartialEq, Eq, Structural)]
pub struct ActorTokens {
    pub inbox: u64,
    pub model: u64,
    pub handle: u64,
}

/// What came of adding an actor. The replaced task is to be aborted.
pub struct NewActor {
    pub replaced_handle: Option<u64>,
    pub outcome: Result<bool, StateManagerError>,
}

/// What came of removing an actor. The removed task is to be aborted.
pub struct RemovedActor {
    pub handle: Option<u64>,
    pub outcome: Result<(), StateManagerError>,
}

/// An actor that is to be shut down: the inbox that it is told through, and its task, if there is
/// one, which is aborted once the actor has left the registry.
#[derive(Clone, Copy, Debug, PartialEq, Eq, Structural)]
pub struct ActorToStop {
    pub actor_id: u128,
    pub inbox: u64,
    pub handle: Option<u64>,
}

/// The token that the key is bound to.
pub open spec fn bound(m: Map<u128, u64>, key: u128) -> Option<u64> {
    if m.contains_key(key) {
        Some(m[key])
    } else {
        None
    }
}

/// The map with the binding of `from` moved to `to`.
pub open spec fn moved<V>(m: Map<u128, V>, from: u128, to: u128) -> Map<u128, V> {
    if m.contains_key(from) {
        m.remove(from).insert(to, m[from])
    } else {
        m
    }
}

/// The slot of a device among the shared models: the first one.
pub open spec fn slot_of(slots: Seq<(u64, u64)>, device: u64) -> Option<u64>
    decreases slots.len(),
{
    if slots.len() == 0 {
        None
    } else {
        match slot_of(slots.drop_last(), device) {
            Some(token) => Some(token),
            None => if slots.last().0 == device {
                Some(slots.last().1)
            } else {
                None
            },
        }
    }
}

/// Whether an actor is known to run on a device.
pub open spec fn runs_on(devices: Map<u128, u64>, actor: u128, device: u64) -> bool {
    devices.contains_key(actor) && devices[actor] == device
}

/// The first of the actors that runs on the device.
pub open spec fn first_on(devices: Map<u128, u64>, actors: Seq<u128>, device: u64) -> Option<u128>
    decreases actors.len(),
{
    if actors.len() == 0 {
        None
    } else {
        match first_on(devices, actors.drop_last(), device) {
            Some(actor) => Some(actor),
            None => if runs_on(devices, actors.last(), device) {
                Some(actors.last())
            } else {
                None
            },
        }
    }
}

/// The actor that receives model updates for `actor`: where actors share a model per device, the
/// first actor on its device; itself in every other case.
pub open spec fn canonical(
    shared: bool,
    devices: Map<u128, u64>,
    actor: u128,
    actors: Seq<u128>,
) -> u128 {
    if shared && devices.contains_key(actor) {
        match first_on(devices, actors, devices[actor]) {
            Some(first) => first,
            None => actor,
        }
    } else {
        actor
    }
}

/// The actors among the first `upto` that receive model updates for themselves, in order.
pub open spec fn representatives(
    shared: bool,
    devices: Map<u128, u64>,
    actors: Seq<u128>,
    upto: int,
) -> Seq<u128>
    decreases upto,
{
    if upto <= 0 {
        Seq::empty()
    } else {
        let before = representatives(shared, devices, actors, upto - 1);
        let actor = actors[upto - 1];
        if canonical(shared, devices, actor, actors) == actor {
            before.push(actor)
        } else {
            before
        }
    }
}

/// Strictly ascending, so without repetition.
pub open spec fn ascending(s: Seq<u128>) -> bool {
    forall|i: int, j: int| 0 <= i < j < s.len() ==> s[i] < s[j]
}

/// The actors that a model update is meant for: the known ones of those asked for, or all.
pub open spec fn wanted(handles: Map<u128, u64>, asked: Option<Seq<u128>>, actor: u128) -> bool {
    handles.contains_key(actor) && (asked matches Some(ids) ==> ids.contains(actor))
}

/// Whether `r` lists the actors that a model update is meant for, in ascending order.
pub open spec fn lists_wanted(handles: Map<u128, u64>, asked: Option<Seq<u128>>, r: Seq<u128>) -> bool {
    ascending(r) && forall|actor: u128| #[trigger] r.contains(actor) <==> wanted(handles, asked, actor)
}

/// Router names dealt out to actors in turn, on top of what was there.
pub open spec fn dealt(
    m: Map<u128, Seq<char>>,
    actors: Seq<u128>,
    routers: Seq<Seq<char>>,
    upto: int,
) -> Map<u128, Seq<char>>
    decreases upto,
{
    if upto <= 0 || routers.len() == 0 {
        m
    } else {
        dealt(m, actors, routers, upto - 1).insert(
            actors[upto - 1],
            routers[(upto - 1) % routers.len() as int],
        )
    }
}

/// Each actor once, and all of them.
pub open spec fn enumerates(actors: Seq<u128>, handles: Map<u128, u64>) -> bool {
    actors.no_duplicates() && forall|a: u128| #[trigger] actors.contains(a) <==> handles.contains_key(a)
}

/// The bindings entered one after the other; a later one for the same actor takes the place of an
/// earlier one.
pub open spec fn entered(mappings: Seq<(u128, Seq<char>)>) -> Map<u128, Seq<char>>
    decreases mappings.len(),
{
    if mappings.len() == 0 {
        Map::empty()
    } else {
        entered(mappings.drop_last()).insert(mappings.last().0, mappings.last().1)
    }
}

/// The mappings with the contents of their names.
pub open spec fn mapping_views(mappings: Seq<(u128, String)>) -> Seq<(u128, Seq<char>)> {
    mappings.map_values(|p: (u128, String)| (p.0, p.1@))
}

fn actor_message(id: u128, ending: &str) -> (r: String)
    ensures
        r@ == "[StateManager] Actor ID "@ + uuid_chars(id) + ending@,
{
    let mut r = "[StateManager] Actor ID ".to_owned();
    let id_text = uuid_text(id);
    r.append(id_text.as_str());
    r.append(ending);
    r
}

/// Puts an identifier in its place in an ascending list, unless it is there already.
fn insert_ascending(list: &mut Vec<u128>, id: u128)
    requires
        ascending(old(list)@),
    ensures
        ascending(final(list)@),
        forall|x: u128| #[trigger] final(list)@.contains(x) <==> old(list)@.contains(x) || x == id,
{
    let mut at: usize = 0;
    while at < list.len() && list[at] < id
        invariant
            at <= list@.len(),
            ascending(list@),
            *list == *old(list),
            forall|k: int| 0 <= k < at ==> list@[k] < id,
        decreases list@.len() - at,
    {
        at = at + 1;
    }
    let ghost before = list@;
    if at < list.len() && list[at] == id {
        proof {
            assert(before[at as int] == id);
            assert forall|x: u128| #[trigger] list@.contains(x) <==> before.contains(x) || x == id by {}
        }
        return;
    }
    list.insert(at, id);
    proof {
        let now = list@;
        assert(now =~= before.insert(at as int, id));
        assert forall|i: int, j: int| 0 <= i < j < now.len() implies now[i] < now[j] by {
            if at < before.len() {
                assert(before[at as int] > id);
            }
            if i < at {
                assert(now[i] == before[i]);
            } else if i > at {
                assert(now[i] == before[i - 1]);
            }
            if j < at {
                assert(now[j] == before[j]);
            } else if j > at {
                assert(now[j] == before[j - 1]);
                if at < before.len() && j - 1 > at {
                    assert(before[at as int] < before[j - 1]);
                }
            }
        }
        assert forall|x: u128| #[trigger] now.contains(x) <==> before.contains(x) || x == id by {
            if now.contains(x) {
                let k = choose|k: int| 0 <= k < now.len() && now[k] == x;
                if k < at {
                    assert(before[k] == x);
                } else if k > at {
                    assert(before[k - 1] == x);
                }
            }
            if before.contains(x) {
                let k = choose|k: int| 0 <= k < before.len() && before[k] == x;
                if k < at {
                    assert(now[k] == x);
                } else {
                    assert(now[k + 1] == x);
                }
            }
            if x == id {
                assert(now[at as int] == id);
            }
        }
    }
}

/// The entries that the registry answered with: none where it knows nothing of the context.
pub fn registered(answer: Result<Vec<IdEntry>, active_uuid_registry::UuidPoolError>) -> (r: Vec<
    IdEntry,
>)
    ensures
        match answer {
            Ok(entries) => r == entries,
            Err(_) => r@.len() == 0,
        },
{
    match answer {
        Ok(entries) => entries,
        Err(_) => Vec::new(),
    }
}

/// Whether the end of an actor is still waited for: as long as it is registered.
pub fn awaits_end(registered: &Vec<IdEntry>, actor_id: u128) -> (r: bool)
    ensures
        r == exists|i: int| 0 <= i < registered@.len() && (#[trigger] registered@[i]).id == actor_id,
{
    let mut i: usize = 0;
    while i < registered.len()
        invariant
            i <= registered@.len(),
            forall|k: int| 0 <= k < i ==> (#[trigger] registered@[k]).id != actor_id,
        decreases registered@.len() - i,
    {
        if registered[i].id == actor_id {
            return true;
        }
        i = i + 1;
    }
    false
}

/// Whether an identifier is in a list.
pub fn is_listed(list: &Vec<u128>, id: u128) -> (r: bool)
    ensures
        r == list@.contains(id),
{
    let mut i: usize = 0;
    while i < list.len()
        invariant
            i <= list@.len(),
            forall|k: int| 0 <= k < i ==> list@[k] != id,
        decreases list@.len() - i,
    {
        if list[i] == id {
            proof {
                assert(list@[i as int] == id);
            }
            return true;
        }
        i = i + 1;
    }
    false
}

proof fn lemma_first_on(devices: Map<u128, u64>, actors: Seq<u128>, device: u64)
    ensures
        first_on(devices, actors, device) matches Some(c) ==> {
            &&& runs_on(devices, c, device)
            &&& exists|j: int|
                0 <= j < actors.len() && #[trigger] actors[j] == c && forall|k: int|
                    0 <= k < j ==> !runs_on(devices, #[trigger] actors[k], device)
        },
        first_on(devices, actors, device) is None ==> forall|k: int|
            0 <= k < actors.len() ==> !runs_on(devices, #[trigger] actors[k], device),
    decreases actors.len(),
{
    if actors.len() > 0 {
        let init = actors.drop_last();
        lemma_first_on(devices, init, device);
        match first_on(devices, init, device) {
            Some(c) => {
                let j = choose|j: int|
                    0 <= j < init.len() && #[trigger] init[j] == c && forall|k: int|
                        0 <= k < j ==> !runs_on(devices, #[trigger] init[k], device);
                assert(actors[j] == c);
                assert forall|k: int| 0 <= k < j implies !runs_on(
                    devices,
                    #[trigger] actors[k],
                    device,
                ) by {
                    assert(actors[k] == init[k]);
                }
            },
            None => {
                assert forall|k: int| 0 <= k < init.len() implies !runs_on(
                    devices,
                    #[trigger] actors[k],
                    device,
                ) by {
                    assert(actors[k] == init[k]);
                }
                if runs_on(devices, actors.last(), device) {
                    assert(actors[actors.len() - 1] == actors.last());
                }
            },
        }
    }
}

/// The actor that receives another's model updates is one of the actors, does not come after it,
/// and receives its own.
pub proof fn law_canonical_target_represents_itself(
    shared: bool,
    devices: Map<u128, u64>,
    actors: Seq<u128>,
    i: int,
)
    requires
        0 <= i < actors.len(),
    ensures
        exists|j: int|
            0 <= j <= i && #[trigger] actors[j] == canonical(shared, devices, actors[i], actors),
        canonical(
            shared,
            devices,
            canonical(shared, devices, actors[i], actors),
            actors,
        ) == canonical(shared, devices, actors[i], actors),
{
    let actor = actors[i];
    if shared && devices.contains_key(actor) {
        let device = devices[actor];
        lemma_first_on(devices, actors, device);
        assert(runs_on(devices, actors[i], device));
        let c = first_on(devices, actors, device)->0;
        let j = choose|j: int|
            0 <= j < actors.len() && #[trigger] actors[j] == c && forall|k: int|
                0 <= k < j ==> !runs_on(devices, #[trigger] actors[k], device);
        assert(j <= i);
        assert(actors[j] == canonical(shared, devices, actor, actors));
    } else {
        assert(actors[i] == canonical(shared, devices, actor, actors));
    }
}

proof fn lemma_representatives(
    shared: bool,
    devices: Map<u128, u64>,
    actors: Seq<u128>,
    upto: int,
    c: u128,
)
    requires
        0 <= upto <= actors.len(),
    ensures
        representatives(shared, devices, actors, upto).contains(c) <==> (exists|j: int|
            0 <= j < upto && #[trigger] actors[j] == c) && canonical(shared, devices, c, actors) == c,
    decreases upto,
{
    if upto > 0 {
        lemma_representatives(shared, devices, actors, upto - 1, c);
        let before = representatives(shared, devices, actors, upto - 1);
        let now = representatives(shared, devices, actors, upto);
        let actor = actors[upto - 1];
        if canonical(shared, devices, actor, actors) == actor {
            assert(now == before.push(actor));
            if now.contains(c) {
                let k = choose|k: int| 0 <= k < now.len() && now[k] == c;
                if k < before.len() {
                    assert(before[k] == c);
                } else {
                    assert(actors[upto - 1] == c);
                }
            }
            if before.contains(c) {
                let k = choose|k: int| 0 <= k < before.len() && before[k] == c;
                assert(now[k] == c);
            }
            if c == actor {
                assert(now[before.len() as int] == c);
            }
        }
    }
}

proof fn lemma_representatives_ascend(
    shared: bool,
    devices: Map<u128, u64>,
    actors: Seq<u128>,
    upto: int,
)
    requires
        0 <= upto <= actors.len(),
        ascending(actors),
    ensures
        ascending(representatives(shared, devices, actors, upto)),
    decreases upto,
{
    if upto > 0 {
        lemma_representatives_ascend(shared, devices, actors, upto - 1);
        let before = representatives(shared, devices, actors, upto - 1);
        let now = representatives(shared, devices, actors, upto);
        assert forall|i: int, j: int| 0 <= i < j < now.len() implies now[i] < now[j] by {
            if j < before.len() {
                assert(before[i] < before[j]);
            } else {
                lemma_representatives(shared, devices, actors, upto - 1, before[i]);
                assert(before.contains(before[i]));
                let k = choose|k: int| 0 <= k < upto - 1 && #[trigger] actors[k] == before[i];
                assert(actors[k] < actors[upto - 1]);
            }
        }
    }
}

/// Every actor's model updates reach exactly one of the targets, the targets come in ascending
/// order without repetition, and where actors share a model per device no two targets are on one
/// device.
pub proof fn law_dispatch_targets_cover_actors(
    shared: bool,
    devices: Map<u128, u64>,
    actors: Seq<u128>,
)
    requires
        ascending(actors),
    ensures
        ascending(representatives(shared, devices, actors, actors.len() as int)),
        forall|i: int|
            0 <= i < actors.len() ==> representatives(
                shared,
                devices,
                actors,
                actors.len() as int,
            ).contains(canonical(shared, devices, #[trigger] actors[i], actors)),
        forall|a: u128|
            #![trigger representatives(shared, devices, actors, actors.len() as int).contains(a)]
            representatives(shared, devices, actors, actors.len() as int).contains(a)
                ==> actors.contains(a),
        shared ==> forall|a: u128, b: u128|
            #![trigger devices[a], devices[b]]
            representatives(shared, devices, actors, actors.len() as int).contains(a)
                && representatives(shared, devices, actors, actors.len() as int).contains(b)
                && devices.contains_key(a) && devices.contains_key(b) && devices[a] == devices[b]
                ==> a == b,
{
    let n = actors.len() as int;
    let r = representatives(shared, devices, actors, n);
    lemma_representatives_ascend(shared, devices, actors, n);
    assert forall|i: int| 0 <= i < actors.len() implies r.contains(
        canonical(shared, devices, #[trigger] actors[i], actors),
    ) by {
        law_canonical_target_represents_itself(shared, devices, actors, i);
        lemma_representatives(
            shared,
            devices,
            actors,
            n,
            canonical(shared, devices, actors[i], actors),
        );
    }
    assert forall|a: u128| #[trigger] r.contains(a) implies actors.contains(a) by {
        lemma_representatives(shared, devices, actors, n, a);
    }
    if shared {
        assert forall|a: u128, b: u128|
            #![trigger devices[a], devices[b]]
            r.contains(a) && r.contains(b) && devices.contains_key(a) && devices.contains_key(b)
                && devices[a] == devices[b] implies a == b by {
            lemma_representatives(shared, devices, actors, n, a);
            lemma_representatives(shared, devices, actors, n, b);
            lemma_first_on(devices, actors, devices[a]);
        }
    }
}

/// Dealing in turn gives the `i`-th actor the router at `i` modulo the number of routers, and
/// leaves every other actor where it was.
pub proof fn law_actors_are_dealt_in_turn(
    m: Map<u128, Seq<char>>,
    actors: Seq<u128>,
    routers: Seq<Seq<char>>,
    upto: int,
)
    requires
        0 <= upto <= actors.len(),
        actors.no_duplicates(),
        routers.len() > 0,
    ensures
        forall|i: int|
            0 <= i < upto ==> dealt(m, actors, routers, upto).contains_key(#[trigger] actors[i])
                && dealt(m, actors, routers, upto)[actors[i]] == routers[i % routers.len() as int],
        forall|a: u128|
            #![trigger dealt(m, actors, routers, upto).contains_key(a)]
            #![trigger dealt(m, actors, routers, upto)[a]]
            !actors.take(upto).contains(a) ==> (dealt(m, actors, routers, upto).contains_key(a)
                <==> m.contains_key(a)) && dealt(m, actors, routers, upto)[a] == m[a],
    decreases upto,
{
    if upto > 0 {
        law_actors_are_dealt_in_turn(m, actors, routers, upto - 1);
        let before = dealt(m, actors, routers, upto - 1);
        let now = dealt(m, actors, routers, upto);
        assert forall|i: int| 0 <= i < upto implies now.contains_key(#[trigger] actors[i])
            && now[actors[i]] == routers[i % routers.len() as int] by {
            if i < upto - 1 {
                assert(actors[i] != actors[upto - 1]);
            }
        }
        assert forall|a: u128| !actors.take(upto).contains(a) implies (now.contains_key(a)
            <==> m.contains_key(a)) && #[trigger] now[a] == m[a] by {
            assert(actors.take(upto)[upto - 1] == actors[upto - 1]);
            if actors.take(upto - 1).contains(a) {
                let shorter = actors.take(upto - 1);
                let k = choose|k: int| 0 <= k < shorter.len() && shorter[k] == a;
                assert(actors.take(upto)[k] == a);
            }
        }
    }
}

/// Of the bindings that were entered the last one of each actor holds, and an actor that none
/// names is not bound.
pub proof fn law_last_mapping_holds(mappings: Seq<(u128, Seq<char>)>, i: int, actor: u128)
    ensures
        0 <= i < mappings.len() && mappings[i].0 == actor && (forall|k: int|
            i < k < mappings.len() ==> (#[trigger] mappings[k]).0 != actor) ==> entered(
            mappings,
        ).contains_key(actor) && entered(mappings)[actor] == mappings[i].1,
        (forall|k: int| 0 <= k < mappings.len() ==> (#[trigger] mappings[k]).0 != actor)
            ==> !entered(mappings).contains_key(actor),
    decreases mappings.len(),
{
    if mappings.len() > 0 {
        let init = mappings.drop_last();
        law_last_mapping_holds(init, i, actor);
        assert(forall|k: int| 0 <= k < init.len() ==> init[k] == mappings[k]);
        let last = mappings.len() - 1;
        if 0 <= i < mappings.len() && mappings[i].0 == actor && (forall|k: int|
            i < k < mappings.len() ==> (#[trigger] mappings[k]).0 != actor) {
            if i < last {
                assert(mappings[last].0 != actor);
                assert(forall|k: int| i < k < init.len() ==> (#[trigger] init[k]).0 != actor);
            }
        }
        if forall|k: int| 0 <= k < mappings.len() ==> (#[trigger] mappings[k]).0 != actor {
            assert(mappings[last].0 != actor);
            assert(forall|k: int| 0 <= k < init.len() ==> (#[trigger] init[k]).0 != actor);
        }
    }
}

impl StateManager {
    /// What the maps hold of the actors, without the routers.
    pub open spec fn handles(self) -> Map<u128, u64> {
        tokens(self.actor_handles)
    }

    pub open spec fn inboxes(self) -> Map<u128, u64> {
        tokens(self.actor_inboxes)
    }

    pub open spec fn devices(self) -> Map<u128, u64> {
        tokens(self.actor_devices)
    }

    pub open spec fn models(self) -> Map<u128, u64> {
        tokens(self.actor_model_handles)
    }

    /// Which router each actor is assigned to.
    pub open spec fn routers(self) -> Map<u128, Seq<char>> {
        names(self.actor_router_addresses)
    }

    /// Whether actors share a model per device.
    pub open spec fn shares(self) -> bool {
        self.client_modes.actor_inference_mode.spec_shares_local_model()
    }

    /// Whether two states differ in nothing but what the actors' maps hold and their number.
    pub open spec fn same_setting(self, other: Self) -> bool {
        self.client_namespace == other.client_namespace && self.client_modes == other.client_modes
    }

    /// A state without actors.
    pub fn new(client_namespace: String, client_modes: ClientModes) -> (r: Self)
        ensures
            r.client_namespace == client_namespace,
            r.client_modes == client_modes,
            r.shared_local_models@.len() == 0,
            r.handles() == (Map::<u128, u64>::empty()),
            r.inboxes() == (Map::<u128, u64>::empty()),
            r.devices() == (Map::<u128, u64>::empty()),
            r.models() == (Map::<u128, u64>::empty()),
            r.routers() == (Map::<u128, Seq<char>>::empty()),
            r.actor_count == 0,
    {
        StateManager {
            client_namespace,
            client_modes,
            shared_local_models: Vec::new(),
            actor_inboxes: tokens_new(),
            actor_router_addresses: names_new(),
            actor_handles: tokens_new(),
            actor_devices: tokens_new(),
            actor_model_handles: tokens_new(),
            actor_count: 0,
        }
    }

    /// The model token that actors on a device already share, if they share one.
    pub fn shared_model(&self, device: u64) -> (r: Option<u64>)
        ensures
            r == (if self.shares() {
                slot_of(self.shared_local_models@, device)
            } else {
                None
            }),
    {
        if !self.client_modes.actor_inference_mode.shares_local_model() {
            return None;
        }
        let mut found: Option<u64> = None;
        let mut i: usize = 0;
        while i < self.shared_local_models.len()
            invariant
                i <= self.shared_local_models@.len(),
                found == slot_of(self.shared_local_models@.take(i as int), device),
            decreases self.shared_local_models@.len() - i,
        {
            proof {
                let next = self.shared_local_models@.take(i as int + 1);
                assert(next.drop_last() =~= self.shared_local_models@.take(i as int));
            }
            if found.is_none() && self.shared_local_models[i].0 == device {
                found = Some(self.shared_local_models[i].1);
            }
            i = i + 1;
        }
        proof {
            assert(self.shared_local_models@.take(i as int) =~= self.shared_local_models@);
        }
        found
    }

    /// What giving an actor its model token leads to: the state afterwards, and what is reported.
    pub open spec fn gives_model(
        self,
        after: Self,
        device: u64,
        load: ModelLoad,
        fresh: u64,
        r: Result<(u64, bool), StateManagerError>,
    ) -> bool {
        let slot = slot_of(self.shared_local_models@, device);
        &&& after.same_setting(self)
        &&& after.actor_count == self.actor_count
        &&& after.actor_handles == self.actor_handles
        &&& after.actor_inboxes == self.actor_inboxes
        &&& after.actor_devices == self.actor_devices
        &&& after.actor_model_handles == self.actor_model_handles
        &&& after.actor_router_addresses == self.actor_router_addresses
        &&& if self.shares() && slot is Some {
            &&& r == Ok::<(u64, bool), StateManagerError>((slot->0, false))
            &&& after.shared_local_models@ == self.shared_local_models@
        } else if load.failed && load.source != ModelSource::Nowhere {
            &&& r matches Err(StateManagerError::FailedToCreateReloadableModelError(m))
            &&& m@ == load.source.spec_failure()
            &&& after.shared_local_models@ == self.shared_local_models@
        } else {
            &&& r == Ok::<(u64, bool), StateManagerError>(
                (fresh, load.source == ModelSource::Nowhere),
            )
            &&& after.shared_local_models@ == (if self.shares() {
                self.shared_local_models@.push((device, fresh))
            } else {
                self.shared_local_models@
            })
        }
    }

    /// Gives an actor its model token: the one that its device shares, or else the fresh one, which
    /// the device shares from then on where actors share models. Tells whether the model has still
    /// to be asked for by a handshake. `load` is what came of loading a model; it does not matter
    /// where the device already has one.
    pub fn get_or_init_model_handle(&mut self, device: u64, load: ModelLoad, fresh: u64) -> (r: Result<
        (u64, bool),
        StateManagerError,
    >)
        ensures
            old(self).gives_model(*final(self), device, load, fresh, r),
    {
        if let Some(token) = self.shared_model(device) {
            return Ok((token, false));
        }
        let nowhere: bool = load.source == ModelSource::Nowhere;
        if load.failed && !nowhere {
            return Err(
                StateManagerError::FailedToCreateReloadableModelError(load.source.failure()),
            );
        }
        if self.client_modes.actor_inference_mode.shares_local_model() {
            self.shared_local_models.push((device, fresh));
        }
        Ok((fresh, nowhere))
    }

    /// What removing an actor leads to: the state afterwards, and what is reported.
    pub open spec fn removes(self, after: Self, id: u128, r: RemovedActor) -> bool {
        &&& after.same_setting(self)
        &&& after.shared_local_models == self.shared_local_models
        &&& after.handles() == self.handles().remove(id)
        &&& after.inboxes() == self.inboxes().remove(id)
        &&& after.devices() == self.devices().remove(id)
        &&& after.models() == self.models().remove(id)
        &&& after.routers() == self.routers().remove(id)
        &&& after.actor_count == (if self.actor_count == 0 {
            usize::MAX as int
        } else {
            self.actor_count - 1
        })
        &&& r.handle == bound(self.handles(), id)
        &&& r.outcome matches Err(e) ==> (e matches StateManagerError::UuidPoolError(why)
            && refuses_removal(self.client_namespace@, pool_error_chars(why)))
    }

    /// Whether an entry is the one that an actor is registered with.
    pub open spec fn is_entry_of(self, id: u128, entry: IdEntry) -> bool {
        &&& entry.namespace@ == self.client_namespace@
        &&& entry.context@ == ACTOR_CONTEXT@
        &&& entry.id == id
    }

    /// The entry that an actor is registered with.
    pub fn actor_entry(&self, id: u128) -> (r: IdEntry)
        ensures
            self.is_entry_of(id, r),
    {
        IdEntry {
            namespace: self.client_namespace.clone(),
            context: ACTOR_CONTEXT.to_owned(),
            id,
        }
    }

    /// Removes everything that is known of an actor, and its identifier from the registry. The
    /// outcome is the registry's.
    pub fn remove_actor(&mut self, id: u128) -> (r: RemovedActor)
        ensures
            old(self).removes(*final(self), id, r),
    {
        let handle = tokens_remove(&mut self.actor_handles, id);
        tokens_remove(&mut self.actor_inboxes, id);
        tokens_remove(&mut self.actor_devices, id);
        tokens_remove(&mut self.actor_model_handles, id);
        names_remove(&mut self.actor_router_addresses, id);
        self.actor_count = if self.actor_count == 0 {
            usize::MAX
        } else {
            self.actor_count - 1
        };
        let entry = self.actor_entry(id);
        RemovedActor { handle, outcome: registry_outcome(remove_entry(&entry)) }
    }

    /// What adding an actor leads to: what the state is afterwards, and what is reported.
    pub open spec fn adds(
        self,
        after: Self,
        actor_id: u128,
        router: Seq<char>,
        device: u64,
        load: ModelLoad,
        fresh: ActorTokens,
        r: NewActor,
    ) -> bool {
        let replaces = self.handles().contains_key(actor_id);
        let count: int = if !replaces {
            self.actor_count as int
        } else if self.actor_count == 0 {
            usize::MAX as int
        } else {
            self.actor_count - 1
        };
        let slot = slot_of(self.shared_local_models@, device);
        let reuses = self.shares() && slot is Some;
        &&& after.same_setting(self)
        &&& r.replaced_handle == bound(self.handles(), actor_id)
        &&& !replaces && (!load.failed || load.source == ModelSource::Nowhere) ==> r.outcome is Ok
        &&& match r.outcome {
                Ok(needs_handshake) => {
                    let model = if reuses {
                        slot->0
                    } else {
                        fresh.model
                    };
                    &&& reuses || !load.failed || load.source == ModelSource::Nowhere
                    &&& needs_handshake == (!reuses && load.source == ModelSource::Nowhere)
                    &&& after.handles() == self.handles().insert(actor_id, fresh.handle)
                    &&& after.inboxes() == self.inboxes().insert(actor_id, fresh.inbox)
                    &&& after.devices() == self.devices().insert(actor_id, device)
                    &&& after.models() == self.models().insert(actor_id, model)
                    &&& after.routers() == self.routers().insert(
                        actor_id,
                        router,
                    )
                    &&& after.actor_count == (if count == usize::MAX {
                        0
                    } else {
                        count + 1
                    })
                    &&& after.shared_local_models@ == (if self.shares() && !reuses {
                        self.shared_local_models@.push((device, fresh.model))
                    } else {
                        self.shared_local_models@
                    })
                },
                Err(e) => {
                    &&& after.shared_local_models@ == self.shared_local_models@
                    &&& after.actor_count == count
                    &&& after.handles() == self.handles().remove(actor_id)
                    &&& if let StateManagerError::UuidPoolError(why) = e {
                        &&& replaces
                        &&& refuses_removal(self.client_namespace@, pool_error_chars(why))
                        &&& after.inboxes() == self.inboxes().remove(actor_id)
                        &&& after.devices() == self.devices().remove(actor_id)
                        &&& after.models() == self.models().remove(actor_id)
                        &&& after.routers() == self.routers().remove(actor_id)
                    } else {
                        &&& !reuses && load.failed && load.source != ModelSource::Nowhere
                        &&& e matches StateManagerError::FailedToCreateReloadableModelError(m)
                        &&& m@ == load.source.spec_failure()
                        &&& after.inboxes() == self.inboxes().insert(
                            actor_id,
                            fresh.inbox,
                        )
                        &&& after.devices() == (if replaces {
                            self.devices().remove(actor_id)
                        } else {
                            self.devices()
                        })
                        &&& after.models() == (if replaces {
                            self.models().remove(actor_id)
                        } else {
                            self.models()
                        })
                        &&& after.routers() == (if replaces {
                            self.routers().remove(actor_id)
                        } else {
                            self.routers()
                        })
                    }
                },
            }
    }

    /// Adds an actor. One with the same identifier is removed first, and if the registry then
    /// refuses, nothing is added. If its model cannot be loaded only its inbox is known. Tells
    /// whether the model has still to be asked for.
    pub fn new_actor(
        &mut self,
        actor_id: u128,
        router_namespace: String,
        device: u64,
        load: ModelLoad,
        fresh: ActorTokens,
    ) -> (r: NewActor)
        ensures
            old(self).adds(
                *final(self),
                actor_id,
                router_namespace@,
                device,
                load,
                fresh,
                r,
            ),
    {
        let mut replaced_handle: Option<u64> = None;
        if tokens_get(&self.actor_handles, actor_id).is_some() {
            let removed = self.remove_actor(actor_id);
            replaced_handle = removed.handle;
            if let Err(e) = removed.outcome {
                return NewActor { replaced_handle, outcome: Err(e) };
            }
        }
        tokens_insert(&mut self.actor_inboxes, actor_id, fresh.inbox);
        let ghost mid = *self;
        let (model, needs_handshake) = match self.get_or_init_model_handle(
            device,
            load,
            fresh.model,
        ) {
            Ok(found) => found,
            Err(e) => {
                proof {
                    assert(self.handles() =~= old(self).handles().remove(actor_id));
                    assert(self.inboxes() =~= old(self).inboxes().insert(actor_id, fresh.inbox));
                }
                return NewActor { replaced_handle, outcome: Err(e) };
            },
        };
        tokens_insert(&mut self.actor_devices, actor_id, device);
        tokens_insert(&mut self.actor_model_handles, actor_id, model);
        tokens_insert(&mut self.actor_handles, actor_id, fresh.handle);
        let ghost router_chars = router_namespace@;
        names_insert(&mut self.actor_router_addresses, actor_id, router_namespace);
        self.actor_count = if self.actor_count == usize::MAX {
            0
        } else {
            self.actor_count + 1
        };
        proof {
            assert(self.handles() =~= old(self).handles().insert(actor_id, fresh.handle));
            assert(self.inboxes() =~= old(self).inboxes().insert(actor_id, fresh.inbox));
            assert(self.devices() =~= old(self).devices().insert(actor_id, device));
            assert(self.models() =~= old(self).models().insert(actor_id, model));
            assert(self.routers() =~= old(self).routers().insert(actor_id, router_chars));
        }
        NewActor { replaced_handle, outcome: Ok(needs_handshake) }
    }

    /// Removes an actor and adds it anew. If the registry refuses the removal nothing is added.
    pub fn restart_actor(
        &mut self,
        actor_id: u128,
        router_namespace: String,
        device: u64,
        load: ModelLoad,
        fresh: ActorTokens,
    ) -> (r: NewActor)
        ensures
            r.replaced_handle == bound(old(self).handles(), actor_id),
            exists|mid: StateManager, removed: RemovedActor|
                {
                    &&& #[trigger] old(self).removes(mid, actor_id, removed)
                    &&& match removed.outcome {
                        Err(e) => *final(self) == mid && r.outcome == Err::<bool, StateManagerError>(
                            e,
                        ),
                        Ok(_) => mid.adds(
                            *final(self),
                            actor_id,
                            router_namespace@,
                            device,
                            load,
                            fresh,
                            NewActor { replaced_handle: None, outcome: r.outcome },
                        ),
                    }
                },
    {
        let removed = self.remove_actor(actor_id);
        let handle = removed.handle;
        let ghost mid = *self;
        let ghost gone = removed;
        proof {
            assert(old(self).removes(mid, actor_id, gone));
        }
        if let Err(e) = removed.outcome {
            return NewActor { replaced_handle: handle, outcome: Err(e) };
        }
        let added = self.new_actor(actor_id, router_namespace, device, load, fresh);
        NewActor { replaced_handle: handle, outcome: added.outcome }
    }

    /// The actors that are shut down: each that has an inbox, once, in an order that is left open.
    pub fn shutdown_all_actors(&self) -> (r: Vec<ActorToStop>)
        ensures
            forall|i: int, j: int|
                0 <= i < j < r@.len() ==> (#[trigger] r@[i]).actor_id != (#[trigger] r@[j]).actor_id,
            forall|i: int|
                0 <= i < r@.len() ==> self.inboxes().contains_key((#[trigger] r@[i]).actor_id)
                    && r@[i].inbox == self.inboxes()[r@[i].actor_id] && r@[i].handle == bound(
                    self.handles(),
                    r@[i].actor_id,
                ),
            forall|id: u128| #[trigger]
                self.inboxes().contains_key(id) ==> exists|i: int|
                    0 <= i < r@.len() && (#[trigger] r@[i]).actor_id == id,
    {
        let ids = tokens_keys(&self.actor_inboxes);
        let mut stops: Vec<ActorToStop> = Vec::new();
        let mut i: usize = 0;
        while i < ids.len()
            invariant
                i <= ids@.len(),
                ids@.no_duplicates(),
                forall|id: u128| #[trigger] ids@.contains(id) <==> self.inboxes().contains_key(id),
                stops@.len() == i,
                forall|k: int|
                    0 <= k < i ==> (#[trigger] stops@[k]).actor_id == ids@[k] && stops@[k].inbox
                        == self.inboxes()[ids@[k]] && stops@[k].handle == bound(
                        self.handles(),
                        ids@[k],
                    ),
            decreases ids@.len() - i,
        {
            let id: u128 = ids[i];
            proof {
                assert(ids@.contains(ids@[i as int]));
            }
            if let Some(inbox) = tokens_get(&self.actor_inboxes, id) {
                let handle = tokens_get(&self.actor_handles, id);
                stops.push(ActorToStop { actor_id: id, inbox, handle });
            }
            i = i + 1;
        }
        proof {
            assert forall|k: int| 0 <= k < stops@.len() implies self.inboxes().contains_key(
                (#[trigger] stops@[k]).actor_id,
            ) by {
                assert(ids@.contains(ids@[k]));
            }
            assert forall|id: u128| #[trigger] self.inboxes().contains_key(id) implies exists|k: int|
                0 <= k < stops@.len() && (#[trigger] stops@[k]).actor_id == id by {
                assert(ids@.contains(id));
                let k = choose|k: int| 0 <= k < ids@.len() && ids@[k] == id;
                assert(stops@[k].actor_id == id);
            }
        }
        stops
    }

    /// The entries of the actors that are still registered, none of them twice. Which there are
    /// depends on the registry.
    pub fn registered_actors(&self) -> (r: Vec<IdEntry>)
        ensures
            lists_context(r@, self.client_namespace@, ACTOR_CONTEXT@),
    {
        registered(context_entries(self.client_namespace.as_str(), ACTOR_CONTEXT))
    }

    /// Forgets all actors and all shared models. Their number stays as it is.
    pub fn clear_runtime_components(&mut self)
        ensures
            final(self).same_setting(*old(self)),
            final(self).handles() == (Map::<u128, u64>::empty()),
            final(self).inboxes() == (Map::<u128, u64>::empty()),
            final(self).devices() == (Map::<u128, u64>::empty()),
            final(self).models() == (Map::<u128, u64>::empty()),
            final(self).routers() == (Map::<u128, Seq<char>>::empty()),
            final(self).shared_local_models@.len() == 0,
            final(self).actor_count == old(self).actor_count,
    {
        tokens_clear(&mut self.actor_handles);
        tokens_clear(&mut self.actor_inboxes);
        tokens_clear(&mut self.actor_devices);
        tokens_clear(&mut self.actor_model_handles);
        names_clear(&mut self.actor_router_addresses);
        self.shared_local_models.clear();
    }

    /// What giving an actor another identifier leads to: the state afterwards, and what is reported.
    pub open spec fn renames(
        self,
        after: Self,
        current_id: u128,
        new_id: u128,
        r: Result<(), StateManagerError>,
    ) -> bool {
        let known = self.handles().contains_key(current_id);
        let reachable = self.inboxes().contains_key(current_id);
        let taken = self.handles().contains_key(new_id) || self.inboxes().contains_key(new_id);
        &&& after.same_setting(self)
        &&& after.shared_local_models == self.shared_local_models
        &&& after.actor_count == self.actor_count
        &&& after.models() == self.models()
        &&& if !known || !reachable || taken {
            &&& after.handles() == self.handles()
            &&& after.inboxes() == self.inboxes()
            &&& after.devices() == self.devices()
            &&& after.routers() == self.routers()
            &&& if !known {
                r matches Err(StateManagerError::ActorHandleNotFoundError(m)) && m@
                    == "[StateManager] Actor ID "@ + uuid_chars(current_id) + " not found"@
            } else if !reachable {
                r matches Err(StateManagerError::ActorInboxNotFoundError(m)) && m@
                    == "[StateManager] Actor ID "@ + uuid_chars(current_id) + " not found"@
            } else {
                r matches Err(StateManagerError::ActorAlreadyTakenError(m)) && m@
                    == "[StateManager] Actor ID "@ + uuid_chars(new_id) + " already taken"@
            }
        } else {
            &&& after.handles() == moved(self.handles(), current_id, new_id)
            &&& after.inboxes() == moved(self.inboxes(), current_id, new_id)
            &&& after.devices() == moved(self.devices(), current_id, new_id)
            &&& after.routers() == moved(self.routers(), current_id, new_id)
            &&& r matches Err(e) ==> (e matches StateManagerError::UuidPoolError(why)
                && refuses_replacement(
                self.client_namespace@,
                ACTOR_CONTEXT@,
                current_id,
                new_id,
                pool_error_chars(why),
            ))
        }
    }

    /// Gives an actor another identifier. Its task, inbox, device and router move with it; the
    /// token of its model stays under the old identifier. The registry is asked last.
    pub fn set_actor_id(&mut self, current_id: u128, new_id: u128) -> (r: Result<
        (),
        StateManagerError,
    >)
        ensures
            old(self).renames(*final(self), current_id, new_id, r),
    {
        let handle: u64 = match tokens_get(&self.actor_handles, current_id) {
            Some(handle) => handle,
            None => {
                return Err(
                    StateManagerError::ActorHandleNotFoundError(
                        actor_message(current_id, " not found"),
                    ),
                );
            },
        };
        let inbox: u64 = match tokens_get(&self.actor_inboxes, current_id) {
            Some(inbox) => inbox,
            None => {
                return Err(
                    StateManagerError::ActorInboxNotFoundError(
                        actor_message(current_id, " not found"),
                    ),
                );
            },
        };
        if tokens_get(&self.actor_handles, new_id).is_some() || tokens_get(
            &self.actor_inboxes,
            new_id,
        ).is_some() {
            return Err(
                StateManagerError::ActorAlreadyTakenError(actor_message(new_id, " already taken")),
            );
        }
        tokens_insert(&mut self.actor_handles, new_id, handle);
        tokens_remove(&mut self.actor_handles, current_id);
        tokens_insert(&mut self.actor_inboxes, new_id, inbox);
        tokens_remove(&mut self.actor_inboxes, current_id);
        if let Some(device) = tokens_remove(&mut self.actor_devices, current_id) {
            tokens_insert(&mut self.actor_devices, new_id, device);
        }
        if let Some(router) = names_remove(&mut self.actor_router_addresses, current_id) {
            names_insert(&mut self.actor_router_addresses, new_id, router);
        }
        proof {
            assert(self.handles() =~= moved(old(self).handles(), current_id, new_id));
            assert(self.inboxes() =~= moved(old(self).inboxes(), current_id, new_id));
            assert(self.devices() =~= moved(old(self).devices(), current_id, new_id));
            assert(self.routers() =~= moved(old(self).routers(), current_id, new_id));
        }
        let entry = self.actor_entry(current_id);
        registry_outcome(
            replace_id(entry.namespace.as_str(), entry.context.as_str(), entry.id, new_id),
        )
    }

    /// Deals the routers out to the actors listed, in turn.
    pub fn deal_routers(&mut self, actors: &Vec<u128>, router_namespaces: &Vec<String>)
        ensures
            final(self).routers() == dealt(
                old(self).routers(),
                actors@,
                crate::text::texts(router_namespaces@),
                actors@.len() as int,
            ),
            *final(self) == (StateManager {
                actor_router_addresses: final(self).actor_router_addresses,
                ..*old(self)
            }),
    {
        if router_namespaces.len() == 0 {
            return;
        }
        let ghost routers = crate::text::texts(router_namespaces@);
        let mut i: usize = 0;
        while i < actors.len()
            invariant
                i <= actors@.len(),
                router_namespaces@.len() > 0,
                routers == crate::text::texts(router_namespaces@),
                self.routers() == dealt(old(self).routers(), actors@, routers, i as int),
                *self == (StateManager {
                    actor_router_addresses: self.actor_router_addresses,
                    ..*old(self)
                }),
            decreases actors@.len() - i,
        {
            let name: String = router_namespaces[i % router_namespaces.len()].clone();
            proof {
                assert(routers[i as int % routers.len() as int] == name@);
            }
            names_insert(&mut self.actor_router_addresses, actors[i], name);
            i = i + 1;
        }
    }

    /// Deals the routers out to all actors in turn. In which order the actors come is left open.
    pub fn distribute_actors(&mut self, router_namespaces: Vec<String>)
        ensures
            exists|actors: Seq<u128>|
                #![trigger enumerates(actors, old(self).handles())]
                enumerates(actors, old(self).handles()) && final(self).routers() == dealt(
                    old(self).routers(),
                    actors,
                    crate::text::texts(router_namespaces@),
                    actors.len() as int,
                ),
            router_namespaces@.len() == 0 ==> final(self).routers() == old(self).routers(),
            *final(self) == (StateManager {
                actor_router_addresses: final(self).actor_router_addresses,
                ..*old(self)
            }),
    {
        let actors = self.get_actor_id_list();
        proof {
            assert(enumerates(actors@, self.handles()));
        }
        self.deal_routers(&actors, &router_namespaces);
    }

    /// Replaces all router assignments.
    pub fn restore_actor_router_mappings(&mut self, mappings: Vec<(u128, String)>)
        ensures
            final(self).routers() == entered(mapping_views(mappings@)),
            *final(self) == (StateManager {
                actor_router_addresses: final(self).actor_router_addresses,
                ..*old(self)
            }),
    {
        names_clear(&mut self.actor_router_addresses);
        let ghost views = mapping_views(mappings@);
        proof {
            assert(views.take(0) =~= Seq::<(u128, Seq<char>)>::empty());
        }
        let mut i: usize = 0;
        while i < mappings.len()
            invariant
                i <= mappings@.len(),
                views == mapping_views(mappings@),
                self.routers() == entered(views.take(i as int)),
                *self == (StateManager {
                    actor_router_addresses: self.actor_router_addresses,
                    ..*old(self)
                }),
            decreases mappings@.len() - i,
        {
            let name: String = mappings[i].1.clone();
            names_insert(&mut self.actor_router_addresses, mappings[i].0, name);
            proof {
                assert(views.take(i as int + 1).drop_last() =~= views.take(i as int));
            }
            i = i + 1;
        }
        proof {
            assert(views.take(i as int) =~= views);
        }
    }

    /// All router assignments, each once, in an order that is left open.
    pub fn get_actor_router_mappings(&self) -> (r: Vec<(u128, String)>)
        ensures
            forall|i: int, j: int|
                0 <= i < j < r@.len() ==> (#[trigger] r@[i]).0 != (#[trigger] r@[j]).0,
            forall|i: int|
                0 <= i < r@.len() ==> self.routers().contains_key((#[trigger] r@[i]).0)
                    && self.routers()[r@[i].0] == r@[i].1@,
            forall|k: u128| #[trigger]
                self.routers().contains_key(k) ==> exists|i: int|
                    0 <= i < r@.len() && (#[trigger] r@[i]).0 == k,
    {
        names_entries(&self.actor_router_addresses)
    }

    /// The router that an actor is assigned to.
    pub fn router_of(&self, actor_id: u128) -> (r: Option<String>)
        ensures
            r is Some <==> self.routers().contains_key(actor_id),
            r matches Some(name) ==> name@ == self.routers()[actor_id],
    {
        names_get(&self.actor_router_addresses, actor_id)
    }

    /// All actors, each once, in an order that is left open.
    pub fn get_actor_id_list(&self) -> (r: Vec<u128>)
        ensures
            enumerates(r@, self.handles()),
    {
        tokens_keys(&self.actor_handles)
    }

    /// The known actors of those asked for, or all of them, in the order of their texts and without
    /// repetition.
    pub fn sorted_actor_ids_for_model_updates(&self, actor_ids: Option<&Vec<u128>>) -> (r: Vec<u128>)
        ensures
            lists_wanted(
                self.handles(),
                match actor_ids {
                    Some(ids) => Some(ids@),
                    None => None,
                },
                r@,
            ),
    {
        let all: Vec<u128>;
        let source: &Vec<u128> = match actor_ids {
            Some(ids) => ids,
            None => {
                all = self.get_actor_id_list();
                &all
            },
        };
        let mut sorted: Vec<u128> = Vec::new();
        let mut i: usize = 0;
        while i < source.len()
            invariant
                i <= source@.len(),
                ascending(sorted@),
                forall|a: u128| #[trigger]
                    sorted@.contains(a) <==> self.handles().contains_key(a)
                        && source@.take(i as int).contains(a),
            decreases source@.len() - i,
        {
            let id: u128 = source[i];
            let ghost before = sorted@;
            let known: bool = tokens_get(&self.actor_handles, id).is_some();
            if known {
                insert_ascending(&mut sorted, id);
            }
            proof {
                assert forall|a: u128| #[trigger]
                    sorted@.contains(a) <==> self.handles().contains_key(a)
                        && source@.take(i as int + 1).contains(a) by {
                    assert(source@.take(i as int + 1) =~= source@.take(i as int).push(id));
                    if source@.take(i as int).contains(a) {
                        let seen = source@.take(i as int);
                        let k = choose|k: int| 0 <= k < seen.len() && seen[k] == a;
                        assert(source@.take(i as int + 1)[k] == a);
                    }
                    if source@.take(i as int + 1).contains(a) {
                        let seen = source@.take(i as int + 1);
                        let k = choose|k: int| 0 <= k < seen.len() && seen[k] == a;
                        if k < i {
                            assert(source@.take(i as int)[k] == a);
                        }
                    }
                    if a == id {
                        assert(source@.take(i as int + 1)[i as int] == id);
                    }
                    assert(before.contains(a) <==> self.handles().contains_key(a) && source@.take(
                        i as int,
                    ).contains(a));
                }
            }
            i = i + 1;
        }
        proof {
            assert(source@.take(i as int) =~= source@);
            assert forall|a: u128| #[trigger] sorted@.contains(a) <==> wanted(
                self.handles(),
                match actor_ids {
                    Some(ids) => Some(ids@),
                    None => None,
                },
                a,
            ) by {}
        }
        sorted
    }

    /// The actor among those listed that receives model updates for `actor_id`.
    pub fn canonical_model_update_target_from_sorted_actor_ids(
        &self,
        actor_id: u128,
        sorted_actor_ids: &Vec<u128>,
    ) -> (r: u128)
        ensures
            r == canonical(self.shares(), self.devices(), actor_id, sorted_actor_ids@),
    {
        if !self.client_modes.actor_inference_mode.shares_local_model() {
            return actor_id;
        }
        let device: u64 = match tokens_get(&self.actor_devices, actor_id) {
            Some(device) => device,
            None => {
                return actor_id;
            },
        };
        let mut found: Option<u128> = None;
        let mut i: usize = 0;
        while i < sorted_actor_ids.len()
            invariant
                i <= sorted_actor_ids@.len(),
                found == first_on(self.devices(), sorted_actor_ids@.take(i as int), device),
            decreases sorted_actor_ids@.len() - i,
        {
            proof {
                let next = sorted_actor_ids@.take(i as int + 1);
                assert(next.drop_last() =~= sorted_actor_ids@.take(i as int));
            }
            if found.is_none() {
                if let Some(other) = tokens_get(&self.actor_devices, sorted_actor_ids[i]) {
                    if other == device {
                        found = Some(sorted_actor_ids[i]);
                    }
                }
            }
            i = i + 1;
        }
        proof {
            assert(sorted_actor_ids@.take(i as int) =~= sorted_actor_ids@);
        }
        match found {
            Some(first) => first,
            None => actor_id,
        }
    }

    /// The actor that receives model updates for `actor_id`.
    pub fn canonical_model_update_target(&self, actor_id: u128) -> (r: u128)
        ensures
            exists|sorted: Seq<u128>|
                #![trigger lists_wanted(self.handles(), None, sorted)]
                lists_wanted(self.handles(), None, sorted) && r == canonical(
                    self.shares(),
                    self.devices(),
                    actor_id,
                    sorted,
                ),
    {
        let sorted = self.sorted_actor_ids_for_model_updates(None);
        proof {
            assert(lists_wanted(self.handles(), None, sorted@));
        }
        self.canonical_model_update_target_from_sorted_actor_ids(actor_id, &sorted)
    }

    /// The actors that a model update for those asked for, or for all, is sent to.
    pub fn model_update_dispatch_targets_for_subset(&self, actor_ids: Option<&Vec<u128>>) -> (r: Vec<
        u128,
    >)
        ensures
            exists|sorted: Seq<u128>|
                #![trigger representatives(self.shares(), self.devices(), sorted, sorted.len() as int)]
                lists_wanted(
                    self.handles(),
                    match actor_ids {
                        Some(ids) => Some(ids@),
                        None => None,
                    },
                    sorted,
                ) && r@ == representatives(
                    self.shares(),
                    self.devices(),
                    sorted,
                    sorted.len() as int,
                ),
    {
        let sorted = self.sorted_actor_ids_for_model_updates(actor_ids);
        let ghost shared = self.shares();
        let ghost devices = self.devices();
        let mut targets: Vec<u128> = Vec::new();
        let mut i: usize = 0;
        while i < sorted.len()
            invariant
                i <= sorted@.len(),
                shared == self.shares(),
                devices == self.devices(),
                ascending(sorted@),
                targets@ == representatives(shared, devices, sorted@, i as int),
            decreases sorted@.len() - i,
        {
            let target: u128 = self.canonical_model_update_target_from_sorted_actor_ids(
                sorted[i],
                &sorted,
            );
            proof {
                law_canonical_target_represents_itself(shared, devices, sorted@, i as int);
                lemma_representatives(shared, devices, sorted@, i as int, target);
                let j = choose|j: int| 0 <= j <= i && #[trigger] sorted@[j] == target;
                if j < i {
                    assert(sorted@[j] < sorted@[i as int]);
                    assert(targets@.contains(target));
                } else {
                    if targets@.contains(target) {
                        let k = choose|k: int| 0 <= k < i && #[trigger] sorted@[k] == target;
                        assert(sorted@[k] < sorted@[i as int]);
                    }
                }
            }
            if !is_listed(&targets, target) {
                targets.push(target);
            }
            i = i + 1;
        }
        targets
    }

    /// The actors that a model update for all is sent to.
    pub fn model_update_dispatch_targets(&self) -> (r: Vec<u128>)
        ensures
            exists|sorted: Seq<u128>|
                #![trigger representatives(self.shares(), self.devices(), sorted, sorted.len() as int)]
                lists_wanted(self.handles(), None, sorted) && r@ == representatives(
                    self.shares(),
                    self.devices(),
                    sorted,
                    sorted.len() as int,
                ),
    {
        self.model_update_dispatch_targets_for_subset(None)
    }
}

/// The message that shuts an actor down.
pub fn shutdown_message(actor_id: u128) -> (r: RoutedMessage)
    ensures
        r == (RoutedMessage {
            actor_id,
            protocol: RoutingProtocol::Shutdown,
            payload: RoutedPayload::Shutdown,
        }),
{
    RoutedMessage {
        actor_id,
        protocol: RoutingProtocol::Shutdown,
        payload: RoutedPayload::Shutdown,
    }
}

/// Reports that an actor did not shut down in time.
pub fn shutdown_timeout(actor_id: u128) -> (r: StateManagerError)
    ensures
        r matches StateManagerError::ShutdownAllActorsError(m) && m@
            == "[StateManager] Shutdown all actors timeout: "@ + uuid_chars(actor_id),
{
    let mut m = "[StateManager] Shutdown all actors timeout: ".to_owned();
    let id_text = uuid_text(actor_id);
    m.append(id_text.as_str());
    StateManagerError::ShutdownAllActorsError(m)
}

proof fn lemma_moved_back<V>(m: Map<u128, V>, from: u128, to: u128)
    requires
        !m.contains_key(to),
    ensures
        moved(moved(m, from, to), to, from) == m,
{
    assert(moved(moved(m, from, to), to, from) =~= m);
}

/// Whether a state has the shared models of another, and maybe more, under the same setting.
pub open spec fn keeps_models(before: StateManager, after: StateManager) -> bool {
    &&& after.same_setting(before)
    &&& before.shared_local_models@.is_prefix_of(after.shared_local_models@)
}

proof fn lemma_slot_stays(before: Seq<(u64, u64)>, after: Seq<(u64, u64)>, device: u64)
    requires
        before.is_prefix_of(after),
        slot_of(before, device) is Some,
    ensures
        slot_of(after, device) == slot_of(before, device),
    decreases after.len(),
{
    if after.len() > before.len() {
        assert(before.is_prefix_of(after.drop_last()));
        lemma_slot_stays(before, after.drop_last(), device);
    } else {
        assert(after =~= before);
    }
}

/// Adding, removing and renaming actors, and giving them models, keeps the shared models that there
/// are.
pub proof fn law_actors_keep_shared_models(
    before: StateManager,
    after: StateManager,
    id: u128,
    other: u128,
    router: Seq<char>,
    device: u64,
    load: ModelLoad,
    fresh: ActorTokens,
    added: NewActor,
    removed: RemovedActor,
    renamed: Result<(), StateManagerError>,
    given: Result<(u64, bool), StateManagerError>,
)
    requires
        before.adds(after, id, router, device, load, fresh, added) || before.removes(
            after,
            id,
            removed,
        ) || before.renames(after, id, other, renamed) || before.gives_model(
            after,
            device,
            load,
            fresh.model,
            given,
        ),
    ensures
        keeps_models(before, after),
{
}

/// Where actors share models, a device keeps the token that it was first given, whatever is loaded
/// later and whatever comes between, and needs no further handshake. Where they do not, each gets
/// the fresh one.
pub proof fn law_device_keeps_its_model(
    before: StateManager,
    device: u64,
    load: ModelLoad,
    fresh: u64,
    between: StateManager,
    first: Result<(u64, bool), StateManagerError>,
    later: StateManager,
    later_load: ModelLoad,
    later_fresh: u64,
    after: StateManager,
    second: Result<(u64, bool), StateManagerError>,
)
    requires
        before.gives_model(between, device, load, fresh, first),
        first is Ok,
        keeps_models(between, later),
        later.gives_model(after, device, later_load, later_fresh, second),
    ensures
        before.shares() ==> second == Ok::<(u64, bool), StateManagerError>((first->Ok_0.0, false)),
        !before.shares() ==> first->Ok_0.0 == fresh && (second is Ok ==> second->Ok_0.0
            == later_fresh),
{
    if before.shares() {
        let slots = between.shared_local_models@;
        if slot_of(before.shared_local_models@, device) is None {
            assert(slots.drop_last() =~= before.shared_local_models@);
        }
        assert(slot_of(slots, device) == Some(first->Ok_0.0));
        lemma_slot_stays(slots, later.shared_local_models@, device);
    }
}

/// Giving an actor an identifier that nothing has, and then its own again, leaves all actors as
/// they were.
pub proof fn law_renaming_back_restores(
    before: StateManager,
    between: StateManager,
    after: StateManager,
    own: u128,
    other: u128,
    there: Result<(), StateManagerError>,
    back: Result<(), StateManagerError>,
)
    requires
        before.renames(between, own, other, there),
        between.renames(after, other, own, back),
        before.handles().contains_key(own),
        before.inboxes().contains_key(own),
        !before.handles().contains_key(other),
        !before.inboxes().contains_key(other),
        !before.devices().contains_key(other),
        !before.routers().contains_key(other),
    ensures
        after.handles() == before.handles(),
        after.inboxes() == before.inboxes(),
        after.devices() == before.devices(),
        after.models() == before.models(),
        after.routers() == before.routers(),
        after.actor_count == before.actor_count,
{
    lemma_moved_back(before.handles(), own, other);
    lemma_moved_back(before.inboxes(), own, other);
    lemma_moved_back(before.devices(), own, other);
    lemma_moved_back(before.routers(), own, other);
}

/// What a caller is told of a call of the registry.
pub fn registry_outcome(r: Result<(), active_uuid_registry::UuidPoolError>) -> (out: Result<
    (),
    StateManagerError,
>)
    ensures
        match r {
            Ok(_) => out == Ok::<(), StateManagerError>(()),
            Err(e) => out == Err::<(), StateManagerError>(StateManagerError::UuidPoolError(e)),
        },
{
    match r {
        Ok(_) => Ok(()),
        Err(e) => Err(StateManagerError::from(e)),
    }
}

proof fn lemma_ascending_unique(a: Seq<u128>, b: Seq<u128>)
    requires
        ascending(a),
        ascending(b),
        forall|x: u128| #[trigger] a.contains(x) <==> b.contains(x),
    ensures
        a == b,
    decreases a.len(),
{
    if a.len() == 0 {
        if b.len() > 0 {
            assert(b.contains(b[0]));
            assert(a.contains(b[0]));
        }
        assert(a =~= b);
    } else {
        assert(a.contains(a.last()));
        assert(b.contains(a.last()));
        let j = choose|j: int| 0 <= j < b.len() && b[j] == a.last();
        assert(b.contains(b.last()));
        assert(a.contains(b.last()));
        let i = choose|i: int| 0 <= i < a.len() && a[i] == b.last();
        if a.last() != b.last() {
            if i < a.len() - 1 {
                assert(a[i] < a[a.len() - 1]);
            }
            if j < b.len() - 1 {
                assert(b[j] < b[b.len() - 1]);
            }
        }
        let ai = a.drop_last();
        let bi = b.drop_last();
        assert forall|x: u128| #[trigger] ai.contains(x) <==> bi.contains(x) by {
            if ai.contains(x) {
                let k = choose|k: int| 0 <= k < ai.len() && ai[k] == x;
                assert(a[k] == x && a[k] < a[a.len() - 1]);
                assert(a.contains(x));
                let l = choose|l: int| 0 <= l < b.len() && b[l] == x;
                assert(bi[l] == x);
            }
            if bi.contains(x) {
                let k = choose|k: int| 0 <= k < bi.len() && bi[k] == x;
                assert(b[k] == x && b[k] < b[b.len() - 1]);
                assert(b.contains(x));
                assert(a.contains(x));
                let l = choose|l: int| 0 <= l < a.len() && a[l] == x;
                assert(ai[l] == x);
            }
        }
        lemma_ascending_unique(ai, bi);
        assert(a =~= ai.push(a.last()));
        assert(b =~= bi.push(b.last()));
    }
}

/// The list of actors that a model update is meant for is one and the same, whatever the order in
/// which the actors are stored or asked for.
pub proof fn law_wanted_list_is_unique(
    handles: Map<u128, u64>,
    asked: Option<Seq<u128>>,
    a: Seq<u128>,
    b: Seq<u128>,
)
    requires
        lists_wanted(handles, asked, a),
        lists_wanted(handles, asked, b),
    ensures
        a == b,
{
    assert forall|x: u128| #[trigger] a.contains(x) <==> b.contains(x) by {
        assert(a.contains(x) <==> wanted(handles, asked, x));
        assert(b.contains(x) <==> wanted(handles, asked, x));
    }
    lemma_ascending_unique(a, b);
}

/// A model given for an actor is always taken; one in the cache only without such a model, the local
/// file only without both, and a model is left to be asked for only where there is none of the
/// three.
pub proof fn law_models_come_from_the_nearest_source(given: bool, cached: bool, path: PathView)
    ensures
        spec_model_source(given, cached, path) is Parameter <==> given,
        spec_model_source(given, cached, path) is Cache <==> !given && cached,
        spec_model_source(given, cached, path) is LocalPath <==> !given && !cached
            && !path.is_empty(),
        spec_model_source(given, cached, path) is Nowhere <==> !given && !cached && path.is_empty(),
        ModelSource::Parameter.spec_failure()
            == "[StateManager] Failed to create reloadable model from parameter"@,
        ModelSource::Cache.spec_failure()
            == "[StateManager] Failed to create reloadable model from cache"@,
        ModelSource::LocalPath.spec_failure()
            == "[StateManager] Failed to load model from local_model_path"@,
{
}

/// The token that a device shares is the one that it was given first, and a device that was given
/// none shares none.
pub proof fn law_devices_share_their_first_model(slots: Seq<(u64, u64)>, device: u64, i: int)
    ensures
        0 <= i < slots.len() && slots[i].0 == device && (forall|k: int|
            0 <= k < i ==> (#[trigger] slots[k]).0 != device) ==> slot_of(slots, device) == Some(
            slots[i].1,
        ),
        (forall|k: int| 0 <= k < slots.len() ==> (#[trigger] slots[k]).0 != device) ==> slot_of(
            slots,
            device,
        ) is None,
    decreases slots.len(),
{
    if slots.len() > 0 {
        let init = slots.drop_last();
        law_devices_share_their_first_model(init, device, i);
        assert(forall|k: int| 0 <= k < init.len() ==> init[k] == slots[k]);
        let last = slots.len() - 1;
        if 0 <= i < slots.len() && slots[i].0 == device && (forall|k: int|
            0 <= k < i ==> (#[trigger] slots[k]).0 != device) {
            if i < last {
                assert(slot_of(init, device) == Some(slots[i].1));
            } else {
                assert(forall|k: int| 0 <= k < init.len() ==> (#[trigger] init[k]).0 != device);
            }
        }
        if forall|k: int| 0 <= k < slots.len() ==> (#[trigger] slots[k]).0 != device {
            assert(slots[last].0 != device);
            assert(forall|k: int| 0 <= k < init.len() ==> (#[trigger] init[k]).0 != device);
        }
    }
}

/// What moves from one identifier to another is then found there and no longer where it was, and
/// nothing else changes.
pub proof fn law_moving_changes_one_binding<V>(m: Map<u128, V>, from: u128, to: u128, other: u128)
    ensures
        m.contains_key(from) ==> moved(m, from, to).contains_key(to) && moved(m, from, to)[to]
            == m[from],
        m.contains_key(from) && from != to ==> !moved(m, from, to).contains_key(from),
        !m.contains_key(from) ==> moved(m, from, to) == m,
        other != from && other != to ==> (moved(m, from, to).contains_key(other)
            <==> m.contains_key(other)),
        other != from && other != to && m.contains_key(other) ==> moved(m, from, to)[other]
            == m[other],
{
}

/// Where actors do not share a model each receives its own updates. Where they do, an actor's
/// updates go to one on the same device, to the same one for all that are listed there, and to the
/// actor itself if its device is not known.
pub proof fn law_updates_go_to_one_actor_of_the_device(
    shared: bool,
    devices: Map<u128, u64>,
    a: u128,
    b: u128,
    actors: Seq<u128>,
)
    ensures
        !shared ==> canonical(shared, devices, a, actors) == a,
        !devices.contains_key(a) ==> canonical(shared, devices, a, actors) == a,
        devices.contains_key(a) ==> runs_on(
            devices,
            canonical(shared, devices, a, actors),
            devices[a],
        ),
        shared && devices.contains_key(a) && devices.contains_key(b) && devices[a] == devices[b]
            && actors.contains(a) && actors.contains(b) ==> canonical(shared, devices, a, actors)
            == canonical(shared, devices, b, actors),
        shared && devices.contains_key(a) && devices.contains_key(b) && devices[a] != devices[b]
            ==> canonical(shared, devices, a, actors) != canonical(shared, devices, b, actors),
        devices.contains_key(b) ==> (runs_on(devices, a, devices[b]) <==> devices.contains_key(a)
            && devices[a] == devices[b]),
{
    if devices.contains_key(a) {
        lemma_first_on(devices, actors, devices[a]);
    }
    if devices.contains_key(b) {
        lemma_first_on(devices, actors, devices[b]);
    }
    if shared && devices.contains_key(a) && devices.contains_key(b) && devices[a] == devices[b]
        && actors.contains(a) {
        let k = choose|k: int| 0 <= k < actors.len() && actors[k] == a;
        assert(runs_on(devices, actors[k], devices[a]));
    }
}

/// An actor is meant by a model update exactly if it is known, and listed where a list is given. The
/// actors that are meant come in ascending order, none of them twice.
pub proof fn law_known_actors_are_meant(
    handles: Map<u128, u64>,
    ids: Seq<u128>,
    actor: u128,
    r: Seq<u128>,
    i: int,
    j: int,
)
    ensures
        wanted(handles, None, actor) <==> handles.contains_key(actor),
        wanted(handles, Some(ids), actor) <==> handles.contains_key(actor) && ids.contains(actor),
        lists_wanted(handles, None, r) ==> (r.contains(actor) <==> handles.contains_key(actor)),
        lists_wanted(handles, Some(ids), r) ==> (r.contains(actor) <==> handles.contains_key(actor)
            && ids.contains(actor)),
        lists_wanted(handles, None, r) || lists_wanted(handles, Some(ids), r) ==> (0 <= i < j
            < r.len() ==> r[i] < r[j]),
{
}

/// A list that enumerates the actors names each of them once and no others.
pub proof fn law_lists_name_each_actor_once(actors: Seq<u128>, handles: Map<u128, u64>, i: int, j: int, id: u128)
    requires
        enumerates(actors, handles),
    ensures
        0 <= i < j < actors.len() ==> actors[i] != actors[j],
        actors.contains(id) <==> handles.contains_key(id),
        0 <= i < actors.len() ==> handles.contains_key(actors[i]),
{
    if 0 <= i < actors.len() {
        assert(actors.contains(actors[i]));
    }
}

/// An actor that was added is known by the tokens that it was given, on its device and under its
/// router, and no other actor changes. Its model is the one that its device shares, if it shares
/// one, and else the fresh one, which is still to be asked for only where no model was loaded.
pub proof fn law_added_actors_are_known(
    before: StateManager,
    after: StateManager,
    id: u128,
    router: Seq<char>,
    device: u64,
    load: ModelLoad,
    fresh: ActorTokens,
    r: NewActor,
    other: u128,
)
    requires
        before.adds(after, id, router, device, load, fresh, r),
        other != id,
    ensures
        r.outcome is Ok ==> {
            &&& after.handles().contains_key(id) && after.handles()[id] == fresh.handle
            &&& after.inboxes().contains_key(id) && after.inboxes()[id] == fresh.inbox
            &&& after.devices().contains_key(id) && after.devices()[id] == device
            &&& after.routers().contains_key(id) && after.routers()[id] == router
            &&& after.models().contains_key(id)
            &&& before.shares() && slot_of(before.shared_local_models@, device) is Some
                ==> after.models()[id] == slot_of(before.shared_local_models@, device)->0
                && r.outcome == Ok::<bool, StateManagerError>(false)
            &&& !(before.shares() && slot_of(before.shared_local_models@, device) is Some)
                ==> after.models()[id] == fresh.model && r.outcome == Ok::<bool, StateManagerError>(
                load.source == ModelSource::Nowhere,
            )
            &&& before.shares() ==> slot_of(after.shared_local_models@, device) == Some(
                after.models()[id],
            )
            &&& !before.shares() ==> after.shared_local_models@ == before.shared_local_models@
        },
        r.outcome is Err ==> !after.handles().contains_key(id),
        r.replaced_handle is Some <==> before.handles().contains_key(id),
        before.handles().contains_key(id) ==> r.replaced_handle == Some(before.handles()[id]),
        after.handles().contains_key(other) <==> before.handles().contains_key(other),
        after.handles().contains_key(other) ==> after.handles()[other] == before.handles()[other],
        after.inboxes().contains_key(other) <==> before.inboxes().contains_key(other),
        after.inboxes().contains_key(other) ==> after.inboxes()[other] == before.inboxes()[other],
        after.devices().contains_key(other) <==> before.devices().contains_key(other),
        after.devices().contains_key(other) ==> after.devices()[other] == before.devices()[other],
        after.models().contains_key(other) <==> before.models().contains_key(other),
        after.models().contains_key(other) ==> after.models()[other] == before.models()[other],
        after.routers().contains_key(other) <==> before.routers().contains_key(other),
        after.routers().contains_key(other) ==> after.routers()[other] == before.routers()[other],
        !before.handles().contains_key(id) && r.outcome is Ok && before.actor_count < usize::MAX
            ==> after.actor_count == before.actor_count + 1,
        !before.handles().contains_key(id) && r.outcome is Err ==> after.actor_count
            == before.actor_count,
        before.handles().contains_key(id) && r.outcome is Ok && before.actor_count > 0
            ==> after.actor_count == before.actor_count,
        !before.handles().contains_key(id) && (!load.failed || load.source == ModelSource::Nowhere)
            ==> r.outcome is Ok,
        load.failed && load.source != ModelSource::Nowhere && !(before.shares() && slot_of(
            before.shared_local_models@,
            device,
        ) is Some) ==> r.outcome is Err,
{
    if r.outcome is Ok && before.shares() && slot_of(before.shared_local_models@, device) is None {
        assert(after.shared_local_models@.drop_last() =~= before.shared_local_models@);
    }
}

/// An actor that was removed is known no more, its task is handed out to be ended, and no other
/// actor changes.
pub proof fn law_removed_actors_are_forgotten(
    before: StateManager,
    after: StateManager,
    id: u128,
    r: RemovedActor,
    other: u128,
)
    requires
        before.removes(after, id, r),
        other != id,
    ensures
        !after.handles().contains_key(id) && !after.inboxes().contains_key(id)
            && !after.devices().contains_key(id) && !after.models().contains_key(id)
            && !after.routers().contains_key(id),
        before.handles().contains_key(id) ==> r.handle == Some(before.handles()[id]),
        !before.handles().contains_key(id) ==> r.handle is None,
        before.actor_count > 0 ==> after.actor_count == before.actor_count - 1,
        after.handles().contains_key(other) <==> before.handles().contains_key(other),
        after.handles().contains_key(other) ==> after.handles()[other] == before.handles()[other],
        after.inboxes().contains_key(other) <==> before.inboxes().contains_key(other),
        after.inboxes().contains_key(other) ==> after.inboxes()[other] == before.inboxes()[other],
        after.devices().contains_key(other) <==> before.devices().contains_key(other),
        after.devices().contains_key(other) ==> after.devices()[other] == before.devices()[other],
        after.models().contains_key(other) <==> before.models().contains_key(other),
        after.models().contains_key(other) ==> after.models()[other] == before.models()[other],
        after.routers().contains_key(other) <==> before.routers().contains_key(other),
        after.routers().contains_key(other) ==> after.routers()[other] == before.routers()[other],
        after.shared_local_models == before.shared_local_models,
{
}

/// A renamed actor keeps its task, inbox, device and router under its new identifier, while its
/// model stays under the old one. Only an actor that is known and reachable can be renamed, and only
/// to an identifier that no actor has; a refusal says which of these fails and changes nothing.
pub proof fn law_renamed_actors_keep_what_they_have(
    before: StateManager,
    after: StateManager,
    id: u128,
    new_id: u128,
    r: Result<(), StateManagerError>,
    other: u128,
)
    requires
        before.renames(after, id, new_id, r),
        other != id && other != new_id,
    ensures
        ({
            let known = before.handles().contains_key(id);
            let reachable = before.inboxes().contains_key(id);
            let taken = before.handles().contains_key(new_id) || before.inboxes().contains_key(new_id);
            &&& known && reachable && !taken ==> {
                &&& after.handles().contains_key(new_id) && after.handles()[new_id]
                    == before.handles()[id]
                &&& after.inboxes().contains_key(new_id) && after.inboxes()[new_id]
                    == before.inboxes()[id]
                &&& before.devices().contains_key(id) ==> after.devices().contains_key(new_id)
                    && after.devices()[new_id] == before.devices()[id]
                &&& before.routers().contains_key(id) ==> after.routers().contains_key(new_id)
                    && after.routers()[new_id] == before.routers()[id]
                &&& !after.handles().contains_key(id) && !after.inboxes().contains_key(id)
                &&& !after.devices().contains_key(id) && !after.routers().contains_key(id)
                &&& r matches Err(e) ==> e is UuidPoolError
            }
            &&& !known || !reachable || taken ==> {
                &&& r is Err
                &&& after.handles() == before.handles() && after.inboxes() == before.inboxes()
                &&& after.devices() == before.devices() && after.routers() == before.routers()
            }
            &&& !known ==> r->Err_0 is ActorHandleNotFoundError
            &&& known && !reachable ==> r->Err_0 is ActorInboxNotFoundError
            &&& known && reachable && taken ==> r->Err_0 is ActorAlreadyTakenError
        }),
        after.models() == before.models(),
        after.actor_count == before.actor_count,
        after.handles().contains_key(other) <==> before.handles().contains_key(other),
        after.handles().contains_key(other) ==> after.handles()[other] == before.handles()[other],
        after.inboxes().contains_key(other) <==> before.inboxes().contains_key(other),
        after.inboxes().contains_key(other) ==> after.inboxes()[other] == before.inboxes()[other],
        after.devices().contains_key(other) <==> before.devices().contains_key(other),
        after.devices().contains_key(other) ==> after.devices()[other] == before.devices()[other],
        after.routers().contains_key(other) <==> before.routers().contains_key(other),
        after.routers().contains_key(other) ==> after.routers()[other] == before.routers()[other],
{
}

/// A model is given exactly where the device shares one already or none failed to load. A failed
/// load is reported by where it was from, and changes nothing.
pub proof fn law_failed_loads_give_no_model(
    before: StateManager,
    after: StateManager,
    device: u64,
    load: ModelLoad,
    fresh: u64,
    r: Result<(u64, bool), StateManagerError>,
)
    requires
        before.gives_model(after, device, load, fresh, r),
    ensures
        r is Err <==> !(before.shares() && slot_of(before.shared_local_models@, device) is Some)
            && load.failed && load.source != ModelSource::Nowhere,
        r matches Err(e) ==> (e matches StateManagerError::FailedToCreateReloadableModelError(m)
            && m@ == load.source.spec_failure()) && after.shared_local_models@
            == before.shared_local_models@,
        r matches Ok(given) ==> {
            &&& before.shares() ==> slot_of(after.shared_local_models@, device) == Some(given.0)
            &&& given.1 ==> load.source == ModelSource::Nowhere && given.0 == fresh
            &&& !before.shares() ==> given == (fresh, load.source == ModelSource::Nowhere)
        },
        after.handles() == before.handles() && after.inboxes() == before.inboxes()
            && after.devices() == before.devices() && after.models() == before.models()
            && after.routers() == before.routers(),
        after.actor_count == before.actor_count,
{
    if r is Ok && before.shares() && slot_of(before.shared_local_models@, device) is None {
        assert(after.shared_local_models@.drop_last() =~= before.shared_local_models@);
    }
}

/// An actor is registered under its client's namespace, in the context of actors, with its own
/// identifier.
pub proof fn law_actors_are_registered_as_such(m: StateManager, id: u128, entry: IdEntry)
    requires
        m.is_entry_of(id, entry),
    ensures
        entry.namespace@ == m.client_namespace@,
        entry.context@ == "actor"@,
        entry.id == id,
{
}

/// Actors share a model per device exactly where they compute locally and share.
pub proof fn law_actors_share_only_in_the_shared_local_mode(m: StateManager)
    ensures
        m.shares() <==> (m.client_modes.actor_inference_mode matches
            crate::modes::ActorInferenceMode::Local(how) && how == crate::modes::ModelMode::Shared),
{
}

/// Whatever becomes of its actors, a client keeps its namespace and its modes.
pub proof fn law_clients_keep_their_setting(
    before: StateManager,
    after: StateManager,
    id: u128,
    other: u128,
    router: Seq<char>,
    device: u64,
    load: ModelLoad,
    fresh: ActorTokens,
    added: NewActor,
    removed: RemovedActor,
    renamed: Result<(), StateManagerError>,
    given: Result<(u64, bool), StateManagerError>,
)
    requires
        before.adds(after, id, router, device, load, fresh, added) || before.removes(
            after,
            id,
            removed,
        ) || before.renames(after, id, other, renamed) || before.gives_model(
            after,
            device,
            load,
            fresh.model,
            given,
        ),
    ensures
        after.client_namespace == before.client_namespace,
        after.client_modes == before.client_modes,
{
}

/// Assignments that are restored are those given, in their order, each actor with its router.
pub proof fn law_mappings_are_taken_as_given(mappings: Seq<(u128, String)>, i: int)
    ensures
        mapping_views(mappings).len() == mappings.len(),
        0 <= i < mappings.len() ==> mapping_views(mappings)[i].0 == mappings[i].0,
        0 <= i < mappings.len() ==> mapping_views(mappings)[i].1 == mappings[i].1@,
{
}

} // verus!
