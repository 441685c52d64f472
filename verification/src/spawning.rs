//! Requests to bring objects into the world.
//!
//! A request names what to spawn, where, and optionally the container under
//! which it is to hang. A sender is filled step by step and may be sent any
//! number of times; each sending appends one request to a queue.
//!
//! Containers are known by name. A queue of requests is answered with a
//! plan: which containers have to be made first, each of them once, and
//! below what every requested object goes.

use vstd::prelude::*;
use crate::components::Entity;
use crate::transform::{identity, placed_at, Transform};
use crate::vector::Vec3;

verus! {

/// The kinds of object that can be spawned.
#[derive(Clone, Copy, Debug, PartialEq, Eq, Hash, Structural)]
pub enum GameObject {
    Grass,
    Doorway,
    Wall,
}

/// A request to spawn `object` at `transform`, below the container named
/// `parent` if there is one.
#[derive(Clone, Debug, PartialEq)]
pub struct SpawnEvent {
    pub object: GameObject,
    pub transform: Transform,
    pub parent: Option<String>,
}

/// A request in the making.
pub struct SpawnEventSender {
    pub object: GameObject,
    pub transform: Transform,
    pub parent: Option<String>,
}

impl SpawnEventSender {
    /// The request that a sender stands for at the moment.
    pub open spec fn event(self) -> SpawnEvent {
        SpawnEvent { object: self.object, transform: self.transform, parent: self.parent }
    }

    /// A sender for `object`, at the origin and without a container.
    pub fn new(object: GameObject) -> (r: Self)
        ensures
            r == (SpawnEventSender { object, transform: identity(), parent: None }),
    {
        Self { object, transform: Transform::default(), parent: None }
    }

    /// Sets the whole placement.
    pub fn with_transform(&mut self, transform: Transform) -> (r: &mut Self)
        ensures
            *r == (SpawnEventSender { transform, ..*old(self) }),
            *final(self) == *final(r),
    {
        self.transform = transform;
        self
    }

    /// Places the object at `translation`, not turned and not scaled,
    /// whatever its placement was.
    pub fn with_translation(&mut self, translation: Vec3) -> (r: &mut Self)
        ensures
            *r == (SpawnEventSender { transform: placed_at(translation), ..*old(self) }),
            *final(self) == *final(r),
    {
        self.transform = Transform::from_translation(translation);
        self
    }

    /// Names the container below which the object is to hang.
    pub fn with_parent(&mut self, parent: String) -> (r: &mut Self)
        ensures
            *r == (SpawnEventSender { parent: Some(parent), ..*old(self) }),
            *final(self) == *final(r),
    {
        self.parent = Some(parent);
        self
    }

    /// Appends the request to `events` and leaves the sender as it is.
    pub fn send(&mut self, events: &mut Vec<SpawnEvent>) -> (r: &mut Self)
        ensures
            final(events)@ == old(events)@.push(old(self).event()),
            *r == *old(self),
            *final(self) == *final(r),
    {
        let parent = match &self.parent {
            Some(name) => Some(name.clone()),
            None => None,
        };
        let event = SpawnEvent { object: self.object, transform: self.transform, parent };
        events.push(event);
        self
    }
}

/// Below what a requested object goes.
#[derive(Clone, Copy, Debug, PartialEq, Eq, Structural)]
pub enum SpawnParent {
    /// Below nothing.
    Root,
    /// Below a container that exists.
    Existing(Entity),
    /// Below the container to be made that stands at this place in the plan.
    New(usize),
}

/// What to do about a queue of requests.
#[derive(Debug, PartialEq)]
pub struct SpawnPlan {
    /// Names of the containers to make, in the order in which they were first asked for.
    pub containers: Vec<String>,
    /// For each request, in the order of the queue, below what its object goes.
    pub parents: Vec<SpawnParent>,
}

/// The entity registered under `name`: that of the first entry of that name.
pub open spec fn registered(containers: Seq<(String, Entity)>, name: Seq<char>) -> Option<Entity>
    decreases containers.len(),
{
    if containers.len() == 0 {
        None
    } else if containers.first().0@ == name {
        Some(containers.first().1)
    } else {
        registered(containers.drop_first(), name)
    }
}

/// The names that the first `n` requests ask for and that no container is
/// registered under, each once, in the order in which they first occur.
pub open spec fn missing_containers(
    requests: Seq<SpawnEvent>,
    containers: Seq<(String, Entity)>,
    n: nat,
) -> Seq<Seq<char>>
    decreases n,
{
    if n == 0 {
        Seq::empty()
    } else {
        let earlier = missing_containers(requests, containers, (n - 1) as nat);
        match requests[n - 1].parent {
            Some(name) => if registered(containers, name@) is None && !earlier.contains(name@) {
                earlier.push(name@)
            } else {
                earlier
            },
            None => earlier,
        }
    }
}

/// Below what the object of one request goes, given the names of the
/// containers to be made.
pub open spec fn parent_for(
    request: SpawnEvent,
    containers: Seq<(String, Entity)>,
    missing: Seq<Seq<char>>,
) -> SpawnParent {
    match request.parent {
        None => SpawnParent::Root,
        Some(name) => match registered(containers, name@) {
            Some(entity) => SpawnParent::Existing(entity),
            None => SpawnParent::New(missing.index_of(name@) as usize),
        },
    }
}

/// The names of a list of strings.
pub open spec fn names(strings: Seq<String>) -> Seq<Seq<char>> {
    Seq::new(strings.len(), |i: int| strings[i]@)
}

/// Looks `name` up among the registered containers.
fn find_registered(containers: &Vec<(String, Entity)>, name: &String) -> (r: Option<Entity>)
    ensures
        r == registered(containers@, name@),
{
    let mut i: usize = 0;
    assert(containers@.skip(0) =~= containers@);
    while i < containers.len()
        invariant
            i <= containers@.len(),
            registered(containers@, name@) == registered(containers@.skip(i as int), name@),
        decreases containers@.len() - i,
    {
        if containers[i].0 == *name {
            assert(containers@.skip(i as int).first() == containers@[i as int]);
            return Some(containers[i].1);
        }
        proof {
            assert(containers@.skip(i as int).first() == containers@[i as int]);
            assert(containers@.skip(i as int).drop_first() =~= containers@.skip(i + 1));
        }
        i += 1;
    }
    assert(containers@.skip(i as int).len() == 0);
    None
}

/// Looks `name` up among the containers to be made.
fn find_missing(missing: &Vec<String>, name: &String) -> (r: Option<usize>)
    ensures
        r is Some <==> names(missing@).contains(name@),
        r is Some ==> r.unwrap() < missing@.len() && missing@[r.unwrap() as int]@ == name@,
{
    let mut i: usize = 0;
    while i < missing.len()
        invariant
            i <= missing@.len(),
            forall|j: int| 0 <= j < i ==> missing@[j]@ != name@,
        decreases missing@.len() - i,
    {
        if missing[i] == *name {
            assert(names(missing@)[i as int] == name@);
            return Some(i);
        }
        i += 1;
    }
    assert forall|j: int| 0 <= j < names(missing@).len() implies names(missing@)[j] != name@ by {
        assert(names(missing@)[j] == missing@[j]@);
    }
    None
}

/// The names to be made never repeat, and none of them is registered.
pub proof fn lemma_missing_containers_are_new(
    requests: Seq<SpawnEvent>,
    containers: Seq<(String, Entity)>,
    n: nat,
)
    ensures
        missing_containers(requests, containers, n).no_duplicates(),
        forall|i: int|
            0 <= i < missing_containers(requests, containers, n).len() ==> registered(
                containers,
                #[trigger] missing_containers(requests, containers, n)[i],
            ) is None,
    decreases n,
{
    if n > 0 {
        lemma_missing_containers_are_new(requests, containers, (n - 1) as nat);
    }
}

/// A name that was missing early on stays where it is as more requests come.
pub proof fn lemma_missing_containers_grow(
    requests: Seq<SpawnEvent>,
    containers: Seq<(String, Entity)>,
    m: nat,
    n: nat,
)
    requires
        m <= n,
    ensures
        missing_containers(requests, containers, m).is_prefix_of(
            missing_containers(requests, containers, n),
        ),
    decreases n,
{
    if m < n {
        lemma_missing_containers_grow(requests, containers, m, (n - 1) as nat);
    }
}

/// Every request that names a container which is not registered finds that
/// name among the containers to be made, at the place that its parent
/// gives; so requests of one name go below one and the same container.
pub proof fn new_parent_carries_the_name(
    requests: Seq<SpawnEvent>,
    containers: Seq<(String, Entity)>,
    i: int,
)
    requires
        0 <= i < requests.len(),
        requests[i].parent is Some,
        registered(containers, requests[i].parent.unwrap()@) is None,
    ensures
        ({
            let missing = missing_containers(requests, containers, requests.len());
            let name = requests[i].parent.unwrap()@;
            &&& missing.contains(name)
            &&& 0 <= missing.index_of(name) < missing.len()
            &&& missing[missing.index_of(name)] == name
            &&& parent_for(requests[i], containers, missing) == SpawnParent::New(
                missing.index_of(name) as usize,
            )
        }),
{
    let name = requests[i].parent.unwrap()@;
    let early = missing_containers(requests, containers, (i + 1) as nat);
    let before = missing_containers(requests, containers, i as nat);
    let missing = missing_containers(requests, containers, requests.len());
    if before.contains(name) {
        let k = choose|k: int| 0 <= k < before.len() && before[k] == name;
        assert(early[k] == name);
    } else {
        assert(early == before.push(name));
        assert(early[before.len() as int] == name);
    }
    let k = choose|k: int| 0 <= k < early.len() && early[k] == name;
    lemma_missing_containers_grow(requests, containers, (i + 1) as nat, requests.len());
    assert(missing[k] == name);
}

/// Plans the spawning that a queue of requests asks for, given the
/// containers that are registered by name. A request without a parent goes
/// to the root. A request with a parent goes below the container of that
/// name: the registered one, or one that the plan says to make. Every
/// container to make is named once, however many requests ask for it.
pub fn spawn_requested(spawn_requests: &Vec<SpawnEvent>, spawn_containers: &Vec<(String, Entity)>)
    -> (plan: SpawnPlan)
    ensures
        names(plan.containers@) == missing_containers(
            spawn_requests@,
            spawn_containers@,
            spawn_requests@.len(),
        ),
        plan.parents@.len() == spawn_requests@.len(),
        forall|i: int|
            0 <= i < spawn_requests@.len() ==> #[trigger] plan.parents@[i] == parent_for(
                spawn_requests@[i],
                spawn_containers@,
                names(plan.containers@),
            ),
{
    let mut containers: Vec<String> = Vec::new();
    let mut parents: Vec<SpawnParent> = Vec::new();
    let ghost total = missing_containers(
        spawn_requests@,
        spawn_containers@,
        spawn_requests@.len(),
    );
    let mut i: usize = 0;
    assert(names(containers@) =~= Seq::<Seq<char>>::empty());
    while i < spawn_requests.len()
        invariant
            i <= spawn_requests@.len(),
            total == missing_containers(
                spawn_requests@,
                spawn_containers@,
                spawn_requests@.len(),
            ),
            names(containers@) == missing_containers(spawn_requests@, spawn_containers@, i as nat),
            parents@.len() == i,
            forall|j: int|
                0 <= j < i ==> #[trigger] parents@[j] == parent_for(
                    spawn_requests@[j],
                    spawn_containers@,
                    total,
                ),
        decreases spawn_requests@.len() - i,
    {
        let ghost earlier = names(containers@);
        proof {
            lemma_missing_containers_grow(
                spawn_requests@,
                spawn_containers@,
                (i + 1) as nat,
                spawn_requests@.len(),
            );
            lemma_missing_containers_are_new(
                spawn_requests@,
                spawn_containers@,
                spawn_requests@.len(),
            );
        }
        let parent = match &spawn_requests[i].parent {
            None => SpawnParent::Root,
            Some(name) => match find_registered(spawn_containers, name) {
                Some(entity) => SpawnParent::Existing(entity),
                None => {
                    let place = match find_missing(&containers, name) {
                        Some(place) => place,
                        None => {
                            containers.push(name.clone());
                            assert(names(containers@) =~= earlier.push(name@));
                            containers.len() - 1
                        },
                    };
                    proof {
                        let now = names(containers@);
                        assert(now == missing_containers(
                            spawn_requests@,
                            spawn_containers@,
                            (i + 1) as nat,
                        ));
                        assert(now[place as int] == name@);
                        assert(total[place as int] == name@);
                        assert(total.index_of(name@) == place);
                    }
                    SpawnParent::New(place)
                },
            },
        };
        parents.push(parent);
        i += 1;
    }
    SpawnPlan { containers, parents }
}

} // verus!
