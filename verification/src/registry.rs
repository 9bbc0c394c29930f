//! The hub's registry of worker nodes: a mapping from node id to node
//! record, updated by heartbeats and pruned when a node falls silent.

use crate::host::unix_now;
use vstd::prelude::*;
use vstd::string::*;

verus! {

/// Whether the hub has heard of a node lately.
#[derive(Debug, Clone, Copy, PartialEq, Eq, Structural)]
pub enum NodeStatus {
    Online,
    Offline,
}

/// What a node reports of itself with each heartbeat.
#[derive(Debug, Clone, Copy, PartialEq, Eq, Structural)]
pub enum NodeRuntimeStatus {
    Running,
    Idle,
    Error,
}

/// A worker node as the hub records it.
#[derive(Debug, PartialEq, Eq)]
pub struct Node {
    pub id: String,
    pub hostname: String,
    pub architecture: String,
    pub cpu_count: u32,
    /// When the node was last heard of, in seconds since the Unix epoch.
    pub last_seen: i64,
    pub status: NodeStatus,
    pub runtime_status: Option<NodeRuntimeStatus>,
    pub active_containers: u32,
    /// Set by an administrator to drain the node; never shown to clients.
    pub stop_requested: bool,
}

/// The mathematical content of a [`Node`].
pub struct NodeView {
    pub id: Seq<char>,
    pub hostname: Seq<char>,
    pub architecture: Seq<char>,
    pub cpu_count: u32,
    pub last_seen: i64,
    pub status: NodeStatus,
    pub runtime_status: Option<NodeRuntimeStatus>,
    pub active_containers: u32,
    pub stop_requested: bool,
}

impl View for Node {
    type V = NodeView;

    open spec fn view(&self) -> NodeView {
        NodeView {
            id: self.id@,
            hostname: self.hostname@,
            architecture: self.architecture@,
            cpu_count: self.cpu_count,
            last_seen: self.last_seen,
            status: self.status,
            runtime_status: self.runtime_status,
            active_containers: self.active_containers,
            stop_requested: self.stop_requested,
        }
    }
}

impl Clone for Node {
    fn clone(&self) -> (r: Self)
        ensures
            r == *self,
    {
        Node {
            id: self.id.clone(),
            hostname: self.hostname.clone(),
            architecture: self.architecture.clone(),
            cpu_count: self.cpu_count,
            last_seen: self.last_seen,
            status: self.status,
            runtime_status: self.runtime_status,
            active_containers: self.active_containers,
            stop_requested: self.stop_requested,
        }
    }
}

/// Why the registry refused a request.
#[derive(Debug, Clone, Copy, PartialEq, Eq, Structural)]
pub enum RegistryError {
    /// No node with the given id is registered.
    UnknownNode,
}

/// A node is stale when more than `timeout` seconds have passed since it was
/// last heard of.
pub open spec fn stale(node: NodeView, timeout: int, now: int) -> bool {
    now - node.last_seen > timeout
}

/// A node record after a heartbeat: seen now, online, with the reported
/// runtime status and unit count; everything else as before.
pub open spec fn beat(
    node: NodeView,
    runtime_status: NodeRuntimeStatus,
    active_containers: u32,
    now: i64,
) -> NodeView {
    NodeView {
        last_seen: now,
        status: NodeStatus::Online,
        runtime_status: Some(runtime_status),
        active_containers,
        ..node
    }
}

/// A node record with its stop flag set to `flag`.
pub open spec fn with_stop(node: NodeView, flag: bool) -> NodeView {
    NodeView { stop_requested: flag, ..node }
}

/// The registry after a sweep: the nodes that are not stale, unchanged.
pub open spec fn sweep(m: Map<Seq<char>, NodeView>, timeout: int, now: int) -> Map<
    Seq<char>,
    NodeView,
> {
    Map::new(|id: Seq<char>| m.contains_key(id) && !stale(m[id], timeout, now), |id: Seq<char>| m[id])
}

/// The registry after a heartbeat for `id`: unchanged where the id is
/// unknown.
pub open spec fn heartbeat(
    m: Map<Seq<char>, NodeView>,
    id: Seq<char>,
    runtime_status: NodeRuntimeStatus,
    active_containers: u32,
    now: i64,
) -> Map<Seq<char>, NodeView> {
    if m.contains_key(id) {
        m.insert(id, beat(m[id], runtime_status, active_containers, now))
    } else {
        m
    }
}

/// A heartbeat for an unknown id changes nothing, and so never creates a
/// node; a heartbeat for a known id neither adds nor removes an id.
pub proof fn law_heartbeat_never_creates(
    m: Map<Seq<char>, NodeView>,
    id: Seq<char>,
    runtime_status: NodeRuntimeStatus,
    active_containers: u32,
    now: i64,
)
    ensures
        !m.contains_key(id) ==> heartbeat(m, id, runtime_status, active_containers, now) == m,
        heartbeat(m, id, runtime_status, active_containers, now).dom() == m.dom(),
{
    assert(heartbeat(m, id, runtime_status, active_containers, now).dom() =~= m.dom());
}

/// A registration replaces the record of its id as a whole: what is read
/// back is the new record, whatever the old one held, and no other record
/// changes.
pub proof fn law_register_replaces(m: Map<Seq<char>, NodeView>, node: NodeView)
    ensures
        m.insert(node.id, node)[node.id] == node,
        m.insert(node.id, node).dom() == m.dom().insert(node.id),
        forall|id: Seq<char>|
            id != node.id && m.contains_key(id) ==> #[trigger] m.insert(node.id, node)[id] == m[id],
{
}

/// A sweep removes exactly the stale nodes and leaves the others as they
/// were.
pub proof fn law_sweep_exact(m: Map<Seq<char>, NodeView>, timeout: int, now: int)
    ensures
        forall|id: Seq<char>|
            #[trigger] sweep(m, timeout, now).contains_key(id) <==> m.contains_key(id) && !stale(
                m[id],
                timeout,
                now,
            ),
        forall|id: Seq<char>|
            sweep(m, timeout, now).contains_key(id) ==> #[trigger] sweep(m, timeout, now)[id]
                == m[id],
{
}

/// How often the registry is swept does not matter: a sweep at an earlier
/// time changes nothing about what a later sweep leaves, and a sweep that
/// is repeated at once removes nothing more.
pub proof fn law_sweep_frequency(
    m: Map<Seq<char>, NodeView>,
    timeout: int,
    earlier: int,
    later: int,
)
    requires
        earlier <= later,
    ensures
        sweep(sweep(m, timeout, earlier), timeout, later) == sweep(m, timeout, later),
        sweep(sweep(m, timeout, later), timeout, later) == sweep(m, timeout, later),
{
    assert(sweep(sweep(m, timeout, earlier), timeout, later) =~= sweep(m, timeout, later));
    assert(sweep(sweep(m, timeout, later), timeout, later) =~= sweep(m, timeout, later));
}

/// Whether `now - last_seen` exceeds `timeout`, computed without overflow.
pub fn exceeds(now: i64, last_seen: i64, timeout: i64) -> (r: bool)
    ensures
        r == (now - last_seen > timeout),
{
    (now as i128) - (last_seen as i128) > (timeout as i128)
}

spec fn distinct_ids(s: Seq<Node>) -> bool {
    forall|i: int, j: int| 0 <= i < j < s.len() ==> (#[trigger] s[i]).id@ != (#[trigger] s[j]).id@
}

spec fn has_id(s: Seq<Node>, id: Seq<char>) -> bool {
    exists|i: int| 0 <= i < s.len() && (#[trigger] s[i]).id@ == id
}

spec fn index_of(s: Seq<Node>, id: Seq<char>) -> int {
    choose|i: int| 0 <= i < s.len() && (#[trigger] s[i]).id@ == id
}

spec fn as_map(s: Seq<Node>) -> Map<Seq<char>, NodeView> {
    Map::new(|id: Seq<char>| has_id(s, id), |id: Seq<char>| s[index_of(s, id)]@)
}

proof fn lemma_entry(s: Seq<Node>, i: int)
    requires
        distinct_ids(s),
        0 <= i < s.len(),
    ensures
        as_map(s).contains_key(s[i].id@),
        as_map(s)[s[i].id@] == s[i]@,
{
    let id = s[i].id@;
    assert(has_id(s, id));
    let j = index_of(s, id);
    assert(0 <= j < s.len() && s[j].id@ == id);
    if j < i {
        assert(s[j].id@ != s[i].id@);
    }
    if i < j {
        assert(s[i].id@ != s[j].id@);
    }
}

proof fn lemma_absent(s: Seq<Node>, id: Seq<char>)
    requires
        forall|i: int| 0 <= i < s.len() ==> (#[trigger] s[i]).id@ != id,
    ensures
        !as_map(s).contains_key(id),
{
}

proof fn lemma_set(s: Seq<Node>, i: int, node: Node)
    requires
        distinct_ids(s),
        0 <= i < s.len(),
        s[i].id@ == node.id@,
    ensures
        distinct_ids(s.update(i, node)),
        as_map(s.update(i, node)) == as_map(s).insert(node.id@, node@),
{
    let t = s.update(i, node);
    assert forall|a: int, b: int| 0 <= a < b < t.len() implies (#[trigger] t[a]).id@ != (
    #[trigger] t[b]).id@ by {
        assert(s[a].id@ != s[b].id@);
    }
    let m = as_map(s).insert(node.id@, node@);
    assert forall|id: Seq<char>| as_map(t).contains_key(id) <==> m.contains_key(id) by {
        if has_id(t, id) {
            let k = index_of(t, id);
            assert(s[k].id@ == id);
        }
        if has_id(s, id) {
            let k = index_of(s, id);
            assert(t[k].id@ == id);
        }
        if id == node.id@ {
            assert(t[i].id@ == id);
        }
    }
    assert forall|id: Seq<char>| as_map(t).contains_key(id) implies as_map(t)[id] == m[id] by {
        let k = index_of(t, id);
        lemma_entry(t, k);
        if k != i {
            assert(t[k] == s[k]);
            lemma_entry(s, k);
            assert(s[k].id@ != s[i].id@);
        }
    }
    assert(as_map(t) =~= m);
}

proof fn lemma_push(s: Seq<Node>, node: Node)
    requires
        distinct_ids(s),
        forall|i: int| 0 <= i < s.len() ==> (#[trigger] s[i]).id@ != node.id@,
    ensures
        distinct_ids(s.push(node)),
        as_map(s.push(node)) == as_map(s).insert(node.id@, node@),
{
    let t = s.push(node);
    assert forall|a: int, b: int| 0 <= a < b < t.len() implies (#[trigger] t[a]).id@ != (
    #[trigger] t[b]).id@ by {
        if b < s.len() {
            assert(s[a].id@ != s[b].id@);
        } else {
            assert(s[a].id@ != node.id@);
        }
    }
    let m = as_map(s).insert(node.id@, node@);
    assert forall|id: Seq<char>| as_map(t).contains_key(id) <==> m.contains_key(id) by {
        if has_id(t, id) {
            let k = index_of(t, id);
            if k < s.len() {
                assert(s[k].id@ == id);
            }
        }
        if has_id(s, id) {
            let k = index_of(s, id);
            assert(t[k].id@ == id);
        }
        if id == node.id@ {
            assert(t[s.len() as int].id@ == id);
        }
    }
    assert forall|id: Seq<char>| as_map(t).contains_key(id) implies as_map(t)[id] == m[id] by {
        let k = index_of(t, id);
        lemma_entry(t, k);
        if k < s.len() {
            assert(t[k] == s[k]);
            lemma_entry(s, k);
        }
    }
    assert(as_map(t) =~= m);
}

proof fn lemma_count(s: Seq<Node>)
    requires
        distinct_ids(s),
    ensures
        as_map(s).dom().finite(),
        as_map(s).len() == s.len(),
    decreases s.len(),
{
    if s.len() == 0 {
        assert(as_map(s).dom() =~= Set::<Seq<char>>::empty());
    } else {
        let t = s.drop_last();
        let x = s.last();
        assert(s =~= t.push(x));
        assert forall|a: int, b: int| 0 <= a < b < t.len() implies (#[trigger] t[a]).id@ != (
        #[trigger] t[b]).id@ by {
            assert(s[a].id@ != s[b].id@);
        }
        assert forall|i: int| 0 <= i < t.len() implies (#[trigger] t[i]).id@ != x.id@ by {
            assert(s[i].id@ != s[s.len() - 1].id@);
        }
        lemma_count(t);
        lemma_push(t, x);
        lemma_absent(t, x.id@);
        assert(as_map(s).dom() =~= as_map(t).dom().insert(x.id@));
    }
}

proof fn lemma_swept(orig: Seq<Node>, kept: Seq<Node>, src: Seq<int>, timeout: int, now: int)
    requires
        distinct_ids(orig),
        src.len() == kept.len(),
        forall|k: int|
            0 <= k < kept.len() ==> 0 <= (#[trigger] src[k]) < orig.len() && kept[k] == orig[src[k]]
                && !stale(orig[src[k]]@, timeout, now),
        forall|a: int, b: int| 0 <= a < b < src.len() ==> (#[trigger] src[a]) > (#[trigger] src[b]),
        forall|j: int|
            0 <= j < orig.len() && !stale((#[trigger] orig[j])@, timeout, now) ==> exists|k: int|
                0 <= k < src.len() && (#[trigger] src[k]) == j,
    ensures
        distinct_ids(kept),
        as_map(kept) == sweep(as_map(orig), timeout, now),
{
    assert forall|a: int, b: int| 0 <= a < b < kept.len() implies (#[trigger] kept[a]).id@ != (
    #[trigger] kept[b]).id@ by {
        assert(src[a] > src[b]);
        assert(orig[src[b]].id@ != orig[src[a]].id@);
    }
    let m = sweep(as_map(orig), timeout, now);
    assert forall|id: Seq<char>| as_map(kept).contains_key(id) <==> m.contains_key(id) by {
        if has_id(kept, id) {
            let k = index_of(kept, id);
            lemma_entry(kept, k);
            lemma_entry(orig, src[k]);
        }
        if m.contains_key(id) {
            let j = index_of(orig, id);
            lemma_entry(orig, j);
            let k = choose|k: int| 0 <= k < src.len() && (#[trigger] src[k]) == j;
            assert(kept[k].id@ == id);
        }
    }
    assert forall|id: Seq<char>| as_map(kept).contains_key(id) implies as_map(kept)[id] == m[id] by {
        let k = index_of(kept, id);
        lemma_entry(kept, k);
        lemma_entry(orig, src[k]);
    }
    assert(as_map(kept) =~= m);
}

/// Whether `r` holds every record of `m` exactly once.
pub open spec fn lists(r: Seq<Node>, m: Map<Seq<char>, NodeView>) -> bool {
    &&& r.len() == m.len()
    &&& forall|i: int|
        0 <= i < r.len() ==> m.contains_key((#[trigger] r[i]).id@) && m[r[i].id@] == r[i]@
    &&& forall|i: int, j: int| 0 <= i < j < r.len() ==> (#[trigger] r[i]).id@ != (#[trigger] r[j]).id@
}

/// The registry of nodes, keyed by node id.
#[derive(Debug, PartialEq, Eq)]
pub struct NodeRegistry {
    nodes: Vec<Node>,
}

impl View for NodeRegistry {
    type V = Map<Seq<char>, NodeView>;

    closed spec fn view(&self) -> Map<Seq<char>, NodeView> {
        as_map(self.nodes@)
    }
}

impl NodeRegistry {
    #[verifier::type_invariant]
    spec fn inv(&self) -> bool {
        distinct_ids(self.nodes@)
    }

    /// An empty registry.
    pub fn new() -> (r: Self)
        ensures
            r@ == Map::<Seq<char>, NodeView>::empty(),
    {
        let r = NodeRegistry { nodes: Vec::new() };
        assert(r@ =~= Map::<Seq<char>, NodeView>::empty());
        r
    }

    /// The number of registered nodes.
    pub fn len(&self) -> (n: usize)
        ensures
            n == self@.len(),
            self@.dom().finite(),
    {
        proof {
            use_type_invariant(self);
            lemma_count(self.nodes@);
        }
        self.nodes.len()
    }

    fn position(&self, id: &String) -> (r: Option<usize>)
        ensures
            match r {
                Some(i) => i < self.nodes@.len() && self.nodes@[i as int].id@ == id@,
                None => forall|i: int|
                    0 <= i < self.nodes@.len() ==> (#[trigger] self.nodes@[i]).id@ != id@,
            },
    {
        let mut i: usize = 0;
        while i < self.nodes.len()
            invariant
                i <= self.nodes@.len(),
                forall|k: int| 0 <= k < i ==> (#[trigger] self.nodes@[k]).id@ != id@,
            decreases self.nodes@.len() - i,
        {
            if self.nodes[i].id == *id {
                return Some(i);
            }
            i = i + 1;
        }
        None
    }

    /// The record of a node, if it is registered.
    pub fn get(&self, node_id: &str) -> (r: Option<&Node>)
        ensures
            match r {
                Some(node) => self@.contains_key(node_id@) && node@ == self@[node_id@],
                None => !self@.contains_key(node_id@),
            },
    {
        proof {
            use_type_invariant(self);
        }
        let wanted = String::from_str(node_id);
        match self.position(&wanted) {
            Some(i) => {
                proof {
                    lemma_entry(self.nodes@, i as int);
                }
                Some(&self.nodes[i])
            },
            None => {
                proof {
                    lemma_absent(self.nodes@, node_id@);
                }
                None
            },
        }
    }

    /// Registers a node, replacing any record with the same id as a whole.
    pub fn register_node(&mut self, node: Node)
        ensures
            final(self)@ == old(self)@.insert(node.id@, node@),
    {
        proof {
            use_type_invariant(&*self);
        }
        let found = self.position(&node.id);
        let mut nodes: Vec<Node> = Vec::new();
        core::mem::swap(&mut self.nodes, &mut nodes);
        match found {
            Some(i) => {
                proof {
                    lemma_set(nodes@, i as int, node);
                }
                nodes.set(i, node);
            },
            None => {
                proof {
                    lemma_push(nodes@, node);
                }
                nodes.push(node);
            },
        }
        self.nodes = nodes;
    }

    /// Records a heartbeat received at time `now`.
    ///
    /// An unknown id is refused and nothing changes: a heartbeat never
    /// creates a node. For a known id the record is brought up to date and
    /// the result says whether a stop has been requested for the node.
    pub fn update_heartbeat_at(
        &mut self,
        node_id: &str,
        runtime_status: NodeRuntimeStatus,
        active_containers: u32,
        now: i64,
    ) -> (r: Result<bool, RegistryError>)
        ensures
            final(self)@ == heartbeat(old(self)@, node_id@, runtime_status, active_containers, now),
            match r {
                Ok(stop) => old(self)@.contains_key(node_id@) && stop == old(self)@[node_id@].stop_requested,
                Err(e) => !old(self)@.contains_key(node_id@) && e == RegistryError::UnknownNode,
            },
    {
        proof {
            use_type_invariant(&*self);
        }
        let wanted = String::from_str(node_id);
        match self.position(&wanted) {
            Some(i) => {
                let mut nodes: Vec<Node> = Vec::new();
                core::mem::swap(&mut self.nodes, &mut nodes);
                let ghost before = nodes@;
                proof {
                    lemma_entry(before, i as int);
                }
                let stop = nodes[i].stop_requested;
                nodes[i].last_seen = now;
                nodes[i].status = NodeStatus::Online;
                nodes[i].runtime_status = Some(runtime_status);
                nodes[i].active_containers = active_containers;
                proof {
                    assert(nodes@ == before.update(i as int, nodes@[i as int]));
                    lemma_set(before, i as int, nodes@[i as int]);
                }
                self.nodes = nodes;
                Ok(stop)
            },
            None => {
                proof {
                    lemma_absent(self.nodes@, node_id@);
                }
                Err(RegistryError::UnknownNode)
            },
        }
    }

    /// Records a heartbeat received now.
    ///
    /// The time is read from the system clock, so the contract says what
    /// holds whatever the clock showed.
    pub fn update_heartbeat(
        &mut self,
        node_id: &str,
        runtime_status: NodeRuntimeStatus,
        active_containers: u32,
    ) -> (r: Result<bool, RegistryError>)
        ensures
            exists|now: i64|
                final(self)@ == #[trigger] heartbeat(
                    old(self)@,
                    node_id@,
                    runtime_status,
                    active_containers,
                    now,
                ),
            match r {
                Ok(stop) => old(self)@.contains_key(node_id@) && stop == old(self)@[node_id@].stop_requested,
                Err(e) => !old(self)@.contains_key(node_id@) && e == RegistryError::UnknownNode
                    && final(self)@ == old(self)@,
            },
    {
        let now = unix_now();
        self.update_heartbeat_at(node_id, runtime_status, active_containers, now)
    }

    /// Sets or clears the stop flag of a node.
    pub fn set_stop(&mut self, node_id: &str, flag: bool) -> (r: Result<(), RegistryError>)
        ensures
            match r {
                Ok(_) => old(self)@.contains_key(node_id@) && final(self)@ == old(self)@.insert(
                    node_id@,
                    with_stop(old(self)@[node_id@], flag),
                ),
                Err(e) => !old(self)@.contains_key(node_id@) && e == RegistryError::UnknownNode
                    && final(self)@ == old(self)@,
            },
    {
        proof {
            use_type_invariant(&*self);
        }
        let wanted = String::from_str(node_id);
        match self.position(&wanted) {
            Some(i) => {
                let mut nodes: Vec<Node> = Vec::new();
                core::mem::swap(&mut self.nodes, &mut nodes);
                let ghost before = nodes@;
                proof {
                    lemma_entry(before, i as int);
                }
                nodes[i].stop_requested = flag;
                proof {
                    assert(nodes@ == before.update(i as int, nodes@[i as int]));
                    lemma_set(before, i as int, nodes@[i as int]);
                }
                self.nodes = nodes;
                Ok(())
            },
            None => {
                proof {
                    lemma_absent(self.nodes@, node_id@);
                }
                Err(RegistryError::UnknownNode)
            },
        }
    }

    /// Removes every node that is stale at time `now`, in one pass, and
    /// returns how many were removed. The nodes that stay are unchanged.
    pub fn cleanup_offline_nodes_at(&mut self, timeout_secs: i64, now: i64) -> (removed: usize)
        ensures
            final(self)@ == sweep(old(self)@, timeout_secs as int, now as int),
            removed == old(self)@.len() - final(self)@.len(),
    {
        proof {
            use_type_invariant(&*self);
        }
        let mut rest: Vec<Node> = Vec::new();
        core::mem::swap(&mut self.nodes, &mut rest);
        let ghost orig = rest@;
        let total = rest.len();
        let mut kept: Vec<Node> = Vec::new();
        let ghost mut src: Seq<int> = Seq::empty();
        while rest.len() > 0
            invariant
                rest@.len() <= orig.len(),
                rest@ == orig.take(rest@.len() as int),
                distinct_ids(orig),
                src.len() == kept@.len(),
                kept@.len() + rest@.len() <= orig.len(),
                forall|k: int|
                    0 <= k < kept@.len() ==> rest@.len() <= (#[trigger] src[k]) < orig.len()
                        && kept@[k] == orig[src[k]] && !stale(
                        orig[src[k]]@,
                        timeout_secs as int,
                        now as int,
                    ),
                forall|a: int, b: int|
                    0 <= a < b < src.len() ==> (#[trigger] src[a]) > (#[trigger] src[b]),
                forall|j: int|
                    rest@.len() <= j < orig.len() && !stale(
                        (#[trigger] orig[j])@,
                        timeout_secs as int,
                        now as int,
                    ) ==> exists|k: int| 0 <= k < src.len() && (#[trigger] src[k]) == j,
            decreases rest@.len(),
        {
            let ghost before_src = src;
            let ghost at = rest@.len() - 1;
            let node = rest.pop().unwrap();
            assert(node == orig[at]);
            if !exceeds(now, node.last_seen, timeout_secs) {
                kept.push(node);
                proof {
                    src = src.push(at);
                    assert(src[src.len() - 1] == at);
                    assert forall|j: int|
                        rest@.len() <= j < orig.len() && !stale(
                            (#[trigger] orig[j])@,
                            timeout_secs as int,
                            now as int,
                        ) implies exists|k: int| 0 <= k < src.len() && (#[trigger] src[k]) == j by {
                        if j == at {
                            assert(src[src.len() - 1] == j);
                        } else {
                            let k = choose|k: int|
                                0 <= k < before_src.len() && (#[trigger] before_src[k]) == j;
                            assert(src[k] == j);
                        }
                    }
                }
            } else {
                proof {
                    assert forall|j: int|
                        rest@.len() <= j < orig.len() && !stale(
                            (#[trigger] orig[j])@,
                            timeout_secs as int,
                            now as int,
                        ) implies exists|k: int| 0 <= k < src.len() && (#[trigger] src[k]) == j by {
                        assert(j != at);
                    }
                }
            }
        }
        proof {
            lemma_swept(orig, kept@, src, timeout_secs as int, now as int);
            lemma_count(orig);
            lemma_count(kept@);
        }
        let removed = total - kept.len();
        self.nodes = kept;
        removed
    }

    /// Removes every node that is stale now, and returns how many were
    /// removed.
    ///
    /// The time is read from the system clock, so the contract says what
    /// holds whatever the clock showed.
    pub fn cleanup_offline_nodes(&mut self, timeout_secs: i64) -> (removed: usize)
        ensures
            exists|now: int| final(self)@ == #[trigger] sweep(old(self)@, timeout_secs as int, now),
            removed == old(self)@.len() - final(self)@.len(),
    {
        let now = unix_now();
        let removed = self.cleanup_offline_nodes_at(timeout_secs, now);
        assert(final(self)@ == sweep(old(self)@, timeout_secs as int, now as int));
        removed
    }

    /// The registered nodes, each once, in no particular order.
    pub fn list(&self) -> (r: Vec<Node>)
        ensures
            lists(r@, self@),
    {
        proof {
            use_type_invariant(self);
        }
        let mut out: Vec<Node> = Vec::new();
        let mut i: usize = 0;
        while i < self.nodes.len()
            invariant
                i <= self.nodes@.len(),
                out@ == self.nodes@.take(i as int),
            decreases self.nodes@.len() - i,
        {
            out.push(self.nodes[i].clone());
            assert(out@ =~= self.nodes@.take(i + 1));
            i = i + 1;
        }
        proof {
            assert(self.nodes@.take(self.nodes@.len() as int) =~= self.nodes@);
            lemma_count(self.nodes@);
            assert forall|k: int| 0 <= k < out@.len() implies self@.contains_key(
                (#[trigger] out@[k]).id@,
            ) && self@[out@[k].id@] == out@[k]@ by {
                lemma_entry(self.nodes@, k);
            }
        }
        out
    }

    /// Asks a node to stop: its next heartbeat is answered with the request.
    pub fn request_stop(&mut self, node_id: &str) -> (r: Result<(), RegistryError>)
        ensures
            match r {
                Ok(_) => old(self)@.contains_key(node_id@) && final(self)@ == old(self)@.insert(
                    node_id@,
                    with_stop(old(self)@[node_id@], true),
                ),
                Err(e) => !old(self)@.contains_key(node_id@) && e == RegistryError::UnknownNode
                    && final(self)@ == old(self)@,
            },
    {
        self.set_stop(node_id, true)
    }

    /// Withdraws a stop request.
    pub fn clear_stop(&mut self, node_id: &str) -> (r: Result<(), RegistryError>)
        ensures
            match r {
                Ok(_) => old(self)@.contains_key(node_id@) && final(self)@ == old(self)@.insert(
                    node_id@,
                    with_stop(old(self)@[node_id@], false),
                ),
                Err(e) => !old(self)@.contains_key(node_id@) && e == RegistryError::UnknownNode
                    && final(self)@ == old(self)@,
            },
    {
        self.set_stop(node_id, false)
    }
}

} // verus!
