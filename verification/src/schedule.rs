//! Which nodes are idle, so that builds keep off the nodes with GPU workloads.

use vstd::prelude::*;

use crate::numeral;
use crate::numeral::parse_unsigned;
use crate::text;
use crate::text::{lookup, same_text};

verus! {

broadcast use vstd::string::group_string_axioms;

/// At most this many nodes are preferred, which keeps the list sane on big clusters.
pub const MAX_HINTS: usize = 50;

/// What a container asks for, by the name of the resource.
pub struct ContainerUse {
    pub requests: Vec<(String, String)>,
    pub limits: Vec<(String, String)>,
}

/// What a `ContainerUse` holds.
pub struct ContainerUseView {
    pub requests: Seq<(Seq<char>, Seq<char>)>,
    pub limits: Seq<(Seq<char>, Seq<char>)>,
}

impl View for ContainerUse {
    type V = ContainerUseView;

    open spec fn view(&self) -> ContainerUseView {
        ContainerUseView {
            requests: text::pairs(self.requests@),
            limits: text::pairs(self.limits@),
        }
    }
}

/// A pod that the cluster lists: where it was placed, what state it is in, what it asks for.
pub struct PodUse {
    pub node: Option<String>,
    pub phase: Option<String>,
    pub init_containers: Vec<ContainerUse>,
    pub containers: Vec<ContainerUse>,
}

/// What a `PodUse` holds.
pub struct PodUseView {
    pub node: Option<Seq<char>>,
    pub phase: Option<Seq<char>>,
    pub init_containers: Seq<ContainerUseView>,
    pub containers: Seq<ContainerUseView>,
}

pub open spec fn container_uses(containers: Seq<ContainerUse>) -> Seq<ContainerUseView> {
    containers.map_values(|c: ContainerUse| c@)
}

impl View for PodUse {
    type V = PodUseView;

    open spec fn view(&self) -> PodUseView {
        PodUseView {
            node: text::opt_text(self.node),
            phase: text::opt_text(self.phase),
            init_containers: container_uses(self.init_containers@),
            containers: container_uses(self.containers@),
        }
    }
}

/// A node that the cluster lists. Each condition is its type and its status.
pub struct NodeState {
    pub name: Option<String>,
    pub unschedulable: Option<bool>,
    pub conditions: Vec<(String, String)>,
}

/// What a `NodeState` holds.
pub struct NodeStateView {
    pub name: Option<Seq<char>>,
    pub unschedulable: Option<bool>,
    pub conditions: Seq<(Seq<char>, Seq<char>)>,
}

impl View for NodeState {
    type V = NodeStateView;

    open spec fn view(&self) -> NodeStateView {
        NodeStateView {
            name: text::opt_text(self.name),
            unschedulable: self.unschedulable,
            conditions: text::pairs(self.conditions@),
        }
    }
}

/// All nodes and all pods of a cluster.
pub struct Cluster {
    pub nodes: Vec<NodeState>,
    pub pods: Vec<PodUse>,
}

/// What a `Cluster` holds.
pub struct ClusterView {
    pub nodes: Seq<NodeStateView>,
    pub pods: Seq<PodUseView>,
}

pub open spec fn node_states(nodes: Seq<NodeState>) -> Seq<NodeStateView> {
    nodes.map_values(|n: NodeState| n@)
}

pub open spec fn pod_uses(pods: Seq<PodUse>) -> Seq<PodUseView> {
    pods.map_values(|p: PodUse| p@)
}

impl View for Cluster {
    type V = ClusterView;

    open spec fn view(&self) -> ClusterView {
        ClusterView { nodes: node_states(self.nodes@), pods: pod_uses(self.pods@) }
    }
}

/// How many GPUs a container asks for: its request where it has one, else its limit. A quantity
/// that is no plain number counts for nothing.
pub open spec fn gpus_of(c: ContainerUseView) -> nat {
    let asked = match text::value_at(c.requests, "nvidia.com/gpu"@) {
        Some(quantity) => Some(quantity),
        None => text::value_at(c.limits, "nvidia.com/gpu"@),
    };
    match asked {
        Some(quantity) => match numeral::unsigned_value(quantity) {
            Some(n) => n,
            None => 0,
        },
        None => 0,
    }
}

/// How many GPUs the containers ask for together.
pub open spec fn gpu_sum(containers: Seq<ContainerUseView>) -> nat
    decreases containers.len(),
{
    if containers.len() == 0 {
        0
    } else {
        gpu_sum(containers.drop_last()) + gpus_of(containers.last())
    }
}

/// How many GPUs the containers of a pod ask for together, those that run first among them.
pub open spec fn pod_gpus(p: PodUseView) -> nat {
    gpu_sum(p.init_containers) + gpu_sum(p.containers)
}

/// Whether the pod runs, or is about to.
pub open spec fn active(p: PodUseView) -> bool {
    p.phase == Some("Running"@) || p.phase == Some("Pending"@)
}

/// How many GPUs the active pods on a node ask for together.
pub open spec fn gpus_in_use(pods: Seq<PodUseView>, node: Seq<char>) -> nat
    decreases pods.len(),
{
    if pods.len() == 0 {
        0
    } else {
        gpus_in_use(pods.drop_last(), node) + if pods.last().node == Some(node) && active(
            pods.last(),
        ) {
            pod_gpus(pods.last())
        } else {
            0
        }
    }
}

/// Whether the node says of itself that it is ready.
pub open spec fn ready(n: NodeStateView) -> bool {
    n.conditions.contains(("Ready"@, "True"@))
}

/// Whether the node has a name, is ready, takes pods, and has no GPU in use.
pub open spec fn idle(n: NodeStateView, pods: Seq<PodUseView>) -> bool {
    &&& n.name is Some
    &&& ready(n)
    &&& n.unschedulable != Some(true)
    &&& gpus_in_use(pods, n.name->0) == 0
}

/// The names of the idle nodes, in the order in which they are listed.
pub open spec fn idle_names(nodes: Seq<NodeStateView>, pods: Seq<PodUseView>) -> Seq<Seq<char>>
    decreases nodes.len(),
{
    if nodes.len() == 0 {
        Seq::empty()
    } else if idle(nodes.last(), pods) {
        idle_names(nodes.drop_last(), pods).push(nodes.last().name->0)
    } else {
        idle_names(nodes.drop_last(), pods)
    }
}

/// The first of the names, as many as are preferred.
pub open spec fn hinted(names: Seq<Seq<char>>) -> Seq<Seq<char>> {
    if names.len() > MAX_HINTS {
        names.take(MAX_HINTS as int)
    } else {
        names
    }
}

proof fn one_gpu_counts(containers: Seq<ContainerUseView>, i: int)
    requires
        0 <= i < containers.len(),
    ensures
        gpu_sum(containers) >= gpus_of(containers[i]),
    decreases containers.len(),
{
    if i < containers.len() - 1 {
        one_gpu_counts(containers.drop_last(), i);
    }
}

proof fn one_pod_counts(pods: Seq<PodUseView>, node: Seq<char>, i: int)
    requires
        0 <= i < pods.len(),
        pods[i].node == Some(node),
        active(pods[i]),
    ensures
        gpus_in_use(pods, node) >= pod_gpus(pods[i]),
    decreases pods.len(),
{
    if i < pods.len() - 1 {
        one_pod_counts(pods.drop_last(), node, i);
    }
}

impl ContainerUse {
    /// How many GPUs the container asks for.
    pub fn gpus(&self) -> (n: u64)
        ensures
            n == gpus_of(self@),
    {
        let requested = lookup(self.requests.as_slice(), "nvidia.com/gpu");
        let asked = match requested {
            Some(quantity) => Some(quantity),
            None => lookup(self.limits.as_slice(), "nvidia.com/gpu"),
        };
        match asked {
            Some(quantity) => match parse_unsigned(quantity) {
                Some(n) => n,
                None => 0,
            },
            None => 0,
        }
    }
}

/// Whether the optional string holds the text.
fn is_text(s: &Option<String>, t: &str) -> (yes: bool)
    ensures
        yes == (text::opt_text(*s) == Some(t@)),
{
    match s {
        Some(u) => same_text(u.as_str(), t),
        None => false,
    }
}

/// Whether any of the containers asks for a GPU.
fn any_gpus(containers: &[ContainerUse]) -> (yes: bool)
    ensures
        yes == (gpu_sum(container_uses(containers@)) > 0),
{
    let ghost all = container_uses(containers@);
    assert(all.take(0) =~= Seq::empty());
    for i in 0..containers.len()
        invariant
            all == container_uses(containers@),
            gpu_sum(all.take(i as int)) == 0,
    {
        assert(all[i as int] == containers@[i as int]@);
        if containers[i].gpus() > 0 {
            proof {
                one_gpu_counts(all, i as int);
            }
            return true;
        }
        assert(all.take(i + 1).drop_last() =~= all.take(i as int));
    }
    assert(all.take(all.len() as int) =~= all);
    false
}

impl PodUse {
    /// Whether the pod runs, or is about to.
    pub fn is_active(&self) -> (yes: bool)
        ensures
            yes == active(self@),
    {
        is_text(&self.phase, "Running") || is_text(&self.phase, "Pending")
    }

    /// Whether any container asks for a GPU.
    pub fn uses_gpus(&self) -> (yes: bool)
        ensures
            yes == (pod_gpus(self@) > 0),
    {
        any_gpus(self.init_containers.as_slice()) || any_gpus(self.containers.as_slice())
    }
}

impl NodeState {
    /// Whether the node says of itself that it is ready.
    pub fn is_ready(&self) -> (yes: bool)
        ensures
            yes == ready(self@),
    {
        for i in 0..self.conditions.len()
            invariant
                forall|j: int|
                    0 <= j < i ==> (#[trigger] self@.conditions[j]) != ("Ready"@, "True"@),
        {
            let condition = &self.conditions[i];
            assert(self@.conditions[i as int] == (condition.0@, condition.1@));
            if same_text(condition.0.as_str(), "Ready") && same_text(condition.1.as_str(), "True") {
                return true;
            }
        }
        false
    }
}

/// Whether active pods on the node use GPUs.
fn has_gpus_in_use(pods: &[PodUse], node: &str) -> (yes: bool)
    ensures
        yes == (gpus_in_use(pod_uses(pods@), node@) > 0),
{
    let ghost all = pod_uses(pods@);
    assert(all.take(0) =~= Seq::empty());
    for i in 0..pods.len()
        invariant
            all == pod_uses(pods@),
            gpus_in_use(all.take(i as int), node@) == 0,
    {
        assert(all[i as int] == pods@[i as int]@);
        if is_text(&pods[i].node, node) && pods[i].is_active() && pods[i].uses_gpus() {
            proof {
                one_pod_counts(all, node@, i as int);
            }
            return true;
        }
        assert(all.take(i + 1).drop_last() =~= all.take(i as int));
    }
    assert(all.take(all.len() as int) =~= all);
    false
}

/// The names of the idle nodes of a cluster, in the order in which they are listed, as many as
/// are preferred.
pub fn try_idle_nodes(cluster: &Cluster) -> (names: Vec<String>)
    ensures
        text::texts(names@) == hinted(idle_names(cluster@.nodes, cluster@.pods)),
{
    let mut found: Vec<String> = Vec::new();
    let ghost all = cluster@.nodes;
    let ghost pods = cluster@.pods;
    assert(all.take(0) =~= Seq::empty());
    for i in 0..cluster.nodes.len()
        invariant
            all == cluster@.nodes,
            pods == cluster@.pods,
            text::texts(found@) == idle_names(all.take(i as int), pods),
    {
        let node = &cluster.nodes[i];
        assert(all[i as int] == node@);
        assert(all.take(i + 1).drop_last() =~= all.take(i as int));
        if let Some(name) = &node.name {
            let closed = match node.unschedulable {
                Some(flag) => flag,
                None => false,
            };
            if node.is_ready() && !closed && !has_gpus_in_use(
                cluster.pods.as_slice(),
                name.as_str(),
            ) {
                let ghost before = found@;
                found.push(name.clone());
                assert(text::texts(found@) =~= text::texts(before).push(name@));
            }
        }
    }
    assert(all.take(all.len() as int) =~= all);
    let ghost whole = found@;
    if found.len() > MAX_HINTS {
        found.truncate(MAX_HINTS);
        assert(text::texts(found@) =~= text::texts(whole).take(MAX_HINTS as int));
    }
    found
}

/// The nodes to prefer. Where the cluster could not be looked at there are none: that is no
/// reason to hold a build up.
pub fn idle_nodes(seen: Option<&Cluster>) -> (names: Vec<String>)
    ensures
        text::texts(names@) == match seen {
            Some(cluster) => hinted(idle_names(cluster@.nodes, cluster@.pods)),
            None => Seq::empty(),
        },
{
    match seen {
        Some(cluster) => try_idle_nodes(cluster),
        None => {
            let none: Vec<String> = Vec::new();
            assert(text::texts(none@) =~= Seq::empty());
            none
        },
    }
}

/// A node is among the idle ones where one that is idle has the name, and only there.
pub proof fn idle_names_are_of_idle_nodes(
    nodes: Seq<NodeStateView>,
    pods: Seq<PodUseView>,
    name: Seq<char>,
)
    ensures
        idle_names(nodes, pods).contains(name) <==> exists|i: int|
            0 <= i < nodes.len() && (#[trigger] nodes[i]).name == Some(name) && idle(nodes[i], pods),
    decreases nodes.len(),
{
    if nodes.len() > 0 {
        let fewer = nodes.drop_last();
        let names = idle_names(fewer, pods);
        idle_names_are_of_idle_nodes(fewer, pods, name);
        if idle(nodes.last(), pods) {
            assert(names.push(nodes.last().name->0).last() == nodes.last().name->0);
            assert forall|i: int| 0 <= i < names.len() implies names.push(
                nodes.last().name->0,
            )[i] == names[i] by {}
            if names.contains(name) {
                let i = choose|i: int| 0 <= i < names.len() && names[i] == name;
                assert(names.push(nodes.last().name->0)[i] == name);
            }
        }
        if exists|i: int|
            0 <= i < nodes.len() && (#[trigger] nodes[i]).name == Some(name) && idle(
                nodes[i],
                pods,
            ) {
            let i = choose|i: int|
                0 <= i < nodes.len() && (#[trigger] nodes[i]).name == Some(name) && idle(
                    nodes[i],
                    pods,
                );
            if i < fewer.len() {
                assert(fewer[i] == nodes[i]);
            }
        }
        if exists|i: int|
            0 <= i < fewer.len() && (#[trigger] fewer[i]).name == Some(name) && idle(
                fewer[i],
                pods,
            ) {
            let i = choose|i: int|
                0 <= i < fewer.len() && (#[trigger] fewer[i]).name == Some(name) && idle(
                    fewer[i],
                    pods,
                );
            assert(nodes[i] == fewer[i]);
        }
    }
}

/// No node is preferred that is not ready, takes no pods, or has an active pod that asks for a
/// GPU in any of its containers; and no more nodes are preferred than the list may hold.
pub proof fn preferred_nodes_are_idle(cluster: ClusterView, name: Seq<char>)
    requires
        hinted(idle_names(cluster.nodes, cluster.pods)).contains(name),
    ensures
        hinted(idle_names(cluster.nodes, cluster.pods)).len() <= MAX_HINTS,
        exists|i: int|
            0 <= i < cluster.nodes.len() && (#[trigger] cluster.nodes[i]).name == Some(name)
                && ready(cluster.nodes[i]) && cluster.nodes[i].unschedulable != Some(true),
        forall|i: int, j: int|
            0 <= i < cluster.pods.len() && cluster.pods[i].node == Some(name) && active(
                cluster.pods[i],
            ) && 0 <= j < cluster.pods[i].containers.len() ==> gpus_of(
                #[trigger] cluster.pods[i].containers[j],
            ) == 0,
        forall|i: int, j: int|
            0 <= i < cluster.pods.len() && cluster.pods[i].node == Some(name) && active(
                cluster.pods[i],
            ) && 0 <= j < cluster.pods[i].init_containers.len() ==> gpus_of(
                #[trigger] cluster.pods[i].init_containers[j],
            ) == 0,
{
    let names = idle_names(cluster.nodes, cluster.pods);
    let k = choose|k: int| 0 <= k < hinted(names).len() && hinted(names)[k] == name;
    assert(names[k] == name);
    idle_names_are_of_idle_nodes(cluster.nodes, cluster.pods, name);
    assert forall|i: int, j: int|
        0 <= i < cluster.pods.len() && cluster.pods[i].node == Some(name) && active(
            cluster.pods[i],
        ) && 0 <= j < cluster.pods[i].containers.len() implies gpus_of(
        #[trigger] cluster.pods[i].containers[j],
    ) == 0 by {
        one_pod_counts(cluster.pods, name, i);
        one_gpu_counts(cluster.pods[i].containers, j);
    }
    assert forall|i: int, j: int|
        0 <= i < cluster.pods.len() && cluster.pods[i].node == Some(name) && active(
            cluster.pods[i],
        ) && 0 <= j < cluster.pods[i].init_containers.len() implies gpus_of(
        #[trigger] cluster.pods[i].init_containers[j],
    ) == 0 by {
        one_pod_counts(cluster.pods, name, i);
        one_gpu_counts(cluster.pods[i].init_containers, j);
    }
}

/// Whether the pair is of GPUs, and asks for so many of them.
pub open spec fn asks_gpus(kv: (String, String), n: nat) -> bool {
    kv.0@ == "nvidia.com/gpu"@ && numeral::unsigned_value(kv.1@) == Some(n)
}

/// Whether no pair is of GPUs.
pub open spec fn no_gpu_key(kvs: Seq<(String, String)>) -> bool {
    forall|i: int| 0 <= i < kvs.len() ==> (#[trigger] kvs[i]).0@ != "nvidia.com/gpu"@
}

/// A request of GPUs counts, wherever it stands among the requests of a container and whatever
/// the limits are.
pub proof fn gpu_request_counts(c: ContainerUse, at: int, n: nat)
    requires
        text::distinct_keys(text::pairs(c.requests@)),
        0 <= at < c.requests@.len(),
        asks_gpus(c.requests@[at], n),
    ensures
        gpus_of(c@) == n,
{
    let kvs = text::pairs(c.requests@);
    assert(kvs[at] == (c.requests@[at].0@, c.requests@[at].1@));
    assert forall|i: int| 0 <= i < at implies (#[trigger] kvs[i]).0 != kvs[at].0 by {}
    text::value_is_found(kvs, at);
}

/// Without a request, a limit of GPUs counts, wherever it stands.
pub proof fn gpu_limit_counts(c: ContainerUse, at: int, n: nat)
    requires
        no_gpu_key(c.requests@),
        text::distinct_keys(text::pairs(c.limits@)),
        0 <= at < c.limits@.len(),
        asks_gpus(c.limits@[at], n),
    ensures
        gpus_of(c@) == n,
{
    let kvs = text::pairs(c.requests@);
    assert forall|i: int| 0 <= i < kvs.len() implies (#[trigger] kvs[i]).0 != "nvidia.com/gpu"@ by {
        assert(kvs[i].0 == c.requests@[i].0@);
    }
    text::value_is_missing(kvs, "nvidia.com/gpu"@);
    let limits = text::pairs(c.limits@);
    assert(limits[at] == (c.limits@[at].0@, c.limits@[at].1@));
    assert forall|i: int| 0 <= i < at implies (#[trigger] limits[i]).0 != limits[at].0 by {}
    text::value_is_found(limits, at);
}

/// A container with neither asks for none.
pub proof fn no_gpus_without_key(c: ContainerUse)
    requires
        no_gpu_key(c.requests@),
        no_gpu_key(c.limits@),
    ensures
        gpus_of(c@) == 0,
{
    let kvs = text::pairs(c.requests@);
    let limits = text::pairs(c.limits@);
    assert forall|i: int| 0 <= i < kvs.len() implies (#[trigger] kvs[i]).0 != "nvidia.com/gpu"@ by {
        assert(kvs[i].0 == c.requests@[i].0@);
    }
    assert forall|i: int| 0 <= i < limits.len() implies (#[trigger] limits[i]).0
        != "nvidia.com/gpu"@ by {
        assert(limits[i].0 == c.limits@[i].0@);
    }
    text::value_is_missing(kvs, "nvidia.com/gpu"@);
    text::value_is_missing(limits, "nvidia.com/gpu"@);
}

/// Whether the pair is of GPUs, and asks for none: with nothing, or with what spells no number.
pub open spec fn asks_none(kv: (String, String)) -> bool {
    kv.0@ == "nvidia.com/gpu"@ && (numeral::unsigned_value(kv.1@) is None
        || numeral::unsigned_value(kv.1@) == Some(0nat))
}

/// Whether the container asks for no GPU: it has no word of them, or a request that asks for
/// none, or without a request a limit that does.
pub open spec fn wants_none(c: ContainerUse) -> bool {
    ||| no_gpu_key(c.requests@) && no_gpu_key(c.limits@)
    ||| text::distinct_keys(text::pairs(c.requests@)) && exists|i: int|
        0 <= i < c.requests@.len() && #[trigger] asks_none(c.requests@[i])
    ||| no_gpu_key(c.requests@) && text::distinct_keys(text::pairs(c.limits@)) && exists|i: int|
        0 <= i < c.limits@.len() && #[trigger] asks_none(c.limits@[i])
}

/// A request of no GPUs counts as none, whatever the limits are, and so does a limit of none
/// where there is no request.
pub proof fn wanting_none_counts_none(c: ContainerUse)
    requires
        wants_none(c),
    ensures
        gpus_of(c@) == 0,
{
    let kvs = text::pairs(c.requests@);
    let limits = text::pairs(c.limits@);
    if no_gpu_key(c.requests@) && no_gpu_key(c.limits@) {
        no_gpus_without_key(c);
    } else if text::distinct_keys(kvs) && exists|i: int|
        0 <= i < c.requests@.len() && #[trigger] asks_none(c.requests@[i]) {
        let at = choose|i: int|
            0 <= i < c.requests@.len() && #[trigger] asks_none(c.requests@[i]);
        assert(kvs[at] == (c.requests@[at].0@, c.requests@[at].1@));
        assert forall|i: int| 0 <= i < at implies (#[trigger] kvs[i]).0 != kvs[at].0 by {}
        text::value_is_found(kvs, at);
    } else {
        let at = choose|i: int| 0 <= i < c.limits@.len() && #[trigger] asks_none(c.limits@[i]);
        assert forall|i: int| 0 <= i < kvs.len() implies (#[trigger] kvs[i]).0
            != "nvidia.com/gpu"@ by {
            assert(kvs[i].0 == c.requests@[i].0@);
        }
        text::value_is_missing(kvs, "nvidia.com/gpu"@);
        assert(limits[at] == (c.limits@[at].0@, c.limits@[at].1@));
        assert forall|i: int| 0 <= i < at implies (#[trigger] limits[i]).0 != limits[at].0 by {}
        text::value_is_found(limits, at);
    }
}

/// Whether the pod was placed on the node, and runs or is about to.
pub open spec fn occupies(p: PodUse, node: Seq<char>) -> bool {
    &&& p.node is Some && p.node->0@ == node
    &&& p.phase is Some && (p.phase->0@ == "Running"@ || p.phase->0@ == "Pending"@)
}

/// Whether the container asks for at least one GPU, by a request, or without one by a limit.
pub open spec fn wants_gpu(c: ContainerUse) -> bool {
    ||| text::distinct_keys(text::pairs(c.requests@)) && exists|i: int, n: nat|
        0 <= i < c.requests@.len() && n > 0 && #[trigger] asks_gpus(c.requests@[i], n)
    ||| no_gpu_key(c.requests@) && text::distinct_keys(text::pairs(c.limits@)) && exists|
        i: int,
        n: nat,
    |
        0 <= i < c.limits@.len() && n > 0 && #[trigger] asks_gpus(c.limits@[i], n)
}

/// No node is preferred on which an active pod has a container that asks for a GPU.
pub proof fn busy_nodes_are_not_preferred(cluster: Cluster, name: Seq<char>, p: int, k: int)
    requires
        0 <= p < cluster.pods@.len(),
        occupies(cluster.pods@[p], name),
        (0 <= k < cluster.pods@[p].containers@.len() && wants_gpu(
            cluster.pods@[p].containers@[k],
        )) || (0 <= k < cluster.pods@[p].init_containers@.len() && wants_gpu(
            cluster.pods@[p].init_containers@[k],
        )),
    ensures
        !hinted(idle_names(cluster@.nodes, cluster@.pods)).contains(name),
{
    let pod = cluster.pods@[p];
    assert(cluster@.pods[p] == pod@);
    if hinted(idle_names(cluster@.nodes, cluster@.pods)).contains(name) {
        preferred_nodes_are_idle(cluster@, name);
        assert(active(pod@));
        if 0 <= k < pod.containers@.len() && wants_gpu(pod.containers@[k]) {
            let c = pod.containers@[k];
            assert(pod@.containers[k] == c@);
            assert(gpus_of(cluster@.pods[p].containers[k]) == 0);
            wanting_counts(c);
        } else {
            let c = pod.init_containers@[k];
            assert(pod@.init_containers[k] == c@);
            assert(gpus_of(cluster@.pods[p].init_containers[k]) == 0);
            wanting_counts(c);
        }
    }
}

proof fn wanting_counts(c: ContainerUse)
    requires
        wants_gpu(c),
    ensures
        gpus_of(c@) > 0,
{
    if text::distinct_keys(text::pairs(c.requests@)) && exists|i: int, n: nat|
        0 <= i < c.requests@.len() && n > 0 && #[trigger] asks_gpus(c.requests@[i], n) {
        let (i, n): (int, nat) = choose|i: int, n: nat|
            0 <= i < c.requests@.len() && n > 0 && #[trigger] asks_gpus(c.requests@[i], n);
        gpu_request_counts(c, i, n);
    } else {
        let (i, n): (int, nat) = choose|i: int, n: nat|
            0 <= i < c.limits@.len() && n > 0 && #[trigger] asks_gpus(c.limits@[i], n);
        gpu_limit_counts(c, i, n);
    }
}

/// A node that is preferred is listed, takes pods, and says that it is ready.
pub proof fn preferred_nodes_are_ready(cluster: Cluster, name: Seq<char>)
    requires
        hinted(idle_names(cluster@.nodes, cluster@.pods)).contains(name),
    ensures
        exists|i: int, j: int|
            #![trigger cluster.nodes@[i].conditions@[j]]
            0 <= i < cluster.nodes@.len() && cluster.nodes@[i].name is Some
                && cluster.nodes@[i].name->0@ == name && cluster.nodes@[i].unschedulable != Some(
                true,
            ) && 0 <= j < cluster.nodes@[i].conditions@.len()
                && cluster.nodes@[i].conditions@[j].0@ == "Ready"@
                && cluster.nodes@[i].conditions@[j].1@ == "True"@,
{
    preferred_nodes_are_idle(cluster@, name);
    let i = choose|i: int|
        0 <= i < cluster@.nodes.len() && (#[trigger] cluster@.nodes[i]).name == Some(name) && ready(
            cluster@.nodes[i],
        ) && cluster@.nodes[i].unschedulable != Some(true);
    let node = cluster.nodes@[i];
    assert(cluster@.nodes[i] == node@);
    let j = node@.conditions.index_of(("Ready"@, "True"@));
    assert(node@.conditions[j] == (node.conditions@[j].0@, node.conditions@[j].1@));
    assert(cluster.nodes@[i].conditions@[j].0@ == "Ready"@);
}

proof fn no_gpus_in_containers(containers: Seq<ContainerUseView>)
    requires
        forall|i: int| 0 <= i < containers.len() ==> gpus_of(#[trigger] containers[i]) == 0,
    ensures
        gpu_sum(containers) == 0,
    decreases containers.len(),
{
    if containers.len() > 0 {
        let fewer = containers.drop_last();
        assert forall|i: int| 0 <= i < fewer.len() implies gpus_of(#[trigger] fewer[i]) == 0 by {
            assert(gpus_of(containers[i]) == 0);
        }
        no_gpus_in_containers(fewer);
        assert(gpus_of(containers[containers.len() - 1]) == 0);
    }
}

proof fn no_gpus_in_pods(pods: Seq<PodUseView>, node: Seq<char>)
    requires
        forall|i: int|
            0 <= i < pods.len() && (#[trigger] pods[i]).node == Some(node) && active(pods[i])
                ==> pod_gpus(pods[i]) == 0,
    ensures
        gpus_in_use(pods, node) == 0,
    decreases pods.len(),
{
    if pods.len() > 0 {
        let fewer = pods.drop_last();
        assert forall|i: int|
            0 <= i < fewer.len() && (#[trigger] fewer[i]).node == Some(node) && active(
                fewer[i],
            ) implies pod_gpus(fewer[i]) == 0 by {
            assert(fewer[i] == pods[i]);
        }
        no_gpus_in_pods(fewer, node);
        assert(pods[pods.len() - 1] == pods.last());
    }
}

/// A node that is ready, takes pods, and has no active pod that wants a GPU is among the idle
/// ones; it is preferred where those are no more than fifty.
pub proof fn idle_nodes_are_preferred(cluster: Cluster, i: int, j: int)
    requires
        0 <= i < cluster.nodes@.len(),
        cluster.nodes@[i].name is Some,
        cluster.nodes@[i].unschedulable != Some(true),
        0 <= j < cluster.nodes@[i].conditions@.len(),
        cluster.nodes@[i].conditions@[j].0@ == "Ready"@,
        cluster.nodes@[i].conditions@[j].1@ == "True"@,
        forall|p: int, k: int|
            #![trigger cluster.pods@[p].containers@[k]]
            0 <= p < cluster.pods@.len() && occupies(
                cluster.pods@[p],
                cluster.nodes@[i].name->0@,
            ) && 0 <= k < cluster.pods@[p].containers@.len() ==> wants_none(
                cluster.pods@[p].containers@[k],
            ),
        forall|p: int, k: int|
            #![trigger cluster.pods@[p].init_containers@[k]]
            0 <= p < cluster.pods@.len() && occupies(
                cluster.pods@[p],
                cluster.nodes@[i].name->0@,
            ) && 0 <= k < cluster.pods@[p].init_containers@.len() ==> wants_none(
                cluster.pods@[p].init_containers@[k],
            ),
    ensures
        idle_names(cluster@.nodes, cluster@.pods).contains(cluster.nodes@[i].name->0@),
        idle_names(cluster@.nodes, cluster@.pods).len() <= 50 ==> hinted(
            idle_names(cluster@.nodes, cluster@.pods),
        ).contains(cluster.nodes@[i].name->0@),
{
    let node = cluster.nodes@[i];
    let name = node.name->0@;
    let pods = cluster@.pods;
    assert(cluster@.nodes[i] == node@);
    assert(node@.conditions[j] == ("Ready"@, "True"@));
    assert forall|p: int|
        0 <= p < pods.len() && (#[trigger] pods[p]).node == Some(name) && active(
            pods[p],
        ) implies pod_gpus(pods[p]) == 0 by {
        let pod = cluster.pods@[p];
        assert(pods[p] == pod@);
        assert(occupies(pod, name));
        assert forall|k: int| 0 <= k < pod@.containers.len() implies gpus_of(
            #[trigger] pod@.containers[k],
        ) == 0 by {
            assert(pod@.containers[k] == cluster.pods@[p].containers@[k]@);
            wanting_none_counts_none(cluster.pods@[p].containers@[k]);
        }
        assert forall|k: int| 0 <= k < pod@.init_containers.len() implies gpus_of(
            #[trigger] pod@.init_containers[k],
        ) == 0 by {
            assert(pod@.init_containers[k] == cluster.pods@[p].init_containers@[k]@);
            wanting_none_counts_none(cluster.pods@[p].init_containers@[k]);
        }
        no_gpus_in_containers(pod@.containers);
        no_gpus_in_containers(pod@.init_containers);
    }
    no_gpus_in_pods(pods, name);
    assert(idle(cluster@.nodes[i], pods));
    idle_names_are_of_idle_nodes(cluster@.nodes, pods, name);
}

/// The names come in the order of the nodes: those of a longer list are those of its beginning,
/// then those of its rest.
pub proof fn idle_names_keep_order(
    nodes: Seq<NodeStateView>,
    more: Seq<NodeStateView>,
    pods: Seq<PodUseView>,
)
    ensures
        idle_names(nodes + more, pods) == idle_names(nodes, pods) + idle_names(more, pods),
        more.len() == 1 ==> idle_names(more, pods).len() <= 1,
    decreases more.len(),
{
    let all = nodes + more;
    if more.len() == 0 {
        assert(all =~= nodes);
        assert(idle_names(nodes, pods) + Seq::<Seq<char>>::empty() =~= idle_names(nodes, pods));
    } else {
        idle_names_keep_order(nodes, more.drop_last(), pods);
        assert(all.drop_last() =~= nodes + more.drop_last());
        assert(all.last() == more.last());
        let a = idle_names(nodes, pods);
        let b = idle_names(more.drop_last(), pods);
        if idle(more.last(), pods) {
            let n = more.last().name->0;
            assert((a + b).push(n) =~= a + b.push(n));
        }
        if more.len() == 1 {
            assert(more.drop_last() =~= Seq::empty());
        }
    }
}

/// Of the idle nodes the first fifty are preferred, or all where there are fewer.
pub proof fn first_fifty_are_preferred(names: Seq<Seq<char>>)
    ensures
        names.len() <= 50 ==> hinted(names) == names,
        names.len() > 50 ==> hinted(names) == names.take(50),
{
}

}
