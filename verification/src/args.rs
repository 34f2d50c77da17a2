//! What is asked for on the command line.

use vstd::prelude::*;

use crate::backend::{Backend, CacheVolume, PodOpts, Resources};
use crate::job::DetachArgs;
use crate::schedule;
use crate::schedule::{idle_nodes, Cluster, ClusterView};
use crate::text;
use crate::text::split_once;

verus! {

broadcast use vstd::string::group_string_axioms;

/// How a build is carried out.
#[derive(Clone, Copy, PartialEq, Eq, Debug, Structural)]
pub enum Mode {
    /// Driven from here, in a pod that is deleted when it is over.
    Interactive,
    /// As a job of the cluster, which outlives the connection.
    Job,
}

/// Where a builder may run.
#[derive(Clone, Copy, PartialEq, Eq, Debug, Structural)]
pub enum Schedule {
    /// Preferably on a node without GPU workloads.
    Idle,
    /// Anywhere.
    Any,
}

/// What comes of it.
#[derive(Clone, Copy, PartialEq, Eq, Debug, Structural)]
pub enum Output {
    /// The image is built and pushed.
    Push,
    /// The manifests are printed, and nothing is touched.
    Render,
}

/// What a build is asked to be.
pub struct BuildArgs {
    /// The image to build and push, fully qualified.
    pub image: String,
    pub dockerfile: String,
    /// The directory that is the build context.
    pub context: String,
    pub namespace: String,
    pub backend: Backend,
    pub mode: Mode,
    pub schedule: Schedule,
    pub output: Output,
    /// Build arguments, each KEY=VALUE.
    pub build_args: Vec<String>,
    /// What the builder asks for, and what it is held to.
    pub resources: Resources,
    /// The labels of the image.
    pub labels: Vec<(String, String)>,
    /// The labels of the image that holds the context.
    pub context_labels: Vec<(String, String)>,
    /// The node that the builder is pinned to.
    pub node: Option<String>,
    /// The claim that the cache lives on.
    pub cache_pvc: Option<String>,
    /// How large the claim is, where it has to be made.
    pub cache_size: String,
    /// The directory of the node that the cache lives on.
    pub cache_hostpath: Option<String>,
    pub kubecontext: Option<String>,
}

/// Why an argument is refused: it is no KEY=VALUE.
#[derive(Debug)]
pub struct NotPair {
    pub given: String,
}

impl NotPair {
    /// What went wrong, in words.
    pub fn message(&self) -> (m: String)
        ensures
            m@ == "expected KEY=VALUE, got "@ + self.given@,
    {
        "expected KEY=VALUE, got ".to_owned().concat(self.given.as_str())
    }
}

/// Reads KEY=VALUE. The value may hold further equals signs.
pub fn key_value(s: &str) -> (r: Result<(String, String), NotPair>)
    ensures
        match text::cut_at(s@, '=') {
            Some(pair) => r is Ok && (r->Ok_0.0@, r->Ok_0.1@) == pair,
            None => r is Err && r->Err_0.given@ == s@,
        },
{
    match split_once(s, '=') {
        Some(pair) => Ok(pair),
        None => Err(NotPair { given: s.to_owned() }),
    }
}

/// Key and value are read back, where the key holds no equals sign.
pub proof fn key_value_is_read_back(key: Seq<char>, value: Seq<char>)
    requires
        !key.contains('='),
    ensures
        text::cut_at(key + "="@ + value, '=') == Some((key, value)),
{
    reveal_strlit("=");
    let whole = key + "="@ + value;
    assert(whole[key.len() as int] == '=');
    text::first_at_is(whole, '=', key.len() as int);
    assert(whole.take(key.len() as int) =~= key);
    assert(whole.skip(key.len() as int + 1) =~= value);
}

/// Whether the cache is the one that is asked for: a claim where one is named, else a directory
/// of the node, else none.
pub open spec fn is_cache_of(
    cache: Option<CacheVolume>,
    pvc: Option<Seq<char>>,
    hostpath: Option<Seq<char>>,
) -> bool {
    match pvc {
        Some(name) => cache is Some && cache->0 is Pvc && cache->0->Pvc_0@ == name,
        None => match hostpath {
            Some(path) => cache is Some && cache->0 is HostPath && cache->0->HostPath_0@ == path,
            None => cache is None,
        },
    }
}

/// The nodes that the scheduler should prefer: the idle ones, where the builder is not pinned
/// and may not run just anywhere.
pub open spec fn preferred(
    schedule: Schedule,
    node: Option<Seq<char>>,
    seen: Option<ClusterView>,
) -> Seq<Seq<char>> {
    match seen {
        Some(cluster) if schedule == Schedule::Idle && node is None => schedule::hinted(
            schedule::idle_names(cluster.nodes, cluster.pods),
        ),
        _ => Seq::empty(),
    }
}

impl BuildArgs {
    /// Whether to look for idle nodes: not where the builder may run anywhere, and not where it
    /// is pinned.
    pub fn wants_scout(&self) -> (yes: bool)
        ensures
            yes <==> self.schedule == Schedule::Idle && self.node is None,
    {
        let idle = match self.schedule {
            Schedule::Idle => true,
            Schedule::Any => false,
        };
        idle && self.node.is_none()
    }

    /// The cache that is asked for.
    pub fn cache(&self) -> (cache: Option<CacheVolume<'_>>)
        ensures
            is_cache_of(
                cache,
                text::opt_text(self.cache_pvc),
                text::opt_text(self.cache_hostpath),
            ),
    {
        match &self.cache_pvc {
            Some(name) => Some(CacheVolume::Pvc(name.as_str())),
            None => match &self.cache_hostpath {
                Some(path) => Some(CacheVolume::HostPath(path.as_str())),
                None => None,
            },
        }
    }

    /// The node that the builder is pinned to.
    pub fn pinned_node(&self) -> (node: Option<&str>)
        ensures
            text::opt_str(node) == text::opt_text(self.node),
    {
        match &self.node {
            Some(n) => Some(n.as_str()),
            None => None,
        }
    }

    /// The nodes that the scheduler should prefer, given what was seen of the cluster.
    pub fn preferred_nodes(&self, seen: Option<&Cluster>) -> (names: Vec<String>)
        ensures
            text::texts(names@) == preferred(
                self.schedule,
                text::opt_text(self.node),
                match seen {
                    Some(cluster) => Some(cluster@),
                    None => None,
                },
            ),
    {
        if self.wants_scout() {
            idle_nodes(seen)
        } else {
            let none: Vec<String> = Vec::new();
            assert(text::texts(none@) =~= Seq::empty());
            none
        }
    }

    /// What a builder pod is made with.
    pub fn pod_opts<'a>(&'a self, idle_nodes: &'a [String]) -> (opts: PodOpts<'a>)
        ensures
            opts.idle_nodes == idle_nodes,
            *opts.resources == self.resources,
            is_cache_of(
                opts.cache,
                text::opt_text(self.cache_pvc),
                text::opt_text(self.cache_hostpath),
            ),
            text::opt_str(opts.node) == text::opt_text(self.node),
    {
        PodOpts {
            idle_nodes,
            resources: &self.resources,
            cache: self.cache(),
            node: self.pinned_node(),
        }
    }

    /// What a detached build is made with.
    pub fn detach_args<'a>(
        &'a self,
        ctx_ref: &'a str,
        authfile: &'a [u8],
        idle_nodes: &'a [String],
    ) -> (args: DetachArgs<'a>)
        ensures
            args.image@ == self.image@,
            args.dockerfile@ == self.dockerfile@,
            args.build_args@ == self.build_args@,
            args.ctx_ref == ctx_ref,
            args.authfile == authfile,
            args.idle_nodes == idle_nodes,
            *args.resources == self.resources,
            args.labels@ == self.labels@,
            is_cache_of(
                args.cache,
                text::opt_text(self.cache_pvc),
                text::opt_text(self.cache_hostpath),
            ),
            text::opt_str(args.node) == text::opt_text(self.node),
    {
        DetachArgs {
            image: self.image.as_str(),
            dockerfile: self.dockerfile.as_str(),
            build_args: self.build_args.as_slice(),
            ctx_ref,
            authfile,
            idle_nodes,
            resources: &self.resources,
            labels: self.labels.as_slice(),
            cache: self.cache(),
            node: self.pinned_node(),
        }
    }
}

/// A builder that is pinned to a node prefers no others, and neither does one that may run
/// anywhere.
pub proof fn pinned_builders_prefer_none(
    schedule: Schedule,
    node: Option<Seq<char>>,
    seen: Option<ClusterView>,
)
    requires
        node is Some || schedule == Schedule::Any,
    ensures
        preferred(schedule, node, seen).len() == 0,
{
}

/// A claim that is named is the cache, whatever else is; without one a directory of the node is,
/// where it is named; and without either there is none.
pub proof fn claim_comes_first(
    cache: Option<CacheVolume>,
    claim: Seq<char>,
    path: Seq<char>,
    other: Option<Seq<char>>,
)
    ensures
        is_cache_of(cache, Some(claim), other) ==> cache is Some && cache->0 is Pvc
            && cache->0->Pvc_0@ == claim,
        is_cache_of(cache, None, Some(path)) ==> cache is Some && cache->0 is HostPath
            && cache->0->HostPath_0@ == path,
        is_cache_of(cache, None, None) ==> cache is None,
{
}

/// A builder that should run on an idle node, and is not pinned, prefers the first fifty idle
/// nodes of the cluster that was seen, and none where none was.
pub proof fn idle_nodes_are_asked_for(cluster: ClusterView, i: int)
    ensures
        ({
            let idle = schedule::idle_names(cluster.nodes, cluster.pods);
            let names = preferred(Schedule::Idle, None, Some(cluster));
            &&& idle.len() <= 50 ==> names.len() == idle.len()
            &&& idle.len() > 50 ==> names.len() == 50
            &&& 0 <= i < names.len() ==> names[i] == idle[i]
        }),
        preferred(Schedule::Idle, None, None).len() == 0,
{
}

}
