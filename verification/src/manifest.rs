//! What is asked of the cluster: the pods, jobs and claims of a build, and the documents that
//! spell them.

use vstd::prelude::*;

use crate::json;
use crate::json::{
    bool_value, int_value, list_value, no_fields, object_value, put, text_fields_value,
    text_list_value, text_value, Json,
};
use crate::text;

verus! {

/// The compute resources that a container asks for and is held to.
pub struct Resources {
    pub requests: Vec<(String, String)>,
    pub limits: Vec<(String, String)>,
}

/// What `Resources` hold.
pub struct ResourcesView {
    pub requests: Seq<(Seq<char>, Seq<char>)>,
    pub limits: Seq<(Seq<char>, Seq<char>)>,
}

impl View for Resources {
    type V = ResourcesView;

    open spec fn view(&self) -> ResourcesView {
        ResourcesView { requests: text::pairs(self.requests@), limits: text::pairs(self.limits@) }
    }
}

impl Default for Resources {
    /// Nothing asked for, no limits.
    fn default() -> (r: Self)
        ensures
            r@.requests.len() == 0,
            r@.limits.len() == 0,
    {
        Resources { requests: Vec::new(), limits: Vec::new() }
    }
}

/// Where a volume is mounted in a container.
pub struct Mount {
    pub name: String,
    pub mount_path: String,
    pub read_only: bool,
}

/// What a `Mount` holds.
pub struct MountView {
    pub name: Seq<char>,
    pub mount_path: Seq<char>,
    pub read_only: bool,
}

impl View for Mount {
    type V = MountView;

    open spec fn view(&self) -> MountView {
        MountView {
            name: self.name@,
            mount_path: self.mount_path@,
            read_only: self.read_only,
        }
    }
}

/// Whom a container runs as.
#[derive(Clone, Copy)]
pub struct SecurityContext {
    pub run_as_user: i64,
    pub run_as_group: i64,
    /// Whether the default system call filter is lifted.
    pub unconfined: bool,
}

/// A container of a pod.
pub struct Container {
    pub name: String,
    pub image: String,
    pub command: Vec<String>,
    pub env: Vec<(String, String)>,
    pub security: Option<SecurityContext>,
    pub mounts: Vec<Mount>,
    pub resources: Resources,
    pub termination_message_policy: Option<String>,
}

/// What a `Container` holds.
pub struct ContainerView {
    pub name: Seq<char>,
    pub image: Seq<char>,
    pub command: Seq<Seq<char>>,
    pub env: Seq<(Seq<char>, Seq<char>)>,
    pub security: Option<SecurityContext>,
    pub mounts: Seq<MountView>,
    pub resources: ResourcesView,
    pub termination_message_policy: Option<Seq<char>>,
}

/// What each of the mounts holds.
pub open spec fn mounts_of(mounts: Seq<Mount>) -> Seq<MountView> {
    mounts.map_values(|m: Mount| m@)
}

impl View for Container {
    type V = ContainerView;

    open spec fn view(&self) -> ContainerView {
        ContainerView {
            name: self.name@,
            image: self.image@,
            command: text::texts(self.command@),
            env: text::pairs(self.env@),
            security: self.security,
            mounts: mounts_of(self.mounts@),
            resources: self.resources@,
            termination_message_policy: text::opt_text(self.termination_message_policy),
        }
    }
}

/// What a volume is made of.
pub enum VolumeSource {
    /// A fresh directory that lives and dies with the pod.
    EmptyDir,
    /// A persistent volume claim, by name.
    Claim(String),
    /// A directory of the node, made where it is missing.
    HostPath(String),
    /// The items of a secret, each a key and the file name it gets.
    Secret(String, Vec<(String, String)>),
}

/// What a `VolumeSource` holds.
pub enum VolumeSourceView {
    EmptyDir,
    Claim(Seq<char>),
    HostPath(Seq<char>),
    Secret(Seq<char>, Seq<(Seq<char>, Seq<char>)>),
}

impl View for VolumeSource {
    type V = VolumeSourceView;

    open spec fn view(&self) -> VolumeSourceView {
        match self {
            VolumeSource::EmptyDir => VolumeSourceView::EmptyDir,
            VolumeSource::Claim(name) => VolumeSourceView::Claim(name@),
            VolumeSource::HostPath(path) => VolumeSourceView::HostPath(path@),
            VolumeSource::Secret(name, items) => VolumeSourceView::Secret(name@, text::pairs(items@)),
        }
    }
}

/// A volume of a pod.
pub struct Volume {
    pub name: String,
    pub source: VolumeSource,
}

/// What a `Volume` holds.
pub struct VolumeView {
    pub name: Seq<char>,
    pub source: VolumeSourceView,
}

impl View for Volume {
    type V = VolumeView;

    open spec fn view(&self) -> VolumeView {
        VolumeView { name: self.name@, source: self.source@ }
    }
}

/// What each of the volumes holds.
pub open spec fn volumes_of(volumes: Seq<Volume>) -> Seq<VolumeView> {
    volumes.map_values(|v: Volume| v@)
}

/// What each of the containers holds.
pub open spec fn containers_of(containers: Seq<Container>) -> Seq<ContainerView> {
    containers.map_values(|c: Container| c@)
}

/// How a pod runs and where.
pub struct PodPlan {
    pub restart_policy: String,
    pub active_deadline_seconds: Option<i64>,
    pub fs_group: Option<i64>,
    pub init_containers: Vec<Container>,
    pub containers: Vec<Container>,
    pub volumes: Vec<Volume>,
    /// The node that the pod is pinned to.
    pub node: Option<String>,
    /// The nodes that the scheduler should prefer.
    pub preferred_nodes: Vec<String>,
}

/// What a `PodPlan` holds.
pub struct PodPlanView {
    pub restart_policy: Seq<char>,
    pub active_deadline_seconds: Option<i64>,
    pub fs_group: Option<i64>,
    pub init_containers: Seq<ContainerView>,
    pub containers: Seq<ContainerView>,
    pub volumes: Seq<VolumeView>,
    pub node: Option<Seq<char>>,
    pub preferred_nodes: Seq<Seq<char>>,
}

impl View for PodPlan {
    type V = PodPlanView;

    open spec fn view(&self) -> PodPlanView {
        PodPlanView {
            restart_policy: self.restart_policy@,
            active_deadline_seconds: self.active_deadline_seconds,
            fs_group: self.fs_group,
            init_containers: containers_of(self.init_containers@),
            containers: containers_of(self.containers@),
            volumes: volumes_of(self.volumes@),
            node: text::opt_text(self.node),
            preferred_nodes: text::texts(self.preferred_nodes@),
        }
    }
}

/// The names and marks of an object in the cluster.
pub struct Metadata {
    pub name: Option<String>,
    pub namespace: Option<String>,
    pub labels: Vec<(String, String)>,
    pub annotations: Vec<(String, String)>,
}

/// What `Metadata` hold.
pub struct MetadataView {
    pub name: Option<Seq<char>>,
    pub namespace: Option<Seq<char>>,
    pub labels: Seq<(Seq<char>, Seq<char>)>,
    pub annotations: Seq<(Seq<char>, Seq<char>)>,
}

impl View for Metadata {
    type V = MetadataView;

    open spec fn view(&self) -> MetadataView {
        MetadataView {
            name: text::opt_text(self.name),
            namespace: text::opt_text(self.namespace),
            labels: text::pairs(self.labels@),
            annotations: text::pairs(self.annotations@),
        }
    }
}

/// A pod, or the template from which a job makes its pods.
pub struct PodManifest {
    pub metadata: Metadata,
    pub plan: PodPlan,
}

/// What a `PodManifest` holds.
pub struct PodManifestView {
    pub metadata: MetadataView,
    pub plan: PodPlanView,
}

impl View for PodManifest {
    type V = PodManifestView;

    open spec fn view(&self) -> PodManifestView {
        PodManifestView { metadata: self.metadata@, plan: self.plan@ }
    }
}

/// A job.
pub struct JobManifest {
    pub metadata: Metadata,
    pub backoff_limit: i32,
    pub ttl_seconds_after_finished: i32,
    pub active_deadline_seconds: i64,
    pub template: PodManifest,
}

/// What a `JobManifest` holds.
pub struct JobManifestView {
    pub metadata: MetadataView,
    pub backoff_limit: i32,
    pub ttl_seconds_after_finished: i32,
    pub active_deadline_seconds: i64,
    pub template: PodManifestView,
}

impl View for JobManifest {
    type V = JobManifestView;

    open spec fn view(&self) -> JobManifestView {
        JobManifestView {
            metadata: self.metadata@,
            backoff_limit: self.backoff_limit,
            ttl_seconds_after_finished: self.ttl_seconds_after_finished,
            active_deadline_seconds: self.active_deadline_seconds,
            template: self.template@,
        }
    }
}

/// A persistent volume claim.
pub struct ClaimManifest {
    pub metadata: Metadata,
    pub access_modes: Vec<String>,
    pub storage: String,
}

/// What a `ClaimManifest` holds.
pub struct ClaimManifestView {
    pub metadata: MetadataView,
    pub access_modes: Seq<Seq<char>>,
    pub storage: Seq<char>,
}

impl View for ClaimManifest {
    type V = ClaimManifestView;

    open spec fn view(&self) -> ClaimManifestView {
        ClaimManifestView {
            metadata: self.metadata@,
            access_modes: text::texts(self.access_modes@),
            storage: self.storage@,
        }
    }
}


/// `requests` and `limits`, as far as there are any; nothing where there are neither.
pub open spec fn resources_json(r: ResourcesView) -> Option<Json> {
    let fields = json::put_if(
        json::put_if(
            json::blank(),
            "requests"@,
            if r.requests.len() > 0 {
                Some(Json::Object(json::text_fields(r.requests)))
            } else {
                None
            },
        ),
        "limits"@,
        if r.limits.len() > 0 {
            Some(Json::Object(json::text_fields(r.limits)))
        } else {
            None
        },
    );
    if r.requests.len() > 0 || r.limits.len() > 0 {
        Some(Json::Object(fields))
    } else {
        None
    }
}

pub open spec fn env_json(kv: (Seq<char>, Seq<char>)) -> Json {
    Json::Object(json::blank().insert("name"@, Json::Text(kv.0)).insert("value"@, Json::Text(kv.1)))
}

pub open spec fn mount_json(m: MountView) -> Json {
    Json::Object(
        json::put_if(
            json::blank().insert("name"@, Json::Text(m.name)).insert(
                "mountPath"@,
                Json::Text(m.mount_path),
            ),
            "readOnly"@,
            if m.read_only {
                Some(Json::Bool(true))
            } else {
                None
            },
        ),
    )
}

pub open spec fn security_json(s: SecurityContext) -> Json {
    Json::Object(
        json::put_if(
            json::blank().insert("runAsUser"@, Json::Int(s.run_as_user as int)).insert(
                "runAsGroup"@,
                Json::Int(s.run_as_group as int),
            ),
            "seccompProfile"@,
            if s.unconfined {
                Some(Json::Object(json::blank().insert("type"@, Json::Text("Unconfined"@))))
            } else {
                None
            },
        ),
    )
}

/// A list field, left out where the list is empty.
pub open spec fn some_list(items: Seq<Json>) -> Option<Json> {
    if items.len() > 0 {
        Some(Json::List(items))
    } else {
        None
    }
}

/// A field of texts by name, left out where there are none.
pub open spec fn some_fields(kvs: Seq<(Seq<char>, Seq<char>)>) -> Option<Json> {
    if kvs.len() > 0 {
        Some(Json::Object(json::text_fields(kvs)))
    } else {
        None
    }
}

/// A text field, left out where there is none.
pub open spec fn some_text(s: Option<Seq<char>>) -> Option<Json> {
    match s {
        Some(t) => Some(Json::Text(t)),
        None => None,
    }
}

/// The document that spells a container.
pub open spec fn container_json(c: ContainerView) -> Json {
    let fields = json::blank().insert("name"@, Json::Text(c.name)).insert(
        "image"@,
        Json::Text(c.image),
    ).insert("command"@, json::text_list(c.command));
    let fields = json::put_if(
        fields,
        "env"@,
        some_list(c.env.map_values(|kv: (Seq<char>, Seq<char>)| env_json(kv))),
    );
    let fields = json::put_if(
        fields,
        "securityContext"@,
        match c.security {
            Some(s) => Some(security_json(s)),
            None => None,
        },
    );
    let fields = json::put_if(
        fields,
        "volumeMounts"@,
        some_list(c.mounts.map_values(|m: MountView| mount_json(m))),
    );
    let fields = json::put_if(fields, "resources"@, resources_json(c.resources));
    let fields = json::put_if(
        fields,
        "terminationMessagePolicy"@,
        some_text(c.termination_message_policy),
    );
    Json::Object(fields)
}

pub open spec fn secret_item_json(kv: (Seq<char>, Seq<char>)) -> Json {
    Json::Object(json::blank().insert("key"@, Json::Text(kv.0)).insert("path"@, Json::Text(kv.1)))
}

/// The document that spells a volume.
pub open spec fn volume_json(v: VolumeView) -> Json {
    let fields = json::blank().insert("name"@, Json::Text(v.name));
    Json::Object(
        match v.source {
            VolumeSourceView::EmptyDir => fields.insert("emptyDir"@, Json::Object(json::blank())),
            VolumeSourceView::Claim(name) => fields.insert(
                "persistentVolumeClaim"@,
                Json::Object(json::blank().insert("claimName"@, Json::Text(name))),
            ),
            VolumeSourceView::HostPath(path) => fields.insert(
                "hostPath"@,
                Json::Object(
                    json::blank().insert("path"@, Json::Text(path)).insert(
                        "type"@,
                        Json::Text("DirectoryOrCreate"@),
                    ),
                ),
            ),
            VolumeSourceView::Secret(name, items) => fields.insert(
                "secret"@,
                Json::Object(
                    json::blank().insert("secretName"@, Json::Text(name)).insert(
                        "items"@,
                        Json::List(
                            items.map_values(|kv: (Seq<char>, Seq<char>)| secret_item_json(kv)),
                        ),
                    ),
                ),
            ),
        },
    )
}

/// The preference for the given nodes, among all that the scheduler may choose.
pub open spec fn affinity_json(nodes: Seq<Seq<char>>) -> Json {
    let expression = json::blank().insert("key"@, Json::Text("kubernetes.io/hostname"@)).insert(
        "operator"@,
        Json::Text("In"@),
    ).insert("values"@, json::text_list(nodes));
    let preference = json::blank().insert(
        "matchExpressions"@,
        Json::List(seq![Json::Object(expression)]),
    );
    let term = json::blank().insert("weight"@, Json::Int(100)).insert(
        "preference"@,
        Json::Object(preference),
    );
    let node_affinity = json::blank().insert(
        "preferredDuringSchedulingIgnoredDuringExecution"@,
        Json::List(seq![Json::Object(term)]),
    );
    Json::Object(json::blank().insert("nodeAffinity"@, Json::Object(node_affinity)))
}

/// The document that spells a pod's plan.
pub open spec fn plan_json(p: PodPlanView) -> Json {
    let fields = json::blank().insert("restartPolicy"@, Json::Text(p.restart_policy));
    let fields = json::put_if(
        fields,
        "activeDeadlineSeconds"@,
        match p.active_deadline_seconds {
            Some(n) => Some(Json::Int(n as int)),
            None => None,
        },
    );
    let fields = json::put_if(
        fields,
        "securityContext"@,
        match p.fs_group {
            Some(n) => Some(Json::Object(json::blank().insert("fsGroup"@, Json::Int(n as int)))),
            None => None,
        },
    );
    let fields = json::put_if(
        fields,
        "initContainers"@,
        some_list(p.init_containers.map_values(|c: ContainerView| container_json(c))),
    );
    let fields = fields.insert(
        "containers"@,
        Json::List(p.containers.map_values(|c: ContainerView| container_json(c))),
    );
    let fields = fields.insert(
        "volumes"@,
        Json::List(p.volumes.map_values(|v: VolumeView| volume_json(v))),
    );
    let fields = json::put_if(
        fields,
        "nodeSelector"@,
        match p.node {
            Some(node) => Some(
                Json::Object(json::blank().insert("kubernetes.io/hostname"@, Json::Text(node))),
            ),
            None => None,
        },
    );
    let fields = json::put_if(
        fields,
        "affinity"@,
        if p.preferred_nodes.len() > 0 {
            Some(affinity_json(p.preferred_nodes))
        } else {
            None
        },
    );
    Json::Object(fields)
}

/// The document that spells names and marks.
pub open spec fn metadata_json(m: MetadataView) -> Json {
    let fields = json::put_if(json::blank(), "name"@, some_text(m.name));
    let fields = json::put_if(fields, "namespace"@, some_text(m.namespace));
    let fields = json::put_if(fields, "labels"@, some_fields(m.labels));
    let fields = json::put_if(fields, "annotations"@, some_fields(m.annotations));
    Json::Object(fields)
}

/// The document that spells a pod.
pub open spec fn pod_json(p: PodManifestView) -> Json {
    Json::Object(
        json::blank().insert("apiVersion"@, Json::Text("v1"@)).insert(
            "kind"@,
            Json::Text("Pod"@),
        ).insert("metadata"@, metadata_json(p.metadata)).insert("spec"@, plan_json(p.plan)),
    )
}

/// The document that spells a job.
pub open spec fn job_json(j: JobManifestView) -> Json {
    let template = json::blank().insert("metadata"@, metadata_json(j.template.metadata)).insert(
        "spec"@,
        plan_json(j.template.plan),
    );
    let spec_fields = json::blank().insert("backoffLimit"@, Json::Int(j.backoff_limit as int)).insert(
        "ttlSecondsAfterFinished"@,
        Json::Int(j.ttl_seconds_after_finished as int),
    ).insert("activeDeadlineSeconds"@, Json::Int(j.active_deadline_seconds as int)).insert(
        "template"@,
        Json::Object(template),
    );
    Json::Object(
        json::blank().insert("apiVersion"@, Json::Text("batch/v1"@)).insert(
            "kind"@,
            Json::Text("Job"@),
        ).insert("metadata"@, metadata_json(j.metadata)).insert("spec"@, Json::Object(spec_fields)),
    )
}

/// The document that spells a claim.
pub open spec fn claim_json(c: ClaimManifestView) -> Json {
    let requests = json::blank().insert("storage"@, Json::Text(c.storage));
    let spec_fields = json::blank().insert("accessModes"@, json::text_list(c.access_modes)).insert(
        "resources"@,
        Json::Object(json::blank().insert("requests"@, Json::Object(requests))),
    );
    Json::Object(
        json::blank().insert("apiVersion"@, Json::Text("v1"@)).insert(
            "kind"@,
            Json::Text("PersistentVolumeClaim"@),
        ).insert("metadata"@, metadata_json(c.metadata)).insert("spec"@, Json::Object(spec_fields)),
    )
}

impl Resources {
    /// The `requests` and `limits` of a container, nothing where there are neither.
    pub fn json(&self) -> (value: Option<serde_json::Value>)
        ensures
            match value {
                Some(v) => resources_json(self@) == Some(json::tree_of(v)),
                None => resources_json(self@) is None,
            },
    {
        let mut fields = no_fields();
        if self.requests.len() > 0 {
            put(&mut fields, "requests", text_fields_value(self.requests.as_slice()));
        }
        if self.limits.len() > 0 {
            put(&mut fields, "limits", text_fields_value(self.limits.as_slice()));
        }
        if self.requests.len() > 0 || self.limits.len() > 0 {
            Some(object_value(fields))
        } else {
            None
        }
    }
}

fn env_value(env: &[(String, String)]) -> (value: serde_json::Value)
    ensures
        json::tree_of(value) == Json::List(
            text::pairs(env@).map_values(|kv: (Seq<char>, Seq<char>)| env_json(kv)),
        ),
{
    let mut items: Vec<serde_json::Value> = Vec::new();
    for i in 0..env.len()
        invariant
            items@.len() == i,
            forall|j: int|
                0 <= j < i ==> json::tree_of(#[trigger] items@[j]) == env_json(
                    (env@[j].0@, env@[j].1@),
                ),
    {
        let mut fields = no_fields();
        put(&mut fields, "name", text_value(env[i].0.as_str()));
        put(&mut fields, "value", text_value(env[i].1.as_str()));
        items.push(object_value(fields));
    }
    assert(json::trees_of(items@) =~= text::pairs(env@).map_values(
        |kv: (Seq<char>, Seq<char>)| env_json(kv),
    ));
    list_value(items)
}

fn secret_items_value(pairs: &[(String, String)]) -> (value: serde_json::Value)
    ensures
        json::tree_of(value) == Json::List(
            text::pairs(pairs@).map_values(|kv: (Seq<char>, Seq<char>)| secret_item_json(kv)),
        ),
{
    let mut items: Vec<serde_json::Value> = Vec::new();
    for i in 0..pairs.len()
        invariant
            items@.len() == i,
            forall|j: int|
                0 <= j < i ==> json::tree_of(#[trigger] items@[j]) == secret_item_json(
                    (pairs@[j].0@, pairs@[j].1@),
                ),
    {
        let mut fields = no_fields();
        put(&mut fields, "key", text_value(pairs[i].0.as_str()));
        put(&mut fields, "path", text_value(pairs[i].1.as_str()));
        items.push(object_value(fields));
    }
    assert(json::trees_of(items@) =~= text::pairs(pairs@).map_values(
        |kv: (Seq<char>, Seq<char>)| secret_item_json(kv),
    ));
    list_value(items)
}

fn mounts_value(mounts: &[Mount]) -> (value: serde_json::Value)
    ensures
        json::tree_of(value) == Json::List(
            mounts_of(mounts@).map_values(|m: MountView| mount_json(m)),
        ),
{
    let mut items: Vec<serde_json::Value> = Vec::new();
    for i in 0..mounts.len()
        invariant
            items@.len() == i,
            forall|j: int|
                0 <= j < i ==> json::tree_of(#[trigger] items@[j]) == mount_json(mounts@[j]@),
    {
        let m = &mounts[i];
        let mut fields = no_fields();
        put(&mut fields, "name", text_value(m.name.as_str()));
        put(&mut fields, "mountPath", text_value(m.mount_path.as_str()));
        if m.read_only {
            put(&mut fields, "readOnly", bool_value(true));
        }
        items.push(object_value(fields));
    }
    assert(json::trees_of(items@) =~= mounts_of(mounts@).map_values(|m: MountView| mount_json(m)));
    list_value(items)
}

fn security_value(s: &SecurityContext) -> (value: serde_json::Value)
    ensures
        json::tree_of(value) == security_json(*s),
{
    let mut fields = no_fields();
    put(&mut fields, "runAsUser", int_value(s.run_as_user));
    put(&mut fields, "runAsGroup", int_value(s.run_as_group));
    if s.unconfined {
        let mut profile = no_fields();
        put(&mut profile, "type", text_value("Unconfined"));
        put(&mut fields, "seccompProfile", object_value(profile));
    }
    object_value(fields)
}

fn container_value(c: &Container) -> (value: serde_json::Value)
    ensures
        json::tree_of(value) == container_json(c@),
{
    let mut fields = no_fields();
    put(&mut fields, "name", text_value(c.name.as_str()));
    put(&mut fields, "image", text_value(c.image.as_str()));
    put(&mut fields, "command", text_list_value(c.command.as_slice()));
    if c.env.len() > 0 {
        put(&mut fields, "env", env_value(c.env.as_slice()));
    }
    if let Some(s) = &c.security {
        put(&mut fields, "securityContext", security_value(s));
    }
    if c.mounts.len() > 0 {
        put(&mut fields, "volumeMounts", mounts_value(c.mounts.as_slice()));
    }
    if let Some(r) = c.resources.json() {
        put(&mut fields, "resources", r);
    }
    if let Some(policy) = &c.termination_message_policy {
        put(&mut fields, "terminationMessagePolicy", text_value(policy.as_str()));
    }
    object_value(fields)
}

fn containers_value(containers: &[Container]) -> (value: serde_json::Value)
    ensures
        json::tree_of(value) == Json::List(
            containers_of(containers@).map_values(|c: ContainerView| container_json(c)),
        ),
{
    let mut items: Vec<serde_json::Value> = Vec::new();
    for i in 0..containers.len()
        invariant
            items@.len() == i,
            forall|j: int|
                0 <= j < i ==> json::tree_of(#[trigger] items@[j]) == container_json(
                    containers@[j]@,
                ),
    {
        items.push(container_value(&containers[i]));
    }
    assert(json::trees_of(items@) =~= containers_of(containers@).map_values(
        |c: ContainerView| container_json(c),
    ));
    list_value(items)
}

fn volume_value(v: &Volume) -> (value: serde_json::Value)
    ensures
        json::tree_of(value) == volume_json(v@),
{
    let mut fields = no_fields();
    put(&mut fields, "name", text_value(v.name.as_str()));
    let mut source = no_fields();
    match &v.source {
        VolumeSource::EmptyDir => {
            put(&mut fields, "emptyDir", object_value(source));
        },
        VolumeSource::Claim(name) => {
            put(&mut source, "claimName", text_value(name.as_str()));
            put(&mut fields, "persistentVolumeClaim", object_value(source));
        },
        VolumeSource::HostPath(path) => {
            put(&mut source, "path", text_value(path.as_str()));
            put(&mut source, "type", text_value("DirectoryOrCreate"));
            put(&mut fields, "hostPath", object_value(source));
        },
        VolumeSource::Secret(name, items) => {
            put(&mut source, "secretName", text_value(name.as_str()));
            put(&mut source, "items", secret_items_value(items.as_slice()));
            put(&mut fields, "secret", object_value(source));
        },
    }
    object_value(fields)
}

fn volumes_value(volumes: &[Volume]) -> (value: serde_json::Value)
    ensures
        json::tree_of(value) == Json::List(
            volumes_of(volumes@).map_values(|v: VolumeView| volume_json(v)),
        ),
{
    let mut items: Vec<serde_json::Value> = Vec::new();
    for i in 0..volumes.len()
        invariant
            items@.len() == i,
            forall|j: int|
                0 <= j < i ==> json::tree_of(#[trigger] items@[j]) == volume_json(volumes@[j]@),
    {
        items.push(volume_value(&volumes[i]));
    }
    assert(json::trees_of(items@) =~= volumes_of(volumes@).map_values(
        |v: VolumeView| volume_json(v),
    ));
    list_value(items)
}

/// The list of one item.
fn one_item_value(item: serde_json::Value) -> (value: serde_json::Value)
    ensures
        json::tree_of(value) == Json::List(seq![json::tree_of(item)]),
{
    let mut items: Vec<serde_json::Value> = Vec::new();
    items.push(item);
    assert(json::trees_of(items@) =~= seq![json::tree_of(item)]);
    list_value(items)
}

/// The object of one field.
fn one_field_value(key: &str, item: serde_json::Value) -> (value: serde_json::Value)
    ensures
        json::tree_of(value) == Json::Object(json::blank().insert(key@, json::tree_of(item))),
{
    let mut fields = no_fields();
    put(&mut fields, key, item);
    object_value(fields)
}

fn affinity_value(nodes: &[String]) -> (value: serde_json::Value)
    ensures
        json::tree_of(value) == affinity_json(text::texts(nodes@)),
{
    let mut expression = no_fields();
    put(&mut expression, "key", text_value("kubernetes.io/hostname"));
    put(&mut expression, "operator", text_value("In"));
    put(&mut expression, "values", text_list_value(nodes));
    let preference = one_field_value("matchExpressions", one_item_value(object_value(expression)));
    let mut term = no_fields();
    put(&mut term, "weight", int_value(100));
    put(&mut term, "preference", preference);
    let node_affinity = one_field_value(
        "preferredDuringSchedulingIgnoredDuringExecution",
        one_item_value(object_value(term)),
    );
    one_field_value("nodeAffinity", node_affinity)
}

fn plan_value(p: &PodPlan) -> (value: serde_json::Value)
    ensures
        json::tree_of(value) == plan_json(p@),
{
    let mut fields = no_fields();
    put(&mut fields, "restartPolicy", text_value(p.restart_policy.as_str()));
    if let Some(n) = p.active_deadline_seconds {
        put(&mut fields, "activeDeadlineSeconds", int_value(n));
    }
    if let Some(n) = p.fs_group {
        put(&mut fields, "securityContext", one_field_value("fsGroup", int_value(n)));
    }
    if p.init_containers.len() > 0 {
        put(&mut fields, "initContainers", containers_value(p.init_containers.as_slice()));
    }
    put(&mut fields, "containers", containers_value(p.containers.as_slice()));
    put(&mut fields, "volumes", volumes_value(p.volumes.as_slice()));
    if let Some(node) = &p.node {
        put(
            &mut fields,
            "nodeSelector",
            one_field_value("kubernetes.io/hostname", text_value(node.as_str())),
        );
    }
    if p.preferred_nodes.len() > 0 {
        put(&mut fields, "affinity", affinity_value(p.preferred_nodes.as_slice()));
    }
    object_value(fields)
}

fn metadata_value(m: &Metadata) -> (value: serde_json::Value)
    ensures
        json::tree_of(value) == metadata_json(m@),
{
    let mut fields = no_fields();
    if let Some(name) = &m.name {
        put(&mut fields, "name", text_value(name.as_str()));
    }
    if let Some(namespace) = &m.namespace {
        put(&mut fields, "namespace", text_value(namespace.as_str()));
    }
    if m.labels.len() > 0 {
        put(&mut fields, "labels", text_fields_value(m.labels.as_slice()));
    }
    if m.annotations.len() > 0 {
        put(&mut fields, "annotations", text_fields_value(m.annotations.as_slice()));
    }
    object_value(fields)
}

impl PodManifest {
    /// The document that spells the pod.
    pub fn json(&self) -> (value: serde_json::Value)
        ensures
            json::tree_of(value) == pod_json(self@),
    {
        let mut fields = no_fields();
        put(&mut fields, "apiVersion", text_value("v1"));
        put(&mut fields, "kind", text_value("Pod"));
        put(&mut fields, "metadata", metadata_value(&self.metadata));
        put(&mut fields, "spec", plan_value(&self.plan));
        object_value(fields)
    }
}

impl JobManifest {
    /// The document that spells the job.
    pub fn json(&self) -> (value: serde_json::Value)
        ensures
            json::tree_of(value) == job_json(self@),
    {
        let mut template = no_fields();
        put(&mut template, "metadata", metadata_value(&self.template.metadata));
        put(&mut template, "spec", plan_value(&self.template.plan));
        let mut spec_fields = no_fields();
        put(&mut spec_fields, "backoffLimit", int_value(self.backoff_limit as i64));
        put(
            &mut spec_fields,
            "ttlSecondsAfterFinished",
            int_value(self.ttl_seconds_after_finished as i64),
        );
        put(&mut spec_fields, "activeDeadlineSeconds", int_value(self.active_deadline_seconds));
        put(&mut spec_fields, "template", object_value(template));
        let mut fields = no_fields();
        put(&mut fields, "apiVersion", text_value("batch/v1"));
        put(&mut fields, "kind", text_value("Job"));
        put(&mut fields, "metadata", metadata_value(&self.metadata));
        put(&mut fields, "spec", object_value(spec_fields));
        object_value(fields)
    }
}

impl ClaimManifest {
    /// The document that spells the claim.
    pub fn json(&self) -> (value: serde_json::Value)
        ensures
            json::tree_of(value) == claim_json(self@),
    {
        let requests = one_field_value("storage", text_value(self.storage.as_str()));
        let mut spec_fields = no_fields();
        put(&mut spec_fields, "accessModes", text_list_value(self.access_modes.as_slice()));
        put(&mut spec_fields, "resources", one_field_value("requests", requests));
        let mut fields = no_fields();
        put(&mut fields, "apiVersion", text_value("v1"));
        put(&mut fields, "kind", text_value("PersistentVolumeClaim"));
        put(&mut fields, "metadata", metadata_value(&self.metadata));
        put(&mut fields, "spec", object_value(spec_fields));
        object_value(fields)
    }
}

/// A pod as `k8s_openapi` has it.
#[verifier::external_type_specification]
#[verifier::external_body]
pub struct ExPod(k8s_openapi::api::core::v1::Pod);

/// A job as `k8s_openapi` has it.
#[verifier::external_type_specification]
#[verifier::external_body]
pub struct ExJob(k8s_openapi::api::batch::v1::Job);

/// A persistent volume claim as `k8s_openapi` has it.
#[verifier::external_type_specification]
#[verifier::external_body]
pub struct ExClaim(k8s_openapi::api::core::v1::PersistentVolumeClaim);

/// The pod that a document spells, where it spells one.
pub uninterp spec fn typed_pod(doc: Json) -> Option<k8s_openapi::api::core::v1::Pod>;

/// The job that a document spells, where it spells one.
pub uninterp spec fn typed_job(doc: Json) -> Option<k8s_openapi::api::batch::v1::Job>;

/// The persistent volume claim that a document spells, where it spells one.
pub uninterp spec fn typed_claim(doc: Json) -> Option<
    k8s_openapi::api::core::v1::PersistentVolumeClaim,
>;

/// Why a document is not what it should be.
#[derive(Debug)]
pub enum ManifestError {
    Pod(serde_json::Error),
    Job(serde_json::Error),
    Claim(serde_json::Error),
}

impl ManifestError {
    /// What went wrong, in words.
    pub fn message(&self) -> (m: String)
        ensures
            m@ == match self {
                ManifestError::Pod(_) => "building pod spec"@,
                ManifestError::Job(_) => "building job spec"@,
                ManifestError::Claim(_) => "building PVC spec"@,
            },
    {
        match self {
            ManifestError::Pod(_) => "building pod spec".to_owned(),
            ManifestError::Job(_) => "building job spec".to_owned(),
            ManifestError::Claim(_) => "building PVC spec".to_owned(),
        }
    }
}

/// Whether the document is one that spells a pod manifest.
pub open spec fn spells_pod(doc: Json) -> bool {
    exists|p: PodManifestView| doc == #[trigger] pod_json(p)
}

/// Whether the document is one that spells a job manifest.
pub open spec fn spells_job(doc: Json) -> bool {
    exists|j: JobManifestView| doc == #[trigger] job_json(j)
}

/// Whether the document is one that spells the manifest of a claim.
pub open spec fn spells_claim(doc: Json) -> bool {
    exists|c: ClaimManifestView| doc == #[trigger] claim_json(c)
}

/// `serde_json::from_value` at the pod of `k8s_openapi`: the result rests on the document
/// alone, and every document that spells a pod manifest is taken. Which other documents are,
/// and what the pod holds, is not said here.
#[verifier::external_body]
fn pod_from_value(value: serde_json::Value) -> (pod: Result<
    k8s_openapi::api::core::v1::Pod,
    serde_json::Error,
>)
    ensures
        match pod {
            Ok(p) => typed_pod(json::tree_of(value)) == Some(p),
            Err(_) => typed_pod(json::tree_of(value)) is None,
        },
        spells_pod(json::tree_of(value)) ==> pod is Ok,
{
    serde_json::from_value(value)
}

/// `serde_json::from_value` at the job of `k8s_openapi`: the result rests on the document
/// alone, and every document that spells a job manifest is taken. Which other documents are,
/// and what the job holds, is not said here.
#[verifier::external_body]
fn job_from_value(value: serde_json::Value) -> (job: Result<
    k8s_openapi::api::batch::v1::Job,
    serde_json::Error,
>)
    ensures
        match job {
            Ok(j) => typed_job(json::tree_of(value)) == Some(j),
            Err(_) => typed_job(json::tree_of(value)) is None,
        },
        spells_job(json::tree_of(value)) ==> job is Ok,
{
    serde_json::from_value(value)
}

/// `serde_json::from_value` at the persistent volume claim of `k8s_openapi`: the result rests
/// on the document alone, and every document that spells the manifest of a claim is taken. Which
/// other documents are, and what the claim holds, is not said here.
#[verifier::external_body]
fn claim_from_value(value: serde_json::Value) -> (claim: Result<
    k8s_openapi::api::core::v1::PersistentVolumeClaim,
    serde_json::Error,
>)
    ensures
        match claim {
            Ok(c) => typed_claim(json::tree_of(value)) == Some(c),
            Err(_) => typed_claim(json::tree_of(value)) is None,
        },
        spells_claim(json::tree_of(value)) ==> claim is Ok,
{
    serde_json::from_value(value)
}

impl PodManifest {
    /// The pod, for the cluster.
    pub fn typed(&self) -> (r: Result<k8s_openapi::api::core::v1::Pod, ManifestError>)
        ensures
            r is Ok,
            typed_pod(pod_json(self@)) == Some(r->Ok_0),
    {
        match pod_from_value(self.json()) {
            Ok(pod) => Ok(pod),
            Err(err) => Err(ManifestError::Pod(err)),
        }
    }
}

impl JobManifest {
    /// The job, for the cluster.
    pub fn typed(&self) -> (r: Result<k8s_openapi::api::batch::v1::Job, ManifestError>)
        ensures
            r is Ok,
            typed_job(job_json(self@)) == Some(r->Ok_0),
    {
        match job_from_value(self.json()) {
            Ok(job) => Ok(job),
            Err(err) => Err(ManifestError::Job(err)),
        }
    }
}

impl ClaimManifest {
    /// The claim, for the cluster.
    pub fn typed(&self) -> (r: Result<
        k8s_openapi::api::core::v1::PersistentVolumeClaim,
        ManifestError,
    >)
        ensures
            r is Ok,
            typed_claim(claim_json(self@)) == Some(r->Ok_0),
    {
        match claim_from_value(self.json()) {
            Ok(claim) => Ok(claim),
            Err(err) => Err(ManifestError::Claim(err)),
        }
    }
}

}
