//! What the documents say that are handed to the cluster, field by field.

use vstd::prelude::*;

use crate::json;
use crate::json::Json;
use crate::manifest;
use crate::manifest::{
    ClaimManifestView, Container, ContainerView, JobManifestView, Metadata, MetadataView, Mount,
    MountView, PodManifestView, PodPlan, PodPlanView, Resources, ResourcesView, SecurityContext,
    Volume, VolumeSource, VolumeSourceView, VolumeView,
};
use crate::text;

verus! {

/// A pair is a field of that name and value, unless a later pair has the name.
pub proof fn pair_is_field(kvs: Seq<(Seq<char>, Seq<char>)>, at: int)
    requires
        0 <= at < kvs.len(),
        forall|j: int| at < j < kvs.len() ==> (#[trigger] kvs[j]).0 != kvs[at].0,
    ensures
        json::field(Json::Object(json::text_fields(kvs)), kvs[at].0) == Some(
            Json::Text(kvs[at].1),
        ),
    decreases kvs.len(),
{
    if at < kvs.len() - 1 {
        let fewer = kvs.drop_last();
        assert forall|j: int| at < j < fewer.len() implies (#[trigger] fewer[j]).0
            != fewer[at].0 by {
            assert(kvs[j].0 != kvs[at].0);
        }
        pair_is_field(fewer, at);
        assert(kvs[kvs.len() - 1].0 != kvs[at].0);
    }
}

/// A list of texts is those texts, in order.
pub proof fn texts_are_listed(items: Seq<Seq<char>>, i: int)
    requires
        0 <= i < items.len(),
    ensures
        json::text_list(items) matches Json::List(list) && list.len() == items.len() && list[i]
            == Json::Text(items[i]),
{
}

/// A variable of the environment is its name and its value.
pub proof fn variable_says(key: Seq<char>, value: Seq<char>)
    ensures
        json::field(manifest::env_json((key, value)), "name"@) == Some(Json::Text(key)),
        json::field(manifest::env_json((key, value)), "value"@) == Some(Json::Text(value)),
{
    reveal_strlit("name");
    reveal_strlit("value");
    assert("name"@.len() == 4 && "value"@.len() == 5);
}

/// A mount is the name of a volume and a path, and says that it is only read from where it is.
pub proof fn mount_says(m: MountView)
    ensures
        json::field(manifest::mount_json(m), "name"@) == Some(Json::Text(m.name)),
        json::field(manifest::mount_json(m), "mountPath"@) == Some(Json::Text(m.mount_path)),
        m.read_only ==> json::field(manifest::mount_json(m), "readOnly"@) == Some(
            Json::Bool(true),
        ),
        !m.read_only ==> json::field(manifest::mount_json(m), "readOnly"@) is None,
{
    reveal_strlit("name");
    reveal_strlit("mountPath");
    reveal_strlit("readOnly");
    assert("name"@.len() == 4 && "mountPath"@.len() == 9 && "readOnly"@.len() == 8);
}

/// A container's user and group are those given, and the filter of system calls is lifted where
/// it is asked for and nowhere else.
pub proof fn security_says(s: SecurityContext)
    ensures
        ({
            let doc = manifest::security_json(s);
            &&& json::field(doc, "runAsUser"@) == Some(Json::Int(s.run_as_user as int))
            &&& json::field(doc, "runAsGroup"@) == Some(Json::Int(s.run_as_group as int))
            &&& s.unconfined ==> (json::field(doc, "seccompProfile"@) matches Some(profile)
                && json::field(profile, "type"@) == Some(Json::Text("Unconfined"@)))
            &&& !s.unconfined ==> json::field(doc, "seccompProfile"@) is None
        }),
{
    reveal_strlit("runAsUser");
    reveal_strlit("runAsGroup");
    reveal_strlit("seccompProfile");
    assert("runAsUser"@.len() == 9 && "runAsGroup"@.len() == 10 && "seccompProfile"@.len() == 14);
}

/// The field of an optional document.
pub open spec fn field_in(doc: Option<Json>, key: Seq<char>) -> Option<Json> {
    match doc {
        Some(d) => json::field(d, key),
        None => None,
    }
}

/// What is requested is among the requests, what is held to among the limits, and each by its
/// own name; what is not there is left out.
pub proof fn resources_say(r: ResourcesView, at: int)
    ensures
        ({
            let doc = manifest::resources_json(r);
            &&& 0 <= at < r.requests.len() && (forall|j: int|
                at < j < r.requests.len() ==> (#[trigger] r.requests[j]).0 != r.requests[at].0)
                ==> field_in(field_in(doc, "requests"@), r.requests[at].0) == Some(
                Json::Text(r.requests[at].1),
            )
            &&& 0 <= at < r.limits.len() && (forall|j: int|
                at < j < r.limits.len() ==> (#[trigger] r.limits[j]).0 != r.limits[at].0)
                ==> field_in(field_in(doc, "limits"@), r.limits[at].0) == Some(
                Json::Text(r.limits[at].1),
            )
            &&& r.requests.len() == 0 ==> field_in(doc, "requests"@) is None
            &&& r.limits.len() == 0 ==> field_in(doc, "limits"@) is None
            &&& r.requests.len() == 0 && r.limits.len() == 0 ==> doc is None
        }),
{
    reveal_strlit("requests");
    reveal_strlit("limits");
    assert("requests"@.len() == 8 && "limits"@.len() == 6);
    if 0 <= at < r.requests.len() && (forall|j: int|
        at < j < r.requests.len() ==> (#[trigger] r.requests[j]).0 != r.requests[at].0) {
        pair_is_field(r.requests, at);
    }
    if 0 <= at < r.limits.len() && (forall|j: int|
        at < j < r.limits.len() ==> (#[trigger] r.limits[j]).0 != r.limits[at].0) {
        pair_is_field(r.limits, at);
    }
}

/// The item of an optional list.
pub open spec fn item_in(doc: Option<Json>, i: int) -> Option<Json> {
    match doc {
        Some(Json::List(items)) => if 0 <= i < items.len() {
            Some(items[i])
        } else {
            None
        },
        _ => None,
    }
}

/// How many items an optional list has; none where it is not there.
pub open spec fn count_in(doc: Option<Json>) -> int {
    match doc {
        Some(Json::List(items)) => items.len() as int,
        _ => 0,
    }
}

/// A container has the name, image, command, environment, user, mounts, resources and message
/// policy that it is given: every word, variable and mount in its place, and nothing where
/// nothing is given.
pub proof fn container_says(c: ContainerView, i: int)
    ensures
        ({
            let doc = manifest::container_json(c);
            let words = json::field(doc, "command"@);
            let env = json::field(doc, "env"@);
            let mounts = json::field(doc, "volumeMounts"@);
            &&& json::field(doc, "name"@) == Some(Json::Text(c.name))
            &&& json::field(doc, "image"@) == Some(Json::Text(c.image))
            &&& words is Some
            &&& count_in(words) == c.command.len()
            &&& 0 <= i < c.command.len() ==> item_in(words, i) == Some(Json::Text(c.command[i]))
            &&& count_in(env) == c.env.len()
            &&& 0 <= i < c.env.len() ==> field_in(item_in(env, i), "name"@) == Some(
                Json::Text(c.env[i].0),
            )
            &&& 0 <= i < c.env.len() ==> field_in(item_in(env, i), "value"@) == Some(
                Json::Text(c.env[i].1),
            )
            &&& c.security is Some ==> json::field(doc, "securityContext"@) == Some(
                manifest::security_json(c.security->0),
            )
            &&& c.security is None ==> json::field(doc, "securityContext"@) is None
            &&& count_in(mounts) == c.mounts.len()
            &&& 0 <= i < c.mounts.len() ==> item_in(mounts, i) == Some(
                manifest::mount_json(c.mounts[i]),
            )
            &&& json::field(doc, "resources"@) == manifest::resources_json(c.resources)
            &&& c.termination_message_policy is Some ==> json::field(
                doc,
                "terminationMessagePolicy"@,
            ) == Some(Json::Text(c.termination_message_policy->0))
            &&& c.termination_message_policy is None ==> json::field(
                doc,
                "terminationMessagePolicy"@,
            ) is None
        }),
{
    reveal_strlit("name");
    reveal_strlit("image");
    reveal_strlit("command");
    reveal_strlit("env");
    reveal_strlit("securityContext");
    reveal_strlit("volumeMounts");
    reveal_strlit("resources");
    reveal_strlit("terminationMessagePolicy");
    assert("name"@.len() == 4);
    assert("image"@.len() == 5);
    assert("command"@.len() == 7);
    assert("env"@.len() == 3);
    assert("securityContext"@.len() == 15);
    assert("volumeMounts"@.len() == 12);
    assert("resources"@.len() == 9);
    assert("terminationMessagePolicy"@.len() == 24);
    if 0 <= i < c.env.len() {
        variable_says(c.env[i].0, c.env[i].1);
    }
}

/// A volume has its name, and is made of what it is said to be made of, and of nothing else.
pub proof fn volume_says(v: VolumeView, i: int)
    ensures
        ({
            let doc = manifest::volume_json(v);
            let empty = json::field(doc, "emptyDir"@);
            let claim = json::field(doc, "persistentVolumeClaim"@);
            let host = json::field(doc, "hostPath"@);
            let secret = json::field(doc, "secret"@);
            &&& json::field(doc, "name"@) == Some(Json::Text(v.name))
            &&& empty is Some <==> v.source is EmptyDir
            &&& claim is Some <==> v.source is Claim
            &&& host is Some <==> v.source is HostPath
            &&& secret is Some <==> v.source is Secret
            &&& v.source matches VolumeSourceView::Claim(name) ==> field_in(claim, "claimName"@)
                == Some(Json::Text(name))
            &&& v.source matches VolumeSourceView::HostPath(path) ==> {
                &&& field_in(host, "path"@) == Some(Json::Text(path))
                &&& field_in(host, "type"@) == Some(Json::Text("DirectoryOrCreate"@))
            }
            &&& v.source matches VolumeSourceView::Secret(name, items) ==> {
                let listed = field_in(secret, "items"@);
                &&& field_in(secret, "secretName"@) == Some(Json::Text(name))
                &&& count_in(listed) == items.len()
                &&& 0 <= i < items.len() ==> field_in(item_in(listed, i), "key"@) == Some(
                    Json::Text(items[i].0),
                )
                &&& 0 <= i < items.len() ==> field_in(item_in(listed, i), "path"@) == Some(
                    Json::Text(items[i].1),
                )
            }
        }),
{
    reveal_strlit("name");
    reveal_strlit("emptyDir");
    reveal_strlit("persistentVolumeClaim");
    reveal_strlit("hostPath");
    reveal_strlit("secret");
    reveal_strlit("path");
    reveal_strlit("type");
    reveal_strlit("secretName");
    reveal_strlit("items");
    reveal_strlit("key");
    assert("name"@.len() == 4);
    assert("emptyDir"@.len() == 8 && "emptyDir"@[0] == 'e');
    assert("persistentVolumeClaim"@.len() == 21);
    assert("hostPath"@.len() == 8 && "hostPath"@[0] == 'h');
    assert("secret"@.len() == 6);
    assert("path"@.len() == 4 && "path"@[0] == 'p');
    assert("type"@.len() == 4 && "type"@[0] == 't');
    assert("secretName"@.len() == 10 && "items"@.len() == 5 && "key"@.len() == 3);
}

/// A preference for nodes names each of them, in order, by the name of the host, and weighs as
/// much as a preference can.
pub proof fn preference_says(nodes: Seq<Seq<char>>, i: int)
    ensures
        ({
            let affinity = json::field(manifest::affinity_json(nodes), "nodeAffinity"@);
            let terms = field_in(affinity, "preferredDuringSchedulingIgnoredDuringExecution"@);
            let term = item_in(terms, 0);
            let expressions = field_in(field_in(term, "preference"@), "matchExpressions"@);
            let expression = item_in(expressions, 0);
            let values = field_in(expression, "values"@);
            &&& count_in(terms) == 1
            &&& field_in(term, "weight"@) == Some(Json::Int(100))
            &&& count_in(expressions) == 1
            &&& field_in(expression, "key"@) == Some(Json::Text("kubernetes.io/hostname"@))
            &&& field_in(expression, "operator"@) == Some(Json::Text("In"@))
            &&& count_in(values) == nodes.len()
            &&& 0 <= i < nodes.len() ==> item_in(values, i) == Some(Json::Text(nodes[i]))
        }),
{
    reveal_strlit("weight");
    reveal_strlit("preference");
    reveal_strlit("key");
    reveal_strlit("operator");
    reveal_strlit("values");
    assert("weight"@.len() == 6 && "preference"@.len() == 10);
    assert("key"@.len() == 3 && "operator"@.len() == 8 && "values"@.len() == 6);
}

/// A plan has the policy, deadline, group, containers, volumes and nodes that it is given, each
/// in its place, and nothing where nothing is given.
pub proof fn plan_says(p: PodPlanView, i: int)
    ensures
        ({
            let doc = manifest::plan_json(p);
            let first = json::field(doc, "initContainers"@);
            let containers = json::field(doc, "containers"@);
            let volumes = json::field(doc, "volumes"@);
            &&& json::field(doc, "restartPolicy"@) == Some(Json::Text(p.restart_policy))
            &&& p.active_deadline_seconds matches Some(n) ==> json::field(
                doc,
                "activeDeadlineSeconds"@,
            ) == Some(Json::Int(n as int))
            &&& p.active_deadline_seconds is None ==> json::field(doc, "activeDeadlineSeconds"@)
                is None
            &&& p.fs_group matches Some(n) ==> field_in(
                json::field(doc, "securityContext"@),
                "fsGroup"@,
            ) == Some(Json::Int(n as int))
            &&& p.fs_group is None ==> json::field(doc, "securityContext"@) is None
            &&& count_in(first) == p.init_containers.len()
            &&& 0 <= i < p.init_containers.len() ==> item_in(first, i) == Some(
                manifest::container_json(p.init_containers[i]),
            )
            &&& containers is Some
            &&& count_in(containers) == p.containers.len()
            &&& 0 <= i < p.containers.len() ==> item_in(containers, i) == Some(
                manifest::container_json(p.containers[i]),
            )
            &&& volumes is Some
            &&& count_in(volumes) == p.volumes.len()
            &&& 0 <= i < p.volumes.len() ==> item_in(volumes, i) == Some(
                manifest::volume_json(p.volumes[i]),
            )
            &&& p.node matches Some(node) ==> field_in(
                json::field(doc, "nodeSelector"@),
                "kubernetes.io/hostname"@,
            ) == Some(Json::Text(node))
            &&& p.node is None ==> json::field(doc, "nodeSelector"@) is None
            &&& p.preferred_nodes.len() > 0 ==> json::field(doc, "affinity"@) == Some(
                manifest::affinity_json(p.preferred_nodes),
            )
            &&& p.preferred_nodes.len() == 0 ==> json::field(doc, "affinity"@) is None
        }),
{
    reveal_strlit("restartPolicy");
    reveal_strlit("activeDeadlineSeconds");
    reveal_strlit("securityContext");
    reveal_strlit("initContainers");
    reveal_strlit("containers");
    reveal_strlit("volumes");
    reveal_strlit("nodeSelector");
    reveal_strlit("affinity");
    assert("restartPolicy"@.len() == 13);
    assert("activeDeadlineSeconds"@.len() == 21);
    assert("securityContext"@.len() == 15);
    assert("initContainers"@.len() == 14);
    assert("containers"@.len() == 10);
    assert("volumes"@.len() == 7);
    assert("nodeSelector"@.len() == 12);
    assert("affinity"@.len() == 8);
}

/// An object has the name, namespace, labels and annotations that it is given, and nothing where
/// nothing is given.
pub proof fn metadata_say(m: MetadataView, at: int)
    ensures
        ({
            let doc = manifest::metadata_json(m);
            let labels = json::field(doc, "labels"@);
            let annotations = json::field(doc, "annotations"@);
            &&& m.name matches Some(name) ==> json::field(doc, "name"@) == Some(Json::Text(name))
            &&& m.name is None ==> json::field(doc, "name"@) is None
            &&& m.namespace matches Some(namespace) ==> json::field(doc, "namespace"@) == Some(
                Json::Text(namespace),
            )
            &&& m.namespace is None ==> json::field(doc, "namespace"@) is None
            &&& 0 <= at < m.labels.len() && (forall|j: int|
                at < j < m.labels.len() ==> (#[trigger] m.labels[j]).0 != m.labels[at].0)
                ==> field_in(labels, m.labels[at].0) == Some(Json::Text(m.labels[at].1))
            &&& m.labels.len() == 0 ==> labels is None
            &&& 0 <= at < m.annotations.len() && (forall|j: int|
                at < j < m.annotations.len() ==> (#[trigger] m.annotations[j]).0
                    != m.annotations[at].0) ==> field_in(annotations, m.annotations[at].0) == Some(
                Json::Text(m.annotations[at].1),
            )
            &&& m.annotations.len() == 0 ==> annotations is None
        }),
{
    reveal_strlit("name");
    reveal_strlit("namespace");
    reveal_strlit("labels");
    reveal_strlit("annotations");
    assert("name"@.len() == 4 && "namespace"@.len() == 9);
    assert("labels"@.len() == 6 && "annotations"@.len() == 11);
    if 0 <= at < m.labels.len() && (forall|j: int|
        at < j < m.labels.len() ==> (#[trigger] m.labels[j]).0 != m.labels[at].0) {
        pair_is_field(m.labels, at);
    }
    if 0 <= at < m.annotations.len() && (forall|j: int|
        at < j < m.annotations.len() ==> (#[trigger] m.annotations[j]).0
            != m.annotations[at].0) {
        pair_is_field(m.annotations, at);
    }
}

proof fn top_keys_differ()
    ensures
        "apiVersion"@.len() == 10,
        "kind"@.len() == 4 && "kind"@[0] == 'k',
        "metadata"@.len() == 8,
        "spec"@.len() == 4 && "spec"@[0] == 's',
{
    reveal_strlit("apiVersion");
    reveal_strlit("kind");
    reveal_strlit("metadata");
    reveal_strlit("spec");
}

/// A pod says that it is one, and holds its marks and its plan.
pub proof fn pod_says(p: PodManifestView)
    ensures
        ({
            let doc = manifest::pod_json(p);
            &&& json::field(doc, "apiVersion"@) == Some(Json::Text("v1"@))
            &&& json::field(doc, "kind"@) == Some(Json::Text("Pod"@))
            &&& json::field(doc, "metadata"@) == Some(manifest::metadata_json(p.metadata))
            &&& json::field(doc, "spec"@) == Some(manifest::plan_json(p.plan))
        }),
{
    top_keys_differ();
}

/// A job says that it is one, and holds its marks, its limits, and the template of its pods.
pub proof fn job_says(j: JobManifestView)
    ensures
        ({
            let doc = manifest::job_json(j);
            let limits = json::field(doc, "spec"@);
            let template = field_in(limits, "template"@);
            &&& json::field(doc, "apiVersion"@) == Some(Json::Text("batch/v1"@))
            &&& json::field(doc, "kind"@) == Some(Json::Text("Job"@))
            &&& json::field(doc, "metadata"@) == Some(manifest::metadata_json(j.metadata))
            &&& field_in(limits, "backoffLimit"@) == Some(Json::Int(j.backoff_limit as int))
            &&& field_in(limits, "ttlSecondsAfterFinished"@) == Some(
                Json::Int(j.ttl_seconds_after_finished as int),
            )
            &&& field_in(limits, "activeDeadlineSeconds"@) == Some(
                Json::Int(j.active_deadline_seconds as int),
            )
            &&& field_in(template, "metadata"@) == Some(
                manifest::metadata_json(j.template.metadata),
            )
            &&& field_in(template, "spec"@) == Some(manifest::plan_json(j.template.plan))
        }),
{
    top_keys_differ();
    reveal_strlit("backoffLimit");
    reveal_strlit("ttlSecondsAfterFinished");
    reveal_strlit("activeDeadlineSeconds");
    reveal_strlit("template");
    assert("backoffLimit"@.len() == 12);
    assert("ttlSecondsAfterFinished"@.len() == 23);
    assert("activeDeadlineSeconds"@.len() == 21);
    assert("template"@.len() == 8);
}

/// A claim says that it is one, who may write to it, and how large it is to be.
pub proof fn claim_says(c: ClaimManifestView, i: int)
    ensures
        ({
            let doc = manifest::claim_json(c);
            let wanted = json::field(doc, "spec"@);
            let modes = field_in(wanted, "accessModes"@);
            &&& json::field(doc, "apiVersion"@) == Some(Json::Text("v1"@))
            &&& json::field(doc, "kind"@) == Some(Json::Text("PersistentVolumeClaim"@))
            &&& json::field(doc, "metadata"@) == Some(manifest::metadata_json(c.metadata))
            &&& count_in(modes) == c.access_modes.len()
            &&& 0 <= i < c.access_modes.len() ==> item_in(modes, i) == Some(
                Json::Text(c.access_modes[i]),
            )
            &&& field_in(field_in(field_in(wanted, "resources"@), "requests"@), "storage"@) == Some(
                Json::Text(c.storage),
            )
        }),
{
    top_keys_differ();
    reveal_strlit("accessModes");
    reveal_strlit("resources");
    assert("accessModes"@.len() == 11 && "resources"@.len() == 9);
}

/// A container holds the strings that it was made of, one for one.
pub proof fn container_one_for_one(c: Container, m: Mount, r: Resources, i: int)
    ensures
        c@.name == c.name@,
        c@.image == c.image@,
        c@.command.len() == c.command@.len(),
        0 <= i < c.command@.len() ==> c@.command[i] == c.command@[i]@,
        c@.env.len() == c.env@.len(),
        0 <= i < c.env@.len() ==> c@.env[i] == (c.env@[i].0@, c.env@[i].1@),
        c@.security == c.security,
        c@.mounts.len() == c.mounts@.len(),
        0 <= i < c.mounts@.len() ==> c@.mounts[i] == c.mounts@[i]@,
        c@.resources == c.resources@,
        c.termination_message_policy is None ==> c@.termination_message_policy is None,
        c.termination_message_policy matches Some(p) ==> c@.termination_message_policy == Some(
            p@,
        ),
        m@.name == m.name@,
        m@.mount_path == m.mount_path@,
        m@.read_only == m.read_only,
        r@.requests.len() == r.requests@.len(),
        0 <= i < r.requests@.len() ==> r@.requests[i] == (
            r.requests@[i].0@,
            r.requests@[i].1@,
        ),
        r@.limits.len() == r.limits@.len(),
        0 <= i < r.limits@.len() ==> r@.limits[i] == (r.limits@[i].0@, r.limits@[i].1@),
{
}

/// A volume holds what it was made of, and so do the marks of an object.
pub proof fn volume_one_for_one(v: Volume, m: Metadata, i: int)
    ensures
        v@.name == v.name@,
        v.source is EmptyDir ==> v@.source is EmptyDir,
        v.source matches VolumeSource::Claim(name) ==> v@.source == VolumeSourceView::Claim(name@),
        v.source matches VolumeSource::HostPath(path) ==> v@.source == VolumeSourceView::HostPath(
            path@,
        ),
        v.source matches VolumeSource::Secret(name, items) ==> v@.source
            == VolumeSourceView::Secret(name@, text::pairs(items@)),
        m.name is None ==> m@.name is None,
        m.name matches Some(name) ==> m@.name == Some(name@),
        m.namespace is None ==> m@.namespace is None,
        m.namespace matches Some(namespace) ==> m@.namespace == Some(namespace@),
        m@.labels.len() == m.labels@.len(),
        0 <= i < m.labels@.len() ==> m@.labels[i] == (m.labels@[i].0@, m.labels@[i].1@),
        m@.annotations.len() == m.annotations@.len(),
        0 <= i < m.annotations@.len() ==> m@.annotations[i] == (
            m.annotations@[i].0@,
            m.annotations@[i].1@,
        ),
{
}

/// A plan holds what it was made of, one for one.
pub proof fn plan_one_for_one(p: PodPlan, i: int)
    ensures
        p@.restart_policy == p.restart_policy@,
        p@.active_deadline_seconds == p.active_deadline_seconds,
        p@.fs_group == p.fs_group,
        p@.init_containers.len() == p.init_containers@.len(),
        0 <= i < p.init_containers@.len() ==> p@.init_containers[i] == p.init_containers@[i]@,
        p@.containers.len() == p.containers@.len(),
        0 <= i < p.containers@.len() ==> p@.containers[i] == p.containers@[i]@,
        p@.volumes.len() == p.volumes@.len(),
        0 <= i < p.volumes@.len() ==> p@.volumes[i] == p.volumes@[i]@,
        p.node is None ==> p@.node is None,
        p.node matches Some(node) ==> p@.node == Some(node@),
        p@.preferred_nodes.len() == p.preferred_nodes@.len(),
        0 <= i < p.preferred_nodes@.len() ==> p@.preferred_nodes[i] == p.preferred_nodes@[i]@,
{
}

/// A container has no field but those that it is given: it asks for nothing else.
pub proof fn container_has_no_other_field(c: ContainerView, key: Seq<char>)
    ensures
        json::field(manifest::container_json(c), key) is Some ==> key == "name"@ || key
            == "image"@ || key == "command"@ || key == "env"@ || key == "securityContext"@ || key
            == "volumeMounts"@ || key == "resources"@ || key == "terminationMessagePolicy"@,
{
}

/// Neither have its parts.
pub proof fn parts_have_no_other_field(
    m: MountView,
    s: SecurityContext,
    r: ResourcesView,
    kv: (Seq<char>, Seq<char>),
    key: Seq<char>,
)
    ensures
        json::field(manifest::mount_json(m), key) is Some ==> key == "name"@ || key
            == "mountPath"@ || key == "readOnly"@,
        json::field(manifest::security_json(s), key) is Some ==> key == "runAsUser"@ || key
            == "runAsGroup"@ || key == "seccompProfile"@,
        field_in(manifest::resources_json(r), key) is Some ==> key == "requests"@ || key
            == "limits"@,
        json::field(manifest::env_json(kv), key) is Some ==> key == "name"@ || key == "value"@,
{
}

/// A volume is its name and what it is made of, and has no other field.
pub proof fn volume_has_no_other_field(v: VolumeView, key: Seq<char>)
    ensures
        json::field(manifest::volume_json(v), key) is Some ==> key == "name"@ || key
            == "emptyDir"@ || key == "persistentVolumeClaim"@ || key == "hostPath"@ || key
            == "secret"@,
        v.source is EmptyDir ==> field_in(
            json::field(manifest::volume_json(v), "emptyDir"@),
            key,
        ) is None,
        v.source is Claim && field_in(
            json::field(manifest::volume_json(v), "persistentVolumeClaim"@),
            key,
        ) is Some ==> key == "claimName"@,
        v.source is HostPath && field_in(json::field(manifest::volume_json(v), "hostPath"@), key)
            is Some ==> key == "path"@ || key == "type"@,
        v.source is Secret && field_in(json::field(manifest::volume_json(v), "secret"@), key)
            is Some ==> key == "secretName"@ || key == "items"@,
{
}

/// A plan and the marks of an object have no field but those that they are given, and nodes are
/// preferred, never required.
pub proof fn plan_has_no_other_field(
    p: PodPlanView,
    m: MetadataView,
    nodes: Seq<Seq<char>>,
    key: Seq<char>,
)
    ensures
        json::field(manifest::plan_json(p), key) is Some ==> key == "restartPolicy"@ || key
            == "activeDeadlineSeconds"@ || key == "securityContext"@ || key == "initContainers"@
            || key == "containers"@ || key == "volumes"@ || key == "nodeSelector"@ || key
            == "affinity"@,
        json::field(manifest::metadata_json(m), key) is Some ==> key == "name"@ || key
            == "namespace"@ || key == "labels"@ || key == "annotations"@,
        json::field(manifest::affinity_json(nodes), key) is Some ==> key == "nodeAffinity"@,
        field_in(json::field(manifest::affinity_json(nodes), "nodeAffinity"@), key) is Some ==> key
            == "preferredDuringSchedulingIgnoredDuringExecution"@,
{
}

/// A pod, a job and a claim have no field but those that they are given.
pub proof fn objects_have_no_other_field(
    p: PodManifestView,
    j: JobManifestView,
    c: ClaimManifestView,
    key: Seq<char>,
)
    ensures
        json::field(manifest::pod_json(p), key) is Some ==> key == "apiVersion"@ || key
            == "kind"@ || key == "metadata"@ || key == "spec"@,
        json::field(manifest::job_json(j), key) is Some ==> key == "apiVersion"@ || key
            == "kind"@ || key == "metadata"@ || key == "spec"@,
        field_in(json::field(manifest::job_json(j), "spec"@), key) is Some ==> key
            == "backoffLimit"@ || key == "ttlSecondsAfterFinished"@ || key
            == "activeDeadlineSeconds"@ || key == "template"@,
        field_in(field_in(json::field(manifest::job_json(j), "spec"@), "template"@), key) is Some
            ==> key == "metadata"@ || key == "spec"@,
        json::field(manifest::claim_json(c), key) is Some ==> key == "apiVersion"@ || key
            == "kind"@ || key == "metadata"@ || key == "spec"@,
        field_in(json::field(manifest::claim_json(c), "spec"@), key) is Some ==> key
            == "accessModes"@ || key == "resources"@,
{
}

}
