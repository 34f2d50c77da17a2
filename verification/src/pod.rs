//! The builder pod: its name, what an exec in it comes to, the claim for its cache, and which
//! pods are left over.

use vstd::prelude::*;

use crate::backend;
use crate::builder;
use crate::manifest;
use crate::manifest::{ClaimManifest, ClaimManifestView, ManifestError, Metadata, MetadataView};
use crate::numeral;
use crate::numeral::hex;
use crate::shell;
use crate::shell::join;
use crate::text;
use crate::text::same_text;

verus! {

broadcast use vstd::string::group_string_axioms;

/// The four bytes of a number, the highest first.
pub open spec fn big_endian(n: u32) -> Seq<u8> {
    seq![
        (n / 0x1000000) as u8,
        (n / 0x10000 % 0x100) as u8,
        (n / 0x100 % 0x100) as u8,
        (n % 0x100) as u8,
    ]
}

/// The low word of the time and the process number, mixed.
pub open spec fn mixed(nanos: u128, pid: u32) -> u32 {
    (nanos ^ (pid as u128)) as u32
}

/// The name for a number: eight hexadecimal digits behind a prefix.
pub open spec fn name_for(word: u32) -> Seq<char> {
    "buildit-"@ + numeral::hex_of(big_endian(word))
}

/// A name for a pod or a job, out of the time in nanoseconds and the number of the process.
pub fn unique_name(nanos: u128, pid: u32) -> (name: String)
    ensures
        name@ == name_for(mixed(nanos, pid)),
{
    let word: u32 = #[verifier::truncate] ((nanos ^ (pid as u128)) as u32);
    let b3: u8 = (word / 0x1000000) as u8;
    let b2: u8 = (word / 0x10000 % 0x100) as u8;
    let b1: u8 = (word / 0x100 % 0x100) as u8;
    let b0: u8 = (word % 0x100) as u8;
    let bytes: Vec<u8> = vec![b3, b2, b1, b0];
    assert(bytes@ =~= big_endian(word));
    "buildit-".to_owned().concat(hex(bytes.as_slice()).as_str())
}

/// Different words make different names.
pub proof fn names_tell_words_apart(a: u32, b: u32)
    requires
        name_for(a) == name_for(b),
    ensures
        a == b,
{
    let x = big_endian(a);
    let y = big_endian(b);
    let head = "buildit-"@;
    assert forall|i: int| 0 <= i < 8 implies numeral::hex_of(x).take(8)[i] == numeral::hex_of(
        y,
    ).take(8)[i] by {
        assert(name_for(a)[head.len() + i] == numeral::hex_of(x)[i]);
        assert(name_for(b)[head.len() + i] == numeral::hex_of(y)[i]);
    }
    assert(numeral::hex_of(x).take(8) =~= numeral::hex_of(y).take(8));
    numeral::hex_tells_bytes_apart(x, y, 4);
    assert(x.take(4)[0] == x[0] && x.take(4)[1] == x[1] && x.take(4)[2] == x[2] && x.take(4)[3]
        == x[3]);
    assert(y.take(4)[0] == y[0] && y.take(4)[1] == y[1] && y.take(4)[2] == y[2] && y.take(4)[3]
        == y[3]);
}

/// Every name is eight digits behind the prefix.
pub proof fn names_are_short(word: u32)
    ensures
        name_for(word).len() == 16,
        "buildit-"@.is_prefix_of(name_for(word)),
{
    reveal_strlit("buildit-");
    assert(name_for(word).subrange(0, 8) =~= "buildit-"@);
}

/// What the cluster says of an exec when it is over.
pub struct ExecStatus {
    pub status: Option<String>,
    pub message: Option<String>,
}

/// Why an exec in a pod came to nothing. The command and the pod are named.
#[derive(Debug)]
pub enum ExecError {
    /// The command failed, for the reason given.
    Failed { command: String, pod: String, reason: String },
    /// The cluster never said how the command ended.
    NoStatus { command: String, pod: String },
    /// What the command printed is no text.
    NotUtf8(std::string::FromUtf8Error),
}

/// What an `ExecError` says.
pub enum ExecFault {
    Failed { command: Seq<char>, pod: Seq<char>, reason: Seq<char> },
    NoStatus { command: Seq<char>, pod: Seq<char> },
    NotUtf8,
}

impl View for ExecError {
    type V = ExecFault;

    open spec fn view(&self) -> ExecFault {
        match self {
            ExecError::Failed { command, pod, reason } => ExecFault::Failed {
                command: command@,
                pod: pod@,
                reason: reason@,
            },
            ExecError::NoStatus { command, pod } => ExecFault::NoStatus {
                command: command@,
                pod: pod@,
            },
            ExecError::NotUtf8(_) => ExecFault::NotUtf8,
        }
    }
}

impl ExecError {
    /// What went wrong, in words.
    pub fn message(&self) -> (m: String)
        ensures
            m@ == match self@ {
                ExecFault::Failed { command, pod, reason } => "`"@ + command + "` failed in pod "@
                    + pod + ": "@ + reason,
                ExecFault::NoStatus { command, pod } => "`"@ + command + "` in pod "@ + pod
                    + ": no exit status received"@,
                ExecFault::NotUtf8 => "exec output was not utf-8"@,
            },
    {
        match self {
            ExecError::Failed { command, pod, reason } => "`".to_owned().concat(
                command.as_str(),
            ).concat("` failed in pod ").concat(pod.as_str()).concat(": ").concat(reason.as_str()),
            ExecError::NoStatus { command, pod } => "`".to_owned().concat(command.as_str()).concat(
                "` in pod ",
            ).concat(pod.as_str()).concat(": no exit status received"),
            ExecError::NotUtf8(_) => "exec output was not utf-8".to_owned(),
        }
    }
}

/// What an exec comes to, by what the cluster says of it.
pub open spec fn outcome_of(
    status: Option<ExecStatus>,
    command: Seq<char>,
    pod: Seq<char>,
) -> Result<(), ExecFault> {
    match status {
        Some(s) => if text::opt_text(s.status) == Some("Success"@) {
            Ok(())
        } else {
            Err(
                ExecFault::Failed {
                    command,
                    pod,
                    reason: match s.message {
                        Some(m) => m@,
                        None => "no error message"@,
                    },
                },
            )
        },
        None => Err(ExecFault::NoStatus { command, pod }),
    }
}

/// What a result without a value says.
pub open spec fn unit_result(r: Result<(), ExecError>) -> Result<(), ExecFault> {
    match r {
        Ok(()) => Ok(()),
        Err(e) => Err(e@),
    }
}

/// What a result with a string says.
pub open spec fn text_result(r: Result<String, ExecError>) -> Result<Seq<char>, ExecFault> {
    match r {
        Ok(s) => Ok(s@),
        Err(e) => Err(e@),
    }
}

/// What an exec comes to. Only the status that the cluster sends counts, and only where it
/// says that the command succeeded is it taken to have done so.
pub fn finish(status: Option<ExecStatus>, argv: &[String], pod: &str) -> (r: Result<(), ExecError>)
    ensures
        unit_result(r) == outcome_of(status, shell::joined(text::texts(argv@), " "@), pod@),
{
    match status {
        Some(s) => {
            let success = match &s.status {
                Some(word) => same_text(word.as_str(), "Success"),
                None => false,
            };
            if success {
                return Ok(());
            }
            let reason = match s.message {
                Some(m) => m,
                None => "no error message".to_owned(),
            };
            Err(ExecError::Failed { command: join(argv, " "), pod: pod.to_owned(), reason })
        },
        None => Err(ExecError::NoStatus { command: join(argv, " "), pod: pod.to_owned() }),
    }
}

/// The text that a command printed, where it came to an end as it should.
pub fn exec_capture(finished: Result<(), ExecError>, printed: Vec<u8>) -> (r: Result<
    String,
    ExecError,
>)
    ensures
        text_result(r) == match unit_result(finished) {
            Ok(()) => if vstd::utf8::valid_utf8(printed@) {
                Ok(vstd::utf8::decode_utf8(printed@))
            } else {
                Err(ExecFault::NotUtf8)
            },
            Err(e) => Err(e),
        },
{
    match finished {
        Ok(()) => match String::from_utf8(printed) {
            Ok(s) => Ok(s),
            Err(e) => Err(ExecError::NotUtf8(e)),
        },
        Err(e) => Err(e),
    }
}

/// The claim for a cache: one that a single node may write to.
pub open spec fn claim_of(
    namespace: Seq<char>,
    name: Seq<char>,
    size: Seq<char>,
) -> ClaimManifestView {
    ClaimManifestView {
        metadata: MetadataView {
            name: Some(name),
            namespace: Some(namespace),
            labels: seq![("app"@, "buildit"@), ("buildit/cache"@, "true"@)],
            annotations: Seq::empty(),
        },
        access_modes: seq!["ReadWriteOnce"@],
        storage: size,
    }
}

/// The claim for a cache: one that a single node may write to.
pub fn cache_claim(namespace: &str, name: &str, size: &str) -> (claim: ClaimManifest)
    ensures
        claim@ == claim_of(namespace@, name@, size@),
{
    let labels: Vec<(String, String)> = vec![
        ("app".to_owned(), "buildit".to_owned()),
        ("buildit/cache".to_owned(), "true".to_owned()),
    ];
    let annotations: Vec<(String, String)> = Vec::new();
    let access_modes: Vec<String> = vec!["ReadWriteOnce".to_owned()];
    assert(text::pairs(labels@) =~= seq![("app"@, "buildit"@), ("buildit/cache"@, "true"@)]);
    assert(text::pairs(annotations@) =~= Seq::empty());
    assert(text::texts(access_modes@) =~= seq!["ReadWriteOnce"@]);
    ClaimManifest {
        metadata: Metadata {
            name: Some(name.to_owned()),
            namespace: Some(namespace.to_owned()),
            labels,
            annotations,
        },
        access_modes,
        storage: size.to_owned(),
    }
}

/// The claim to create for a cache: none where there is one of that name, which is used as it
/// is.
pub fn ensure_pvc(exists: bool, namespace: &str, name: &str, size: &str) -> (r: Result<
    Option<k8s_openapi::api::core::v1::PersistentVolumeClaim>,
    ManifestError,
>)
    ensures
        ({
            let doc = manifest::claim_json(claim_of(namespace@, name@, size@));
            &&& r is Ok
            &&& r->Ok_0 is None <==> exists
            &&& !exists ==> manifest::typed_claim(doc) == r->Ok_0
        }),
{
    if exists {
        return Ok(None);
    }
    match cache_claim(namespace, name, size).typed() {
        Ok(claim) => Ok(Some(claim)),
        Err(e) => Err(e),
    }
}

/// An object that the cluster lists, and whether another object owns it.
pub struct Listed {
    pub name: Option<String>,
    pub owned: bool,
}

/// What a `Listed` holds.
pub struct ListedView {
    pub name: Option<Seq<char>>,
    pub owned: bool,
}

impl View for Listed {
    type V = ListedView;

    open spec fn view(&self) -> ListedView {
        ListedView { name: text::opt_text(self.name), owned: self.owned }
    }
}

pub open spec fn listed_of(objects: Seq<Listed>) -> Seq<ListedView> {
    objects.map_values(|o: Listed| o@)
}

/// The names of the objects that nothing owns, in the order in which they are listed.
pub open spec fn orphans(objects: Seq<ListedView>) -> Seq<Seq<char>>
    decreases objects.len(),
{
    if objects.len() == 0 {
        Seq::empty()
    } else {
        let before = orphans(objects.drop_last());
        match objects.last().name {
            Some(name) if !objects.last().owned => before.push(name),
            _ => before,
        }
    }
}

/// The pods to delete. Those of a job are marked like the others, but they belong to it and go
/// when it goes.
pub fn clean(listed: &[Listed]) -> (names: Vec<String>)
    ensures
        text::texts(names@) == orphans(listed_of(listed@)),
{
    let mut names: Vec<String> = Vec::new();
    let ghost all = listed_of(listed@);
    assert(all.take(0) =~= Seq::empty());
    assert(text::texts(names@) =~= Seq::empty());
    for i in 0..listed.len()
        invariant
            all == listed_of(listed@),
            text::texts(names@) == orphans(all.take(i as int)),
    {
        let object = &listed[i];
        assert(all.take(i + 1).drop_last() =~= all.take(i as int));
        assert(all.take(i + 1).last() == object@);
        if !object.owned {
            if let Some(name) = &object.name {
                let ghost before = names@;
                names.push(name.clone());
                assert(text::texts(names@) =~= text::texts(before).push(name@));
            }
        }
    }
    assert(all.take(all.len() as int) =~= all);
    names
}

/// What is deleted is listed and owned by nothing, and all that is so is deleted.
pub proof fn orphans_are_unowned(objects: Seq<ListedView>, name: Seq<char>)
    ensures
        orphans(objects).contains(name) <==> objects.contains(
            ListedView { name: Some(name), owned: false },
        ),
    decreases objects.len(),
{
    let it = ListedView { name: Some(name), owned: false };
    if objects.len() > 0 {
        let fewer = objects.drop_last();
        let before = orphans(fewer);
        orphans_are_unowned(fewer, name);
        if before.contains(name) {
            let i = choose|i: int| 0 <= i < before.len() && before[i] == name;
            assert(orphans(objects)[i] == name);
            let j = choose|j: int| 0 <= j < fewer.len() && fewer[j] == it;
            assert(objects[j] == it);
        }
        if objects.last() == it {
            assert(orphans(objects).last() == name);
            assert(objects[objects.len() - 1] == it);
        }
        if objects.contains(it) {
            let j = choose|j: int| 0 <= j < objects.len() && objects[j] == it;
            if j < fewer.len() {
                assert(fewer[j] == it);
            }
        }
        if orphans(objects).contains(name) {
            let i = choose|i: int| 0 <= i < orphans(objects).len() && orphans(objects)[i] == name;
            if i < before.len() {
                assert(before[i] == name);
            }
        }
    }
}

/// The mark by which what a build leaves behind is found.
pub fn clean_selector() -> (s: String)
    ensures
        s@ == "app=buildit"@,
{
    "app=buildit".to_owned()
}

/// Every builder carries the mark by which leftovers are found.
pub proof fn leftovers_are_marked(b: backend::Backend)
    ensures
        backend::label_text(builder::labels_of(b)[0]) == "app=buildit"@,
{
    reveal_strlit("app");
    reveal_strlit("=");
    reveal_strlit("buildit");
    reveal_strlit("app=buildit");
    assert("app"@ + "="@ + "buildit"@ =~= "app=buildit"@);
}

/// The four bytes of a number make it up again.
proof fn bytes_make_up_word(n: u32)
    ensures
        0x1000000 * big_endian(n)[0] + 0x10000 * big_endian(n)[1] + 0x100 * big_endian(n)[2]
            + big_endian(n)[3] == n,
{
    let a = n / 0x1000000;
    let b = n / 0x10000 % 0x100;
    let c = n / 0x100 % 0x100;
    let d = n % 0x100;
    assert(a < 0x100 && b < 0x100 && c < 0x100 && d < 0x100);
    assert(0x1000000 * a + 0x10000 * b + 0x100 * c + d == n);
    assert(big_endian(n)[0] == a && big_endian(n)[1] == b && big_endian(n)[2] == c && big_endian(
        n,
    )[3] == d);
}

/// The digits behind the prefix spell the word, the highest first.
#[verifier::spinoff_prover]
pub proof fn name_spells_word(word: u32)
    ensures
        ({
            let name = name_for(word);
            let at = "buildit-"@.len();
            &&& name.len() == 16
            &&& at == 8
            &&& 0x10000000 * numeral::hex_value(name[8]) + 0x1000000 * numeral::hex_value(name[9])
                + 0x100000 * numeral::hex_value(name[10]) + 0x10000 * numeral::hex_value(name[11])
                + 0x1000 * numeral::hex_value(name[12]) + 0x100 * numeral::hex_value(name[13])
                + 0x10 * numeral::hex_value(name[14]) + numeral::hex_value(name[15]) == word
        }),
{
    reveal_strlit("buildit-");
    let bytes = big_endian(word);
    let hex = numeral::hex_of(bytes);
    bytes_make_up_word(word);
    numeral::hex_is_read_back(bytes, 0);
    numeral::hex_is_read_back(bytes, 1);
    numeral::hex_is_read_back(bytes, 2);
    numeral::hex_is_read_back(bytes, 3);
    let name = name_for(word);
    assert(name[8] == hex[0] && name[9] == hex[1] && name[10] == hex[2] && name[11] == hex[3]);
    assert(name[12] == hex[4] && name[13] == hex[5] && name[14] == hex[6] && name[15] == hex[7]);
    let v = |i: int| numeral::hex_value(hex[i]);
    assert(16 * v(0) + v(1) == bytes[0]);
    assert(16 * v(2) + v(3) == bytes[1]);
    assert(16 * v(4) + v(5) == bytes[2]);
    assert(16 * v(6) + v(7) == bytes[3]);
}

/// At one time two processes have different words, and of one process two times have different
/// words where their low halves differ.
pub proof fn words_tell_processes_and_times_apart(nanos: u128, other: u128, pid: u32, second: u32)
    ensures
        mixed(nanos, 0) == nanos % 0x1_0000_0000,
        mixed(nanos, pid) ^ pid == mixed(nanos, 0),
        mixed(nanos, pid) == mixed(nanos, second) ==> pid == second,
        mixed(nanos, pid) == mixed(other, pid) ==> nanos % 0x1_0000_0000 == other % 0x1_0000_0000,
{
    let zero = 0u32;
    assert((nanos ^ (zero as u128)) as u32 == nanos % 0x1_0000_0000) by (bit_vector)
        requires
            zero == 0u32,
    ;
    assert((((nanos ^ (pid as u128)) as u32) ^ pid) == ((nanos ^ (zero as u128)) as u32))
        by (bit_vector)
        requires
            zero == 0u32,
    ;
    assert(((nanos ^ (pid as u128)) as u32) == ((nanos ^ (second as u128)) as u32) ==> pid
        == second) by (bit_vector);
    assert(((nanos ^ (pid as u128)) as u32) == ((other ^ (pid as u128)) as u32) ==> nanos
        % 0x1_0000_0000 == other % 0x1_0000_0000) by (bit_vector);
}

/// An exec has succeeded where the cluster says `Success`, and in no other case. Otherwise the
/// fault names the command and the pod, and gives the reason that the cluster gave.
pub proof fn only_success_succeeds(s: ExecStatus, command: Seq<char>, pod: Seq<char>)
    ensures
        s.status is Some && s.status->0@ == "Success"@ ==> outcome_of(Some(s), command, pod) is Ok,
        !(s.status is Some && s.status->0@ == "Success"@) && s.message is Some ==> outcome_of(
            Some(s),
            command,
            pod,
        ) == Err::<(), ExecFault>(ExecFault::Failed { command, pod, reason: s.message->0@ }),
        !(s.status is Some && s.status->0@ == "Success"@) && s.message is None ==> outcome_of(
            Some(s),
            command,
            pod,
        ) == Err::<(), ExecFault>(ExecFault::Failed { command, pod, reason: "no error message"@ }),
        outcome_of(None, command, pod) == Err::<(), ExecFault>(
            ExecFault::NoStatus { command, pod },
        ),
{
}

/// A result says what it holds, and a fault what it names.
pub proof fn exec_results_say(s: String, e: ExecError)
    ensures
        unit_result(Ok(())) == Ok::<(), ExecFault>(()),
        unit_result(Err(e)) == Err::<(), ExecFault>(e@),
        text_result(Ok(s)) == Ok::<Seq<char>, ExecFault>(s@),
        text_result(Err(e)) == Err::<Seq<char>, ExecFault>(e@),
        e matches ExecError::Failed { command, pod, reason } ==> e@ == (ExecFault::Failed {
            command: command@,
            pod: pod@,
            reason: reason@,
        }),
        e matches ExecError::NoStatus { command, pod } ==> e@ == (ExecFault::NoStatus {
            command: command@,
            pod: pod@,
        }),
        e is NotUtf8 ==> e@ is NotUtf8,
{
}

/// The claim for a cache has the name, the namespace and the size that it is given, carries the
/// mark of a leftover and that of a cache, and is written to by one node at a time.
pub proof fn claim_says(namespace: Seq<char>, name: Seq<char>, size: Seq<char>)
    ensures
        ({
            let claim = claim_of(namespace, name, size);
            &&& claim.metadata.name == Some(name)
            &&& claim.metadata.namespace == Some(namespace)
            &&& claim.metadata.labels.len() == 2
            &&& claim.metadata.labels[0] == ("app"@, "buildit"@)
            &&& claim.metadata.labels[1] == ("buildit/cache"@, "true"@)
            &&& claim.metadata.annotations.len() == 0
            &&& claim.access_modes.len() == 1
            &&& claim.access_modes[0] == "ReadWriteOnce"@
            &&& claim.storage == size
        }),
{
}

/// What is deleted comes in the order in which it is listed.
pub proof fn orphans_keep_order(objects: Seq<ListedView>, more: Seq<ListedView>)
    ensures
        orphans(objects + more) == orphans(objects) + orphans(more),
        more.len() == 1 ==> orphans(more).len() <= 1,
    decreases more.len(),
{
    let all = objects + more;
    if more.len() == 0 {
        assert(all =~= objects);
        assert(orphans(objects) + Seq::<Seq<char>>::empty() =~= orphans(objects));
    } else {
        let fewer = more.drop_last();
        orphans_keep_order(objects, fewer);
        assert(all.drop_last() =~= objects + fewer);
        assert(all.last() == more.last());
        let a = orphans(objects);
        let b = orphans(fewer);
        if more.last().name is Some && !more.last().owned {
            let n = more.last().name->0;
            assert((a + b).push(n) =~= a + b.push(n));
        }
        if more.len() == 1 {
            assert(fewer =~= Seq::empty());
        }
    }
}

/// What is listed has the name that it is listed with, and is owned where it is said to be.
pub proof fn listed_one_for_one(objects: Seq<Listed>, i: int)
    requires
        0 <= i < objects.len(),
    ensures
        listed_of(objects).len() == objects.len(),
        listed_of(objects)[i].owned == objects[i].owned,
        objects[i].name is None ==> listed_of(objects)[i].name is None,
        objects[i].name matches Some(name) ==> listed_of(objects)[i].name == Some(name@),
{
}

}
