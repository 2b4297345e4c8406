//! The identity of a build: what it depends on, the hash that is derived
//! from it, and the name of the working directory that the hash gives.

use crate::build::LibraryType;
use crate::encoding::{
    be_bytes, hash_token, hash_token_text, lemma_be_bytes_injective, lemma_hash_token_injective,
    to_be_bytes,
};
use crate::util::opt_view;
use std::collections::hash_map::DefaultHasher;
use std::hash::Hasher;
use vstd::prelude::*;
use vstd::std_specs::hash::DefaultHasherAdditionalSpecFns;
use vstd::string::StringExecFns;
use vstd::string::StringSliceAdditionalSpecFns;
use vstd::utf8::encode_utf8;

verus! {

/// What a step contributes to the identity of a build: its name and the
/// hash of its options.
#[derive(Debug)]
pub struct StepIdentity {
    pub name: String,
    pub hash: u64,
}

/// The content of a `StepIdentity`.
pub struct StepIdentityView {
    pub name: Seq<char>,
    pub hash: u64,
}

impl View for StepIdentity {
    type V = StepIdentityView;

    open spec fn view(&self) -> StepIdentityView {
        StepIdentityView { name: self.name@, hash: self.hash }
    }
}

/// The views of a vector of step identities.
pub open spec fn identities_view(steps: Seq<StepIdentity>) -> Seq<StepIdentityView> {
    Seq::new(steps.len(), |i: int| steps[i]@)
}

/// Everything that the identity of a build depends on.
pub struct BuildIdentity {
    pub name: Seq<char>,
    /// The hash of the source.
    pub source: u64,
    pub install_prefix: Option<Seq<char>>,
    pub library_type: LibraryType,
    pub steps: Seq<StepIdentityView>,
}

/// What an install prefix feeds to the hasher: a marker, then the prefix
/// where there is one.
pub open spec fn prefix_writes(prefix: Option<Seq<char>>) -> Seq<Seq<u8>> {
    match prefix {
        None => seq![seq![0u8]],
        Some(path) => seq![seq![1u8], encode_utf8(path)],
    }
}

/// The byte that stands for a linkage kind.
pub open spec fn library_type_byte(kind: LibraryType) -> u8 {
    match kind {
        LibraryType::Static => 0u8,
        LibraryType::Shared => 1u8,
    }
}

/// What the step at `index` feeds to the hasher: its position, its name,
/// then its hash.
pub open spec fn step_writes(index: int, step: StepIdentityView) -> Seq<Seq<u8>> {
    seq![be_bytes(index as u64), encode_utf8(step.name), be_bytes(step.hash)]
}

/// What the first `count` steps feed to the hasher, in order.
pub open spec fn steps_writes(steps: Seq<StepIdentityView>, count: int) -> Seq<Seq<u8>>
    decreases count,
{
    if count <= 0 {
        Seq::empty()
    } else {
        steps_writes(steps, count - 1) + step_writes(count - 1, steps[count - 1])
    }
}

/// Everything that a build feeds to the hasher: its name, the hash of its
/// source, its install prefix, its linkage kind, then each step in order.
pub open spec fn identity_writes(identity: BuildIdentity) -> Seq<Seq<u8>> {
    seq![encode_utf8(identity.name), be_bytes(identity.source)] + prefix_writes(
        identity.install_prefix,
    ) + seq![seq![library_type_byte(identity.library_type)]] + steps_writes(
        identity.steps,
        identity.steps.len() as int,
    )
}

/// The hash that identifies a build.
pub open spec fn identity_hash(identity: BuildIdentity) -> u64 {
    DefaultHasher::spec_finish(identity_writes(identity))
}

/// The name of the working directory of the build `name` with hash `hash`.
pub open spec fn working_directory_name(name: Seq<char>, hash: u64) -> Seq<char> {
    "build_"@ + name + "_"@ + hash_token_text(hash)
}

/// The name of the working directory of the build `name` with hash `hash`.
pub fn build_directory_name(name: &str, hash: u64) -> (folder: String)
    ensures
        folder@ == working_directory_name(name@, hash),
{
    let token = hash_token(hash);
    let mut folder = "build_".to_owned();
    folder.append(name);
    folder.append("_");
    folder.append(token.as_str());
    folder
}

/// Feeds to `hasher` what the steps contribute to the identity of a build.
fn hash_steps(steps: &Vec<StepIdentity>, hasher: &mut DefaultHasher)
    ensures
        final(hasher)@ == old(hasher)@ + steps_writes(identities_view(steps@), steps@.len() as int),
{
    let mut i: usize = 0;
    let ghost identities = identities_view(steps@);
    assert(steps_writes(identities, 0) =~= Seq::empty());
    while i < steps.len()
        invariant
            i <= steps.len(),
            identities == identities_view(steps@),
            hasher@ == old(hasher)@ + steps_writes(identities, i as int),
        decreases steps.len() - i,
    {
        let ghost before = hasher@;
        let position = to_be_bytes(i as u64);
        hasher.write(position.as_slice());
        hasher.write(steps[i].name.as_str().as_bytes());
        let hash = to_be_bytes(steps[i].hash);
        hasher.write(hash.as_slice());
        proof {
            assert(identities[i as int] == steps@[i as int]@);
            assert(hasher@ =~= before + step_writes(i as int, identities[i as int]));
            assert(steps_writes(identities, i + 1) == steps_writes(identities, i as int)
                + step_writes(i as int, identities[i as int]));
            assert(old(hasher)@ + steps_writes(identities, i + 1) =~= before + step_writes(
                i as int,
                identities[i as int],
            ));
        }
        i += 1;
    }
}

/// The hash that identifies a build with these properties.
pub fn identity_digest(
    name: &str,
    source_hash: u64,
    install_prefix: &Option<String>,
    library_type: LibraryType,
    steps: &Vec<StepIdentity>,
) -> (hash: u64)
    ensures
        hash == identity_hash(
            BuildIdentity {
                name: name@,
                source: source_hash,
                install_prefix: opt_view(*install_prefix),
                library_type,
                steps: identities_view(steps@),
            },
        ),
{
    let ghost identity = BuildIdentity {
        name: name@,
        source: source_hash,
        install_prefix: opt_view(*install_prefix),
        library_type,
        steps: identities_view(steps@),
    };
    let mut hasher = DefaultHasher::new();
    hasher.write(name.as_bytes());
    let source_bytes = to_be_bytes(source_hash);
    hasher.write(source_bytes.as_slice());
    assert(hasher@ =~= seq![encode_utf8(identity.name), be_bytes(identity.source)]);
    let ghost front = hasher@;
    match install_prefix {
        None => {
            let marker: Vec<u8> = vec![0u8];
            hasher.write(marker.as_slice());
            assert(marker@ =~= seq![0u8]);
            assert(hasher@ =~= front + prefix_writes(identity.install_prefix));
        },
        Some(prefix) => {
            let marker: Vec<u8> = vec![1u8];
            hasher.write(marker.as_slice());
            hasher.write(prefix.as_str().as_bytes());
            assert(marker@ =~= seq![1u8]);
            assert(hasher@ =~= front + prefix_writes(identity.install_prefix));
        },
    }
    let ghost middle = hasher@;
    let kind_byte: u8 = match library_type {
        LibraryType::Static => 0u8,
        LibraryType::Shared => 1u8,
    };
    let kind_marker: Vec<u8> = vec![kind_byte];
    hasher.write(kind_marker.as_slice());
    assert(kind_marker@ =~= seq![library_type_byte(library_type)]);
    assert(hasher@ =~= middle + seq![seq![library_type_byte(identity.library_type)]]);
    hash_steps(steps, &mut hasher);
    assert(identities_view(steps@).len() == steps@.len());
    assert(hasher@ == identity_writes(identity));
    hasher.finish()
}

/// The same name, source hash, install prefix, linkage kind and steps give
/// the same hash and the same working directory, however often they are
/// derived.
pub proof fn law_identity_is_deterministic(first: BuildIdentity, second: BuildIdentity)
    requires
        first.name == second.name,
        first.source == second.source,
        first.install_prefix == second.install_prefix,
        first.library_type == second.library_type,
        first.steps.len() == second.steps.len(),
        forall|i: int|
            0 <= i < first.steps.len() ==> first.steps[i].name == second.steps[i].name
                && first.steps[i].hash == second.steps[i].hash,
    ensures
        identity_writes(first) == identity_writes(second),
        identity_hash(first) == identity_hash(second),
        working_directory_name(first.name, identity_hash(first)) == working_directory_name(
            second.name,
            identity_hash(second),
        ),
{
    assert(first.steps =~= second.steps);
}

/// What the first `count` steps feed to the hasher holds three writes for
/// each step, the third of which is the step's hash.
pub proof fn lemma_steps_writes(steps: Seq<StepIdentityView>, count: int, k: int)
    requires
        0 <= k < count,
    ensures
        steps_writes(steps, count).len() == 3 * count,
        steps_writes(steps, count)[3 * k + 2] == be_bytes(steps[k].hash),
    decreases count,
{
    if count == 1 {
        assert(steps_writes(steps, 0).len() == 0);
    } else if k == count - 1 {
        lemma_steps_writes(steps, count - 1, 0);
    } else {
        lemma_steps_writes(steps, count - 1, k);
    }
}

/// Two builds that differ in the hash of one step feed different things to
/// the hasher.
pub proof fn law_step_hash_reaches_hasher(first: BuildIdentity, second: BuildIdentity, k: int)
    requires
        0 <= k < first.steps.len(),
        first.steps.len() == second.steps.len(),
        first.steps[k].hash != second.steps[k].hash,
    ensures
        identity_writes(first) != identity_writes(second),
{
    let count = first.steps.len() as int;
    let x = be_bytes(first.steps[k].hash);
    let y = be_bytes(second.steps[k].hash);
    assert(x != y) by {
        if x == y {
            lemma_be_bytes_injective(first.steps[k].hash, second.steps[k].hash);
        }
    }
    let tail_a = steps_writes(first.steps, count);
    let tail_b = steps_writes(second.steps, count);
    assert(tail_a.len() == 3 * count && tail_a[3 * k + 2] == x) by {
        lemma_steps_writes(first.steps, count, k);
    }
    assert(tail_b.len() == 3 * count && tail_b[3 * k + 2] == y) by {
        lemma_steps_writes(second.steps, count, k);
    }
    let head_a = seq![encode_utf8(first.name), be_bytes(first.source)] + prefix_writes(
        first.install_prefix,
    ) + seq![seq![library_type_byte(first.library_type)]];
    let head_b = seq![encode_utf8(second.name), be_bytes(second.source)] + prefix_writes(
        second.install_prefix,
    ) + seq![seq![library_type_byte(second.library_type)]];
    lemma_tails_differ(head_a, tail_a, head_b, tail_b, 3 * k + 2);
}

/// Two sequences whose tails have one length and differ at a position are
/// different sequences.
proof fn lemma_tails_differ<A>(
    head_a: Seq<A>,
    tail_a: Seq<A>,
    head_b: Seq<A>,
    tail_b: Seq<A>,
    i: int,
)
    requires
        tail_a.len() == tail_b.len(),
        0 <= i < tail_a.len(),
        tail_a[i] != tail_b[i],
    ensures
        head_a + tail_a != head_b + tail_b,
{
    let a = head_a + tail_a;
    let b = head_b + tail_b;
    if a == b {
        assert(a.len() == b.len());
        assert(head_a.len() == head_b.len());
        assert(a[head_a.len() + i] == tail_a[i]);
        assert(b[head_b.len() + i] == tail_b[i]);
    }
}

/// Builds of one name with different hashes have different working
/// directories.
pub proof fn law_hash_names_directory(name: Seq<char>, first: u64, second: u64)
    requires
        first != second,
    ensures
        working_directory_name(name, first) != working_directory_name(name, second),
{
    let front = "build_"@ + name + "_"@;
    let a = working_directory_name(name, first);
    let b = working_directory_name(name, second);
    if a == b {
        assert(a.subrange(front.len() as int, a.len() as int) =~= hash_token_text(first));
        assert(b.subrange(front.len() as int, b.len() as int) =~= hash_token_text(second));
        lemma_hash_token_injective(first, second);
    }
}

} // verus!
