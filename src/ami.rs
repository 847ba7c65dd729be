//! Machine-image selection: an explicit image id, or the newest catalog image
//! matching the OS family and architecture.
use vstd::prelude::*;

use crate::error::{Ec2CliError, Result};
use crate::profile::{ami_types, one_of, AmiConfig, Profile};
use crate::text::{append, concat3, owned, same_text};

verus! {

/// The account that publishes the supported images.
pub const CANONICAL_OWNER: &'static str = "099720109477";

/// A catalog query: the image owner and a name pattern, restricted to available images.
#[derive(Debug, Clone)]
pub struct CatalogQuery {
    pub owner: String,
    pub name_pattern: String,
}

/// Where the image id comes from.
#[derive(Debug, Clone)]
pub enum AmiSource {
    /// An explicit image id, used unchanged.
    Explicit(String),
    /// The newest image that the catalog returns for the query.
    Catalog(CatalogQuery),
}

/// One image returned by the catalog.
#[derive(Debug, Clone)]
pub struct ImageCandidate {
    pub image_id: String,
    /// Creation timestamp in ISO 8601 form; empty when the catalog gave none.
    pub creation_date: String,
}

/// The architecture token used in image names.
pub open spec fn arch_token(arch: Seq<char>) -> Seq<char> {
    if arch == "arm64"@ {
        "arm64"@
    } else {
        "amd64"@
    }
}

/// The fixed table from OS family and architecture to image owner and name pattern.
pub open spec fn ami_table(ami_type: Seq<char>, arch: Seq<char>) -> Option<(Seq<char>, Seq<char>)> {
    if ami_type == "ubuntu-22.04"@ {
        Some(
            (
                CANONICAL_OWNER@,
                "ubuntu/images/hvm-ssd/ubuntu-jammy-22.04-"@ + arch_token(arch) + "-server-*"@,
            ),
        )
    } else if ami_type == "ubuntu-24.04"@ {
        Some(
            (
                CANONICAL_OWNER@,
                "ubuntu/images/hvm-ssd-gp3/ubuntu-noble-24.04-"@ + arch_token(arch) + "-server-*"@,
            ),
        )
    } else {
        None
    }
}

/// The message of the unknown-family error.
pub open spec fn unknown_family_message(ami_type: Seq<char>) -> Seq<char> {
    "Unknown AMI type: "@ + ami_type + "."@ + " Supported: ubuntu-22.04, ubuntu-24.04"@
}

/// The message of the no-image error: it names the requested selector.
pub open spec fn no_image_message(ami_type: Seq<char>, arch: Seq<char>) -> Seq<char> {
    "No AMI found matching "@ + ami_type + " for "@ + arch
}

/// Strict lexicographic order on texts (chronological order on ISO 8601 timestamps).
pub open spec fn text_lt(a: Seq<char>, b: Seq<char>) -> bool
    decreases a.len(),
{
    if a.len() == 0 {
        b.len() > 0
    } else if b.len() == 0 {
        false
    } else if (a[0] as u32) < (b[0] as u32) {
        true
    } else if (a[0] as u32) > (b[0] as u32) {
        false
    } else {
        text_lt(a.drop_first(), b.drop_first())
    }
}

/// Whether the candidate at `k` has a creation timestamp that no other candidate exceeds.
pub open spec fn is_latest(images: Seq<ImageCandidate>, k: int) -> bool {
    &&& 0 <= k < images.len()
    &&& forall|j: int|
        0 <= j < images.len() ==> !text_lt(images[k].creation_date@, #[trigger] images[j].creation_date@)
}

/// Whether `a` is strictly before `b` in lexicographic order.
pub fn text_before(a: &str, b: &str) -> (r: bool)
    ensures
        r == text_lt(a@, b@),
{
    let n = a.unicode_len();
    let m = b.unicode_len();
    let mut i: usize = 0;
    assert(a@.skip(0) =~= a@);
    assert(b@.skip(0) =~= b@);
    while i < n && i < m
        invariant
            n == a@.len(),
            m == b@.len(),
            i <= n,
            i <= m,
            text_lt(a@, b@) == text_lt(a@.skip(i as int), b@.skip(i as int)),
        decreases n - i,
    {
        let x = a.get_char(i);
        let y = b.get_char(i);
        assert(a@.skip(i as int)[0] == x && b@.skip(i as int)[0] == y);
        if (x as u32) < (y as u32) {
            return true;
        }
        if (x as u32) > (y as u32) {
            return false;
        }
        assert(a@.skip(i as int).drop_first() =~= a@.skip(i + 1));
        assert(b@.skip(i as int).drop_first() =~= b@.skip(i + 1));
        i += 1;
    }
    i == n && i < m
}

/// The index of a candidate with the newest creation timestamp; `None` for no candidates.
/// Which of several candidates with the same newest timestamp is chosen is left open.
pub fn latest_image_index(images: &Vec<ImageCandidate>) -> (r: Option<usize>)
    ensures
        r is None <==> images@.len() == 0,
        r is Some ==> is_latest(images@, r->Some_0 as int),
{
    if images.len() == 0 {
        return None;
    }
    let mut best: usize = 0;
    let mut i: usize = 1;
    proof {
        lemma_text_lt_irreflexive(images@[0].creation_date@);
    }
    while i < images.len()
        invariant
            1 <= i <= images@.len(),
            best < i,
            forall|j: int|
                0 <= j < i ==> !text_lt(images@[best as int].creation_date@, #[trigger] images@[j].creation_date@),
        decreases images@.len() - i,
    {
        if text_before(images[best].creation_date.as_str(), images[i].creation_date.as_str()) {
            proof {
                lemma_text_lt_transitive_negation(images@, best as int, i as int);
            }
            best = i;
        }
        i += 1;
    }
    Some(best)
}

proof fn lemma_text_lt_trans(a: Seq<char>, b: Seq<char>, c: Seq<char>)
    requires
        text_lt(a, b),
        text_lt(b, c),
    ensures
        text_lt(a, c),
    decreases a.len(),
{
    if a.len() > 0 && b.len() > 0 && c.len() > 0 && a[0] as u32 == b[0] as u32 && b[0] as u32 == c[0] as u32 {
        lemma_text_lt_trans(a.drop_first(), b.drop_first(), c.drop_first());
    }
}

proof fn lemma_text_lt_transitive_negation(images: Seq<ImageCandidate>, best: int, i: int)
    requires
        0 <= best < i < images.len(),
        text_lt(images[best].creation_date@, images[i].creation_date@),
        forall|j: int|
            0 <= j < i ==> !text_lt(images[best].creation_date@, #[trigger] images[j].creation_date@),
    ensures
        forall|j: int|
            0 <= j <= i ==> !text_lt(images[i].creation_date@, #[trigger] images[j].creation_date@),
{
    assert forall|j: int| 0 <= j <= i implies !text_lt(
        images[i].creation_date@,
        #[trigger] images[j].creation_date@,
    ) by {
        if text_lt(images[i].creation_date@, images[j].creation_date@) {
            lemma_text_lt_trans(images[best].creation_date@, images[i].creation_date@,
                images[j].creation_date@);
            if j == i {
                lemma_text_lt_irreflexive(images[i].creation_date@);
            }
        }
    }
}

proof fn lemma_text_lt_irreflexive(a: Seq<char>)
    ensures
        !text_lt(a, a),
    decreases a.len(),
{
    if a.len() > 0 {
        lemma_text_lt_irreflexive(a.drop_first());
    }
}

/// The catalog query for an image selector, or the explicit image id.
pub fn ami_query(ami: &AmiConfig) -> (r: Result<AmiSource>)
    ensures
        ami.id is Some ==> r is Ok && r->Ok_0 is Explicit && r->Ok_0->Explicit_0@ == ami.id->Some_0@,
        ami.id is None ==> match ami_table(ami.ami_type@, ami.architecture@) {
            Some(entry) => r is Ok && r->Ok_0 is Catalog && r->Ok_0->Catalog_0.owner@ == entry.0
                && r->Ok_0->Catalog_0.name_pattern@ == entry.1,
            None => r is Err && r->Err_0 is ProfileValidation
                && r->Err_0->ProfileValidation_0@ == unknown_family_message(ami.ami_type@),
        },
{
    if let Some(id) = &ami.id {
        return Ok(AmiSource::Explicit(id.clone()));
    }
    let arch = if same_text(ami.architecture.as_str(), "arm64") {
        "arm64"
    } else {
        "amd64"
    };
    let pattern = if same_text(ami.ami_type.as_str(), "ubuntu-22.04") {
        concat3("ubuntu/images/hvm-ssd/ubuntu-jammy-22.04-", arch, "-server-*")
    } else if same_text(ami.ami_type.as_str(), "ubuntu-24.04") {
        concat3("ubuntu/images/hvm-ssd-gp3/ubuntu-noble-24.04-", arch, "-server-*")
    } else {
        let mut m = concat3("Unknown AMI type: ", ami.ami_type.as_str(), ".");
        append(&mut m, " Supported: ubuntu-22.04, ubuntu-24.04");
        return Err(Ec2CliError::ProfileValidation(m));
    };
    Ok(AmiSource::Catalog(CatalogQuery { owner: owned(CANONICAL_OWNER), name_pattern: pattern }))
}

/// The image id for a profile, given the catalog's answer to its query (ignored
/// when the profile names an explicit image id).
pub fn lookup_ami(profile: &Profile, images: &Vec<ImageCandidate>) -> (r: Result<String>)
    ensures
        profile.instance.ami.id is Some ==> r is Ok && r->Ok_0@ == profile.instance.ami.id->Some_0@,
        profile.instance.ami.id is None && ami_table(
            profile.instance.ami.ami_type@,
            profile.instance.ami.architecture@,
        ) is None ==> r is Err && r->Err_0 is ProfileValidation
            && r->Err_0->ProfileValidation_0@ == unknown_family_message(profile.instance.ami.ami_type@),
        profile.instance.ami.id is None && ami_table(
            profile.instance.ami.ami_type@,
            profile.instance.ami.architecture@,
        ) is Some ==> {
            &&& images@.len() == 0 <==> (r is Err && r->Err_0 is ResourceNotFound)
            &&& (r is Err ==> r->Err_0->ResourceNotFound_0@ == no_image_message(
                profile.instance.ami.ami_type@,
                profile.instance.ami.architecture@,
            ))
            &&& r is Ok ==> exists|k: int|
                is_latest(images@, k) && #[trigger] images@[k].image_id@ == r->Ok_0@
            &&& r is Ok || (r is Err && r->Err_0 is ResourceNotFound)
        },
{
    let ami = &profile.instance.ami;
    match ami_query(ami) {
        Err(e) => Err(e),
        Ok(AmiSource::Explicit(id)) => Ok(id),
        Ok(AmiSource::Catalog(_)) => {
            match latest_image_index(images) {
                Some(k) => {
                    let id = images[k].image_id.clone();
                    assert(is_latest(images@, k as int) && images@[k as int].image_id@ == id@);
                    Ok(id)
                },
                None => {
                    let mut m = concat3("No AMI found matching ", ami.ami_type.as_str(), " for ");
                    append(&mut m, ami.architecture.as_str());
                    Err(Ec2CliError::ResourceNotFound(m))
                },
            }
        },
    }
}

/// Every OS family of the supported table resolves to a catalog query, for any
/// architecture: the unknown-family error is never taken for them.
pub proof fn lemma_supported_families_resolve(ami_type: Seq<char>, arch: Seq<char>)
    requires
        one_of(ami_type, ami_types()),
    ensures
        ami_table(ami_type, arch) is Some,
{
}

/// Of two candidates whose creation timestamps are strictly ordered, the newer is chosen.
pub proof fn lemma_newer_of_two_chosen(images: Seq<ImageCandidate>, k: int)
    requires
        images.len() == 2,
        text_lt(images[0].creation_date@, images[1].creation_date@),
        is_latest(images, k),
    ensures
        k == 1,
{
    assert(!text_lt(images[k].creation_date@, images[1].creation_date@));
}

} // verus!
