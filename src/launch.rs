//! The launch request: image, storage, metadata hardening, boot input and tags.
use vstd::prelude::*;
use vstd::string::StringSliceAdditionalSpecFns;

use crate::infra::Infrastructure;
use crate::profile::Profile;
use crate::strmap::StringMap;
use crate::text::{concat2, owned};

verus! {

/// Tag that marks every resource this library creates.
pub const MANAGED_TAG_KEY: &'static str = "ec2-cli:managed";

pub const MANAGED_TAG_VALUE: &'static str = "true";

/// Tag holding the instance name.
pub const NAME_TAG_KEY: &'static str = "ec2-cli:name";

/// The display-name tag.
pub const AWS_NAME_TAG: &'static str = "Name";

/// Deployment identifier tag.
pub const DEPLOYMENT_TAG_KEY: &'static str = "deployment";

pub const DEPLOYMENT_TAG_VALUE: &'static str = "ec2-cli";

/// The root device of the supported images.
pub const ROOT_DEVICE_NAME: &'static str = "/dev/sda1";

/// Forwarding hops allowed for metadata-service responses.
pub const METADATA_HOP_LIMIT: u32 = 1;

/// A key and value attached to a cloud resource.
#[derive(Debug, Clone)]
pub struct ResourceTag {
    pub key: String,
    pub value: String,
}

/// The views of a list of tags.
pub open spec fn tag_views(v: Seq<ResourceTag>) -> Seq<(Seq<char>, Seq<char>)> {
    v.map_values(|t: ResourceTag| (t.key@, t.value@))
}

/// The fixed tags of a resource of instance `name`.
pub open spec fn standard_tags(name: Seq<char>) -> Seq<(Seq<char>, Seq<char>)> {
    seq![
        (MANAGED_TAG_KEY@, MANAGED_TAG_VALUE@),
        (NAME_TAG_KEY@, name),
        (AWS_NAME_TAG@, "ec2-cli-"@ + name),
        (DEPLOYMENT_TAG_KEY@, DEPLOYMENT_TAG_VALUE@),
    ]
}

/// The tags of a resource of instance `name`: the fixed tags, then the custom ones.
pub fn create_tags(name: &str, custom_tags: &StringMap) -> (r: Vec<ResourceTag>)
    ensures
        tag_views(r@) == standard_tags(name@) + custom_tags@,
{
    let mut tags = vec![
        ResourceTag { key: owned(MANAGED_TAG_KEY), value: owned(MANAGED_TAG_VALUE) },
        ResourceTag { key: owned(NAME_TAG_KEY), value: owned(name) },
        ResourceTag { key: owned(AWS_NAME_TAG), value: concat2("ec2-cli-", name) },
        ResourceTag { key: owned(DEPLOYMENT_TAG_KEY), value: owned(DEPLOYMENT_TAG_VALUE) },
    ];
    assert(tag_views(tags@) =~= standard_tags(name@));
    let n = custom_tags.len();
    let mut i: usize = 0;
    while i < n
        invariant
            i <= n,
            n == custom_tags@.len(),
            tag_views(tags@) == standard_tags(name@) + custom_tags@.take(i as int),
        decreases n - i,
    {
        let key = custom_tags.key_at(i).clone();
        let value = custom_tags.value_at(i).clone();
        let ghost before = tags@;
        let ghost entry = (key@, value@);
        tags.push(ResourceTag { key, value });
        assert(tag_views(tags@) =~= tag_views(before).push(entry));
        assert(custom_tags@.take(i + 1) =~= custom_tags@.take(i as int).push(custom_tags@[i as int]));
        assert(tag_views(tags@) =~= standard_tags(name@) + custom_tags@.take(i + 1));
        i += 1;
    }
    assert(custom_tags@.take(n as int) =~= custom_tags@);
    tags
}

/// The standard base64 alphabet: `A`-`Z`, `a`-`z`, `0`-`9`, `+`, `/`.
pub open spec fn base64_digit(v: int) -> char {
    if v < 26 {
        ('A' as int + v) as char
    } else if v < 52 {
        ('a' as int + v - 26) as char
    } else if v < 62 {
        ('0' as int + v - 52) as char
    } else if v == 62 {
        '+'
    } else {
        '/'
    }
}

/// The standard base64 encoding of `b`: each group of three bytes becomes four
/// digits of six bits; a final group of one or two bytes is padded with `=`.
pub open spec fn base64_standard(b: Seq<u8>) -> Seq<char>
    decreases b.len(),
{
    if b.len() == 0 {
        Seq::empty()
    } else if b.len() == 1 {
        seq![base64_digit((b[0] as int) / 4), base64_digit(((b[0] as int) % 4) * 16), '=', '=']
    } else if b.len() == 2 {
        seq![
            base64_digit((b[0] as int) / 4),
            base64_digit(((b[0] as int) % 4) * 16 + (b[1] as int) / 16),
            base64_digit(((b[1] as int) % 16) * 4),
            '=',
        ]
    } else {
        seq![
            base64_digit((b[0] as int) / 4),
            base64_digit(((b[0] as int) % 4) * 16 + (b[1] as int) / 16),
            base64_digit(((b[1] as int) % 16) * 4 + (b[2] as int) / 64),
            base64_digit((b[2] as int) % 64),
        ] + base64_standard(b.skip(3))
    }
}

/// Relies on `base64::Engine::encode` with the `STANDARD` engine: the padded
/// standard-alphabet encoding, four characters for each started group of three
/// bytes. It panics only when that length overflows `usize`, which `requires` rules out.
#[verifier::external_body]
fn encode_base64(b: &[u8]) -> (r: String)
    requires
        b@.len() / 3 * 4 + 4 <= usize::MAX,
    ensures
        r@ == base64_standard(b@),
        r@.len() == 4 * ((b@.len() + 2) / 3),
{
    base64::Engine::encode(&base64::engine::general_purpose::STANDARD, b)
}

/// One launch request for a single instance.
#[derive(Debug, Clone)]
pub struct LaunchRequest {
    pub image_id: String,
    pub instance_type: String,
    pub subnet_id: String,
    pub security_group_id: String,
    pub instance_profile_arn: String,
    pub device_name: String,
    pub volume_size_gb: u32,
    pub volume_type: String,
    pub iops: Option<u32>,
    pub throughput: Option<u32>,
    /// Encryption of the root volume; always on.
    pub encrypted: bool,
    pub delete_on_termination: bool,
    /// The bootstrap script, base64-encoded.
    pub user_data_base64: String,
    /// Metadata reads need a session token.
    pub http_tokens_required: bool,
    pub metadata_hop_limit: u32,
    pub metadata_endpoint_enabled: bool,
    pub tags: Vec<ResourceTag>,
}

/// Whether `r` is the launch request for these inputs with the encoded boot input `encoded`.
pub open spec fn is_launch_request(
    r: LaunchRequest,
    infra: Infrastructure,
    security_group_id: Seq<char>,
    profile: Profile,
    name: Seq<char>,
    ami_id: Seq<char>,
    encoded: Seq<char>,
    custom_tags: Seq<(Seq<char>, Seq<char>)>,
) -> bool {
    &&& r.image_id@ == ami_id
    &&& r.instance_type@ == profile.instance.instance_type@
    &&& r.subnet_id@ == infra.subnet_id@
    &&& r.security_group_id@ == security_group_id
    &&& r.instance_profile_arn@ == infra.instance_profile_arn@
    &&& r.device_name@ == ROOT_DEVICE_NAME@
    &&& r.volume_size_gb == profile.instance.storage.root_volume.size_gb
    &&& r.volume_type@ == profile.instance.storage.root_volume.volume_type@
    &&& r.iops == profile.instance.storage.root_volume.iops
    &&& r.throughput == profile.instance.storage.root_volume.throughput
    &&& r.encrypted
    &&& r.delete_on_termination
    &&& r.user_data_base64@ == encoded
    &&& r.http_tokens_required
    &&& r.metadata_hop_limit == METADATA_HOP_LIMIT
    &&& r.metadata_endpoint_enabled
    &&& tag_views(r.tags@) == standard_tags(name) + custom_tags
}

/// The launch request, given the already encoded boot input. Encryption and the
/// hardened metadata options are set whatever the profile holds.
pub fn assemble_launch_request(
    infra: &Infrastructure,
    security_group_id: &str,
    profile: &Profile,
    name: &str,
    ami_id: &str,
    user_data_base64: String,
    custom_tags: &StringMap,
) -> (r: LaunchRequest)
    ensures
        is_launch_request(
            r,
            *infra,
            security_group_id@,
            *profile,
            name@,
            ami_id@,
            user_data_base64@,
            custom_tags@,
        ),
{
    let root = &profile.instance.storage.root_volume;
    LaunchRequest {
        image_id: owned(ami_id),
        instance_type: profile.instance.instance_type.clone(),
        subnet_id: infra.subnet_id.clone(),
        security_group_id: owned(security_group_id),
        instance_profile_arn: infra.instance_profile_arn.clone(),
        device_name: owned(ROOT_DEVICE_NAME),
        volume_size_gb: root.size_gb,
        volume_type: root.volume_type.clone(),
        iops: root.iops,
        throughput: root.throughput,
        encrypted: true,
        delete_on_termination: true,
        user_data_base64,
        http_tokens_required: true,
        metadata_hop_limit: METADATA_HOP_LIMIT,
        metadata_endpoint_enabled: true,
        tags: create_tags(name, custom_tags),
    }
}

/// The launch request for a profile, with the bootstrap script `user_data` encoded as base64.
pub fn build_launch_request(
    infra: &Infrastructure,
    security_group_id: &str,
    profile: &Profile,
    name: &str,
    ami_id: &str,
    user_data: &str,
    custom_tags: &StringMap,
) -> (r: LaunchRequest)
    requires
        user_data.spec_bytes().len() / 3 * 4 + 4 <= usize::MAX,
    ensures
        is_launch_request(
            r,
            *infra,
            security_group_id@,
            *profile,
            name@,
            ami_id@,
            base64_standard(user_data.spec_bytes()),
            custom_tags@,
        ),
{
    let encoded = encode_base64(user_data.as_bytes());
    assemble_launch_request(infra, security_group_id, profile, name, ami_id, encoded, custom_tags)
}

/// Launch hardening law: whatever the profile's storage and image settings, the
/// request encrypts the root volume, requires metadata tokens with a hop limit of
/// one, and takes the volume size from the profile.
pub proof fn lemma_launch_hardening(
    r: LaunchRequest,
    infra: Infrastructure,
    security_group_id: Seq<char>,
    profile: Profile,
    name: Seq<char>,
    ami_id: Seq<char>,
    encoded: Seq<char>,
    custom_tags: Seq<(Seq<char>, Seq<char>)>,
)
    requires
        is_launch_request(r, infra, security_group_id, profile, name, ami_id, encoded, custom_tags),
    ensures
        r.encrypted,
        r.metadata_hop_limit == 1,
        r.http_tokens_required,
        r.volume_size_gb == profile.instance.storage.root_volume.size_gb,
{
}

} // verus!
