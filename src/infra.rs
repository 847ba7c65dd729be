//! Shared infrastructure: network and subnet, and the per-machine trust role.
use vstd::prelude::*;
use vstd::string::StringSliceAdditionalSpecFns;

use crate::error::{Ec2CliError, Result};
use crate::text::{append, concat2, concat3, owned, same_text};

verus! {

/// The resolved shared infrastructure a launch depends on.
#[derive(Debug, Clone)]
pub struct Infrastructure {
    pub vpc_id: String,
    pub subnet_id: String,
    pub instance_profile_arn: String,
    pub instance_profile_name: String,
}

pub const FNV_OFFSET_BASIS: u64 = 0xcbf29ce484222325;

pub const FNV_PRIME: u64 = 0x100000001b3;

/// The 64-bit FNV-1a hash of `bytes`.
pub open spec fn fnv1a(bytes: Seq<u8>) -> u64
    decreases bytes.len(),
{
    if bytes.len() == 0 {
        FNV_OFFSET_BASIS
    } else {
        (fnv1a(bytes.drop_last()) ^ (bytes.last() as u64)).wrapping_mul(FNV_PRIME)
    }
}

/// The 64-bit FNV-1a hash of the UTF-8 bytes of `data`; stable across toolchains.
pub fn fnv1a_hash(data: &str) -> (r: u64)
    ensures
        r == fnv1a(data.spec_bytes()),
{
    let bytes = data.as_bytes();
    let mut hash: u64 = FNV_OFFSET_BASIS;
    let mut i: usize = 0;
    while i < bytes.len()
        invariant
            i <= bytes@.len(),
            bytes@ == data.spec_bytes(),
            hash == fnv1a(bytes@.take(i as int)),
        decreases bytes@.len() - i,
    {
        proof {
            assert(bytes@.take(i + 1).drop_last() =~= bytes@.take(i as int));
        }
        hash = (hash ^ (bytes[i] as u64)).wrapping_mul(FNV_PRIME);
        i += 1;
    }
    assert(bytes@.take(bytes@.len() as int) =~= bytes@);
    hash
}

/// `16` to the power `n`.
pub open spec fn pow16(n: nat) -> nat
    decreases n,
{
    if n == 0 {
        1
    } else {
        16 * pow16((n - 1) as nat)
    }
}

proof fn lemma_pow16_positive(n: nat)
    ensures
        pow16(n) >= 1,
    decreases n,
{
    if n > 0 {
        lemma_pow16_positive((n - 1) as nat);
    }
}

/// The lowercase hexadecimal digit of `d < 16`.
pub open spec fn hex_char(d: nat) -> char {
    if d < 10 {
        ('0' as nat + d) as char
    } else {
        ('a' as nat + d - 10) as char
    }
}

/// The eight lowercase hexadecimal digits of `v < 2^32`, most significant first.
pub open spec fn hex8(v: nat) -> Seq<char> {
    Seq::new(8, |k: int| hex_char((v / pow16((7 - k) as nat)) % 16))
}

/// The per-machine fingerprint: the low 32 bits of the FNV-1a hash of the host name, in hex.
pub open spec fn machine_fingerprint(hostname: Seq<u8>) -> Seq<char> {
    hex8((fnv1a(hostname) % 0x1_0000_0000) as nat)
}

const HEX_DIGITS: [&'static str; 16] = [
    "0", "1", "2", "3", "4", "5", "6", "7", "8", "9", "a", "b", "c", "d", "e", "f",
];

fn hex_digit(d: u64) -> (r: &'static str)
    requires
        d < 16,
    ensures
        r@ == seq![hex_char(d as nat)],
{
    let r = HEX_DIGITS[d as usize];
    proof {
        reveal_strlit("0");
        reveal_strlit("1");
        reveal_strlit("2");
        reveal_strlit("3");
        reveal_strlit("4");
        reveal_strlit("5");
        reveal_strlit("6");
        reveal_strlit("7");
        reveal_strlit("8");
        reveal_strlit("9");
        reveal_strlit("a");
        reveal_strlit("b");
        reveal_strlit("c");
        reveal_strlit("d");
        reveal_strlit("e");
        reveal_strlit("f");
    }
    assert(r@ =~= seq![hex_char(d as nat)]);
    r
}

/// Eight lowercase hexadecimal digits of `v`.
fn format_hex8(v: u64) -> (r: String)
    requires
        v < 0x1_0000_0000,
    ensures
        r@ == hex8(v as nat),
{
    let mut r = String::new();
    let mut divisor: u64 = 268435456;
    let mut k: usize = 0;
    proof {
        reveal_with_fuel(pow16, 8);
    }
    assert(pow16(7) == 268435456);
    while k < 8
        invariant
            k <= 8,
            v < 0x1_0000_0000,
            k < 8 ==> divisor as nat == pow16((7 - k) as nat),
            divisor >= 1,
            r@ == hex8(v as nat).take(k as int),
        decreases 8 - k,
    {
        let d = (v / divisor) % 16;
        let digit = hex_digit(d);
        append(&mut r, digit);
        assert(r@ =~= hex8(v as nat).take(k + 1));
        if k < 7 {
            proof {
                let p = pow16((6 - k) as nat);
                assert(pow16((7 - k) as nat) == 16 * p);
                assert(16 * p / 16 == p) by (nonlinear_arith);
                lemma_pow16_positive((6 - k) as nat);
            }
            divisor = divisor / 16;
        }
        k += 1;
    }
    assert(hex8(v as nat).take(8) =~= hex8(v as nat));
    r
}

/// The per-machine fingerprint of a host name.
pub fn machine_hash_of(hostname: &str) -> (r: String)
    ensures
        r@ == machine_fingerprint(hostname.spec_bytes()),
{
    let h = fnv1a_hash(hostname);
    let low = h & 0xFFFF_FFFF;
    assert(h & 0xFFFF_FFFF == h % 0x1_0000_0000) by (bit_vector);
    format_hex8(low)
}

/// Relies on `hostname::get`: the local host name, converted lossily to UTF-8;
/// `None` when it cannot be read.
#[verifier::external_body]
fn local_hostname() -> (r: Option<String>) {
    hostname::get().ok().map(|h| h.to_string_lossy().to_string())
}

/// The fingerprint for a host name as read, `None` when it could not be read:
/// then the fingerprint of `unknown`.
pub fn machine_hash_from(hostname: Option<&str>) -> (r: String)
    ensures
        r@ == machine_fingerprint(
            match hostname {
                Some(h) => h.spec_bytes(),
                None => "unknown".spec_bytes(),
            },
        ),
{
    match hostname {
        Some(h) => machine_hash_of(h),
        None => machine_hash_of("unknown"),
    }
}

/// The fingerprint of this machine (of `unknown` when the host name cannot be read).
pub fn machine_hash() -> (r: String)
    ensures
        exists|h: Seq<u8>| r@ == machine_fingerprint(h),
{
    let name = local_hostname();
    let r = match &name {
        Some(n) => machine_hash_from(Some(n.as_str())),
        None => machine_hash_from(None),
    };
    r
}

pub const ROLE_NAME_PREFIX: &'static str = "ec2-cli-instance-role-";

pub const PROFILE_NAME_PREFIX: &'static str = "ec2-cli-instance-profile-";

/// The trust role's name for a machine fingerprint.
pub fn trust_role_name(fingerprint: &str) -> (r: String)
    ensures
        r@ == ROLE_NAME_PREFIX@ + fingerprint@,
{
    concat2(ROLE_NAME_PREFIX, fingerprint)
}

/// The role container's name for a machine fingerprint.
pub fn instance_profile_name(fingerprint: &str) -> (r: String)
    ensures
        r@ == PROFILE_NAME_PREFIX@ + fingerprint@,
{
    concat2(PROFILE_NAME_PREFIX, fingerprint)
}

/// The view of an optional text.
pub open spec fn text_opt(o: Option<&str>) -> Option<Seq<char>> {
    match o {
        Some(s) => Some(s@),
        None => None,
    }
}

/// The network to use: the configured one, else the account's default.
pub open spec fn chosen_network(configured: Option<Seq<char>>, default: Option<Seq<char>>) -> Option<Seq<char>> {
    match configured {
        Some(v) => Some(v),
        None => default,
    }
}

/// Resolves the network and subnet from configuration and lookups: `default_vpc` is
/// the account's default network, `subnet_vpc` the network that owns the configured
/// subnet (`None` when the subnet does not exist). A subnet of another network is a
/// configuration error and is not corrected.
pub fn resolve_network(
    configured_vpc: Option<&str>,
    default_vpc: Option<&str>,
    subnet_id: Option<&str>,
    subnet_vpc: Option<&str>,
) -> (r: Result<(String, String)>)
    ensures
        chosen_network(text_opt(configured_vpc), text_opt(default_vpc)) is None ==> r is Err
            && r->Err_0 is ResourceNotFound,
        chosen_network(text_opt(configured_vpc), text_opt(default_vpc)) is Some && subnet_id is None
            ==> r is Err && r->Err_0 is Config,
        chosen_network(text_opt(configured_vpc), text_opt(default_vpc)) is Some && subnet_id is Some
            && subnet_vpc is None ==> r is Err && r->Err_0 is ResourceNotFound,
        chosen_network(text_opt(configured_vpc), text_opt(default_vpc)) is Some && subnet_id is Some
            && subnet_vpc is Some ==> {
            let v = chosen_network(text_opt(configured_vpc), text_opt(default_vpc))->Some_0;
            if subnet_vpc->Some_0@ == v {
                r is Ok && r->Ok_0.0@ == v && r->Ok_0.1@ == subnet_id->Some_0@
            } else {
                r is Err && r->Err_0 is SubnetMismatch
            }
        },
{
    let vpc = match configured_vpc {
        Some(v) => v,
        None => match default_vpc {
            Some(v) => v,
            None => return Err(Ec2CliError::ResourceNotFound(owned("No default VPC found"))),
        },
    };
    let subnet = match subnet_id {
        Some(s) => s,
        None => return Err(Ec2CliError::Config(owned("No subnet configured"))),
    };
    let owner = match subnet_vpc {
        Some(o) => o,
        None => return Err(Ec2CliError::ResourceNotFound(concat3("Subnet ", subnet, " not found"))),
    };
    if !same_text(owner, vpc) {
        let mut m = concat3("Subnet ", subnet, " belongs to ");
        append(&mut m, owner);
        append(&mut m, ", not to ");
        append(&mut m, vpc);
        return Err(Ec2CliError::SubnetMismatch(m));
    }
    Ok((owned(vpc), owned(subnet)))
}

/// The service that may assume the trust role: the compute service.
pub const TRUST_SERVICE: &'static str = "ec2.amazonaws.com";

/// The one action the trust policy allows.
pub const ASSUME_ROLE_ACTION: &'static str = "sts:AssumeRole";

/// The one managed policy attached to the trust role: session-broker agent capabilities only.
pub const AGENT_POLICY_ARN: &'static str = "arn:aws:iam::aws:policy/AmazonSSMManagedInstanceCore";

/// The trust-policy document that lets exactly `service` perform exactly `action`.
pub open spec fn trust_policy_document(service: Seq<char>, action: Seq<char>) -> Seq<char> {
    "{\"Version\":\"2012-10-17\",\"Statement\":[{\"Effect\":\"Allow\",\"Principal\":{\"Service\":\""@
        + service + "\"},\"Action\":\""@ + action + "\"}]}"@
}

/// What the trust role is created with, and its container's name.
#[derive(Debug, Clone)]
pub struct TrustRoleRequest {
    pub role_name: String,
    pub assume_role_policy_document: String,
    pub managed_policy_arn: String,
    pub instance_profile_name: String,
}

/// The trust role of the machine with `fingerprint`: assumable only by the
/// compute service, with the session-broker agent policy as its one managed policy.
pub fn trust_role_request(fingerprint: &str) -> (r: TrustRoleRequest)
    ensures
        r.role_name@ == ROLE_NAME_PREFIX@ + fingerprint@,
        r.instance_profile_name@ == PROFILE_NAME_PREFIX@ + fingerprint@,
        r.assume_role_policy_document@ == trust_policy_document(TRUST_SERVICE@, ASSUME_ROLE_ACTION@),
        r.managed_policy_arn@ == AGENT_POLICY_ARN@,
{
    let mut doc = owned("{\"Version\":\"2012-10-17\",\"Statement\":[{\"Effect\":\"Allow\",\"Principal\":{\"Service\":\"");
    append(&mut doc, TRUST_SERVICE);
    append(&mut doc, "\"},\"Action\":\"");
    append(&mut doc, ASSUME_ROLE_ACTION);
    append(&mut doc, "\"}]}");
    TrustRoleRequest {
        role_name: trust_role_name(fingerprint),
        assume_role_policy_document: doc,
        managed_policy_arn: owned(AGENT_POLICY_ARN),
        instance_profile_name: instance_profile_name(fingerprint),
    }
}

/// The outcome of one lookup call.
#[derive(Debug, Clone)]
pub enum LookupOutcome {
    Found,
    NotFound,
    /// Any error other than not-found.
    Failed(Ec2CliError),
}

/// What a lookup found of the trust role and its container.
#[derive(Debug, Clone, Copy, PartialEq, Eq)]
pub struct TrustRoleState {
    pub role_exists: bool,
    pub managed_policy_attached: bool,
    /// An inline policy left on the role by the earlier scheme.
    pub inline_policy_present: bool,
    pub profile_exists: bool,
    pub profile_has_role: bool,
}

/// The trust-role state from the lookups: a not-found drives the create branch,
/// any other failure aborts (the role lookup's first). The attachment facts count
/// only for an existing role or container.
pub fn observe_trust_role(
    role: LookupOutcome,
    managed_policy_attached: bool,
    inline_policy_present: bool,
    profile: LookupOutcome,
    profile_has_role: bool,
) -> (r: Result<TrustRoleState>)
    ensures
        role is Failed ==> r is Err && r->Err_0 == role->Failed_0,
        !(role is Failed) && profile is Failed ==> r is Err && r->Err_0 == profile->Failed_0,
        !(role is Failed) && !(profile is Failed) ==> r == Ok::<TrustRoleState, Ec2CliError>(
            TrustRoleState {
                role_exists: role is Found,
                managed_policy_attached: role is Found && managed_policy_attached,
                inline_policy_present: role is Found && inline_policy_present,
                profile_exists: profile is Found,
                profile_has_role: profile is Found && profile_has_role,
            },
        ),
{
    let role_exists = match role {
        LookupOutcome::Found => true,
        LookupOutcome::NotFound => false,
        LookupOutcome::Failed(e) => return Err(e),
    };
    let profile_exists = match profile {
        LookupOutcome::Found => true,
        LookupOutcome::NotFound => false,
        LookupOutcome::Failed(e) => return Err(e),
    };
    Ok(
        TrustRoleState {
            role_exists,
            managed_policy_attached: role_exists && managed_policy_attached,
            inline_policy_present: role_exists && inline_policy_present,
            profile_exists,
            profile_has_role: profile_exists && profile_has_role,
        },
    )
}

/// The mutating calls needed to complete the trust role and its container.
#[derive(Debug, Clone, Copy, PartialEq, Eq)]
pub struct TrustRolePlan {
    pub create_role: bool,
    pub attach_managed_policy: bool,
    /// Delete the inline policies of the earlier scheme.
    pub delete_inline_policies: bool,
    pub create_profile: bool,
    pub add_role_to_profile: bool,
}

/// The plan for a found state: create what is missing, attach what is detached,
/// remove what the earlier scheme left.
pub open spec fn trust_role_plan(s: TrustRoleState) -> TrustRolePlan {
    TrustRolePlan {
        create_role: !s.role_exists,
        attach_managed_policy: !s.role_exists || !s.managed_policy_attached,
        delete_inline_policies: s.role_exists && s.inline_policy_present,
        create_profile: !s.profile_exists,
        add_role_to_profile: !s.profile_exists || !s.profile_has_role,
    }
}

/// The state after a plan's calls succeed; a role created afresh has no inline policy.
pub open spec fn after_plan(s: TrustRoleState, p: TrustRolePlan) -> TrustRoleState {
    TrustRoleState {
        role_exists: s.role_exists || p.create_role,
        managed_policy_attached: s.managed_policy_attached || p.attach_managed_policy,
        inline_policy_present: s.role_exists && s.inline_policy_present && !p.delete_inline_policies,
        profile_exists: s.profile_exists || p.create_profile,
        profile_has_role: s.profile_has_role || p.add_role_to_profile,
    }
}

/// Whether a plan makes any mutating call.
pub open spec fn plan_mutates(p: TrustRolePlan) -> bool {
    p.create_role || p.attach_managed_policy || p.delete_inline_policies || p.create_profile
        || p.add_role_to_profile
}

/// The calls needed to complete the trust role and its container.
pub fn plan_trust_role(s: TrustRoleState) -> (r: TrustRolePlan)
    ensures
        r == trust_role_plan(s),
{
    TrustRolePlan {
        create_role: !s.role_exists,
        attach_managed_policy: !s.role_exists || !s.managed_policy_attached,
        delete_inline_policies: s.role_exists && s.inline_policy_present,
        create_profile: !s.profile_exists,
        add_role_to_profile: !s.profile_exists || !s.profile_has_role,
    }
}

/// Whether the propagation delay is owed before launching: after any create, attach or removal.
pub fn needs_propagation_delay(p: TrustRolePlan) -> (r: bool)
    ensures
        r == plan_mutates(p),
{
    p.create_role || p.attach_managed_policy || p.delete_inline_policies || p.create_profile
        || p.add_role_to_profile
}

/// Seconds to wait for a new or changed trust bundle to propagate.
pub const PROPAGATION_DELAY_SECS: u64 = 10;

/// The infrastructure from the resolved network and trust-role container.
pub fn assemble_infrastructure(
    network: (String, String),
    instance_profile_arn: String,
    instance_profile_name: String,
) -> (r: Infrastructure)
    ensures
        r.vpc_id@ == network.0@,
        r.subnet_id@ == network.1@,
        r.instance_profile_arn@ == instance_profile_arn@,
        r.instance_profile_name@ == instance_profile_name@,
{
    Infrastructure {
        vpc_id: network.0,
        subnet_id: network.1,
        instance_profile_arn,
        instance_profile_name,
    }
}

/// What one resolution looked up: the network configuration and answers, the
/// trust-role state, and the role container's ARN as reported by the lookup or
/// by its creation.
#[derive(Debug, Clone)]
pub struct ResolutionLookups {
    pub configured_vpc: Option<String>,
    pub default_vpc: Option<String>,
    pub subnet_id: Option<String>,
    pub subnet_vpc: Option<String>,
    pub trust_role: TrustRoleState,
    pub instance_profile_arn: Option<String>,
    pub instance_profile_name: String,
}

pub open spec fn string_opt(o: Option<String>) -> Option<Seq<char>> {
    match o {
        Some(s) => Some(s@),
        None => None,
    }
}

/// The (network, subnet, container ARN) that a resolution from `l` yields, if any.
pub open spec fn resolved_ids(l: ResolutionLookups) -> Option<(Seq<char>, Seq<char>, Seq<char>)> {
    match (chosen_network(string_opt(l.configured_vpc), string_opt(l.default_vpc)), l.subnet_id, l.subnet_vpc, l.instance_profile_arn) {
        (Some(v), Some(sub), Some(owner), Some(arn)) => if owner@ == v {
            Some((v, sub@, arn@))
        } else {
            None
        },
        _ => None,
    }
}

/// The infrastructure from one resolution's lookups.
pub fn resolve_infrastructure(l: &ResolutionLookups) -> (r: Result<Infrastructure>)
    ensures
        r is Ok <==> resolved_ids(*l) is Some,
        r is Ok ==> {
            let ids = resolved_ids(*l)->Some_0;
            &&& r->Ok_0.vpc_id@ == ids.0
            &&& r->Ok_0.subnet_id@ == ids.1
            &&& r->Ok_0.instance_profile_arn@ == ids.2
            &&& r->Ok_0.instance_profile_name@ == l.instance_profile_name@
        },
{
    let configured = match &l.configured_vpc {
        Some(v) => Some(v.as_str()),
        None => None,
    };
    let default = match &l.default_vpc {
        Some(v) => Some(v.as_str()),
        None => None,
    };
    let subnet = match &l.subnet_id {
        Some(v) => Some(v.as_str()),
        None => None,
    };
    let owner = match &l.subnet_vpc {
        Some(v) => Some(v.as_str()),
        None => None,
    };
    let network = match resolve_network(configured, default, subnet, owner) {
        Ok(n) => n,
        Err(e) => return Err(e),
    };
    let arn = match &l.instance_profile_arn {
        Some(a) => a.clone(),
        None => return Err(Ec2CliError::ResourceNotFound(owned("No instance profile ARN"))),
    };
    Ok(assemble_infrastructure(network, arn, l.instance_profile_name.clone()))
}

/// Resolution round trip. Let a first resolution look up `first` and its plan's
/// calls succeed; let a second resolution, with no external change in between,
/// look up `second`: the same network answers and container, and the trust-role
/// state the first left. Then the second plans no mutating call, leaves the
/// trust-role state as it is, and yields the same network, subnet and ARN.
pub proof fn lemma_resolution_round_trip(first: ResolutionLookups, second: ResolutionLookups)
    requires
        string_opt(second.configured_vpc) == string_opt(first.configured_vpc),
        string_opt(second.default_vpc) == string_opt(first.default_vpc),
        string_opt(second.subnet_id) == string_opt(first.subnet_id),
        string_opt(second.subnet_vpc) == string_opt(first.subnet_vpc),
        string_opt(second.instance_profile_arn) == string_opt(first.instance_profile_arn),
        second.trust_role == after_plan(first.trust_role, trust_role_plan(first.trust_role)),
    ensures
        !plan_mutates(trust_role_plan(second.trust_role)),
        after_plan(second.trust_role, trust_role_plan(second.trust_role)) == second.trust_role,
        resolved_ids(second) == resolved_ids(first),
{
}

} // verus!
