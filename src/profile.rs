//! Named configuration profiles: instance size, image selector, storage, packages, environment.
use vstd::prelude::*;

use crate::error::{Ec2CliError, Result};
use crate::strmap::StringMap;
use crate::text::{concat3, owned, same_text};

verus! {

/// A named configuration profile.
#[derive(Debug, Clone)]
pub struct Profile {
    pub name: String,
    pub instance: InstanceConfig,
    pub packages: PackageConfig,
    pub environment: StringMap,
}

/// Instance size and image selection.
#[derive(Debug, Clone)]
pub struct InstanceConfig {
    pub instance_type: String,
    pub fallback_types: Vec<String>,
    pub ami: AmiConfig,
    pub storage: StorageConfig,
}

/// The image selector: an OS family and architecture, or an explicit image id.
#[derive(Debug, Clone)]
pub struct AmiConfig {
    pub ami_type: String,
    pub architecture: String,
    /// An explicit image id, used as given instead of a catalog lookup.
    pub id: Option<String>,
}

/// Storage settings.
#[derive(Debug, Clone)]
pub struct StorageConfig {
    pub root_volume: RootVolumeConfig,
}

/// Settings of the root block-storage volume.
#[derive(Debug, Clone)]
pub struct RootVolumeConfig {
    pub size_gb: u32,
    pub volume_type: String,
    pub iops: Option<u32>,
    pub throughput: Option<u32>,
}

/// Packages installed at first boot.
#[derive(Debug, Clone)]
pub struct PackageConfig {
    pub system: Vec<String>,
    pub rust: RustConfig,
    pub cargo: Vec<String>,
}

/// Toolchain installation settings.
#[derive(Debug, Clone)]
pub struct RustConfig {
    pub enabled: bool,
    pub channel: String,
    pub components: Vec<String>,
}

/// The views of a list of texts.
pub open spec fn texts(v: Seq<String>) -> Seq<Seq<char>> {
    v.map_values(|s: String| s@)
}

pub fn default_instance_type() -> (r: String)
    ensures
        r@ == "t3.large"@,
{
    owned("t3.large")
}

pub fn default_ami_type() -> (r: String)
    ensures
        r@ == "ubuntu-24.04"@,
{
    owned("ubuntu-24.04")
}

pub fn default_architecture() -> (r: String)
    ensures
        r@ == "x86_64"@,
{
    owned("x86_64")
}

pub fn default_volume_size() -> (r: u32)
    ensures
        r == 30,
{
    30
}

pub fn default_volume_type() -> (r: String)
    ensures
        r@ == "gp3"@,
{
    owned("gp3")
}

pub fn default_iops() -> (r: Option<u32>)
    ensures
        r == Some(3000u32),
{
    Some(3000)
}

pub fn default_true() -> (r: bool)
    ensures
        r,
{
    true
}

pub fn default_rust_channel() -> (r: String)
    ensures
        r@ == "stable"@,
{
    owned("stable")
}

impl Default for AmiConfig {
    fn default() -> (r: Self)
        ensures
            r.ami_type@ == "ubuntu-24.04"@,
            r.architecture@ == "x86_64"@,
            r.id is None,
    {
        AmiConfig {
            ami_type: default_ami_type(),
            architecture: default_architecture(),
            id: None,
        }
    }
}

impl Default for RootVolumeConfig {
    fn default() -> (r: Self)
        ensures
            r.size_gb == 30,
            r.volume_type@ == "gp3"@,
            r.iops == Some(3000u32),
            r.throughput == Some(125u32),
    {
        RootVolumeConfig {
            size_gb: default_volume_size(),
            volume_type: default_volume_type(),
            iops: default_iops(),
            throughput: Some(125),
        }
    }
}

impl Default for StorageConfig {
    fn default() -> (r: Self)
        ensures
            r.root_volume.size_gb == 30,
            r.root_volume.volume_type@ == "gp3"@,
            r.root_volume.iops == Some(3000u32),
            r.root_volume.throughput == Some(125u32),
    {
        StorageConfig { root_volume: RootVolumeConfig::default() }
    }
}

impl Default for InstanceConfig {
    fn default() -> (r: Self)
        ensures
            r.instance_type@ == "t3.large"@,
            texts(r.fallback_types@) == seq!["t3.medium"@],
            r.ami.ami_type@ == "ubuntu-24.04"@,
            r.ami.architecture@ == "x86_64"@,
            r.ami.id is None,
            r.storage.root_volume.size_gb == 30,
            r.storage.root_volume.volume_type@ == "gp3"@,
            r.storage.root_volume.iops == Some(3000u32),
            r.storage.root_volume.throughput == Some(125u32),
    {
        let r = InstanceConfig {
            instance_type: default_instance_type(),
            fallback_types: vec![owned("t3.medium")],
            ami: AmiConfig::default(),
            storage: StorageConfig::default(),
        };
        assert(texts(r.fallback_types@) =~= seq!["t3.medium"@]);
        r
    }
}

impl Default for RustConfig {
    fn default() -> (r: Self)
        ensures
            r.enabled,
            r.channel@ == "stable"@,
            texts(r.components@) == seq!["rustfmt"@, "clippy"@],
    {
        let r = RustConfig {
            enabled: default_true(),
            channel: default_rust_channel(),
            components: vec![owned("rustfmt"), owned("clippy")],
        };
        assert(texts(r.components@) =~= seq!["rustfmt"@, "clippy"@]);
        r
    }
}

impl Default for PackageConfig {
    fn default() -> (r: Self)
        ensures
            r.system@.len() == 0,
            r.rust.enabled,
            r.rust.channel@ == "stable"@,
            texts(r.rust.components@) == seq!["rustfmt"@, "clippy"@],
            r.cargo@.len() == 0,
    {
        PackageConfig { system: Vec::new(), rust: RustConfig::default(), cargo: Vec::new() }
    }
}

/// Whether `s` is one of the texts of `options`.
pub open spec fn one_of(s: Seq<char>, options: Seq<Seq<char>>) -> bool {
    exists|i: int| 0 <= i < options.len() && options[i] == s
}

pub open spec fn volume_types() -> Seq<Seq<char>> {
    seq!["gp2"@, "gp3"@, "io1"@, "io2"@, "st1"@, "sc1"@]
}

pub open spec fn architectures() -> Seq<Seq<char>> {
    seq!["x86_64"@, "arm64"@]
}

pub open spec fn ami_types() -> Seq<Seq<char>> {
    seq!["ubuntu-22.04"@, "ubuntu-24.04"@]
}

pub open spec fn rust_channels() -> Seq<Seq<char>> {
    seq!["stable"@, "beta"@, "nightly"@]
}

pub const MIN_VOLUME_GB: u32 = 8;

pub const MAX_VOLUME_GB: u32 = 16384;

pub(crate) fn is_one_of(s: &str, options: &[&str]) -> (r: bool)
    ensures
        r == one_of(s@, options@.map_values(|o: &str| o@)),
{
    let ghost views = options@.map_values(|o: &str| o@);
    let mut i: usize = 0;
    while i < options.len()
        invariant
            i <= options@.len(),
            views == options@.map_values(|o: &str| o@),
            forall|j: int| 0 <= j < i ==> views[j] != s@,
        decreases options@.len() - i,
    {
        if same_text(s, options[i]) {
            assert(views[i as int] == s@);
            return true;
        }
        i += 1;
    }
    false
}

impl Profile {
    /// Whether every field of the profile is acceptable.
    pub open spec fn is_valid(&self) -> bool {
        &&& self.name@.len() > 0
        &&& self.instance.instance_type@.len() > 0
        &&& MIN_VOLUME_GB <= self.instance.storage.root_volume.size_gb <= MAX_VOLUME_GB
        &&& one_of(self.instance.storage.root_volume.volume_type@, volume_types())
        &&& one_of(self.instance.ami.architecture@, architectures())
        &&& (self.instance.ami.id is None ==> one_of(self.instance.ami.ami_type@, ami_types()))
        &&& (self.packages.rust.enabled ==> one_of(self.packages.rust.channel@, rust_channels()))
    }

    /// The built-in profile.
    pub fn default_profile() -> (r: Self)
        ensures
            r.name@ == "default"@,
            r.instance.instance_type@ == "t3.large"@,
            texts(r.instance.fallback_types@) == seq!["t3.medium"@],
            r.instance.ami.ami_type@ == "ubuntu-24.04"@,
            r.instance.ami.architecture@ == "x86_64"@,
            r.instance.ami.id is None,
            r.instance.storage.root_volume.size_gb == 30,
            r.instance.storage.root_volume.volume_type@ == "gp3"@,
            r.instance.storage.root_volume.iops == Some(3000u32),
            r.instance.storage.root_volume.throughput == Some(125u32),
            texts(r.packages.system@) == seq![
                "build-essential"@,
                "libssl-dev"@,
                "pkg-config"@,
                "git"@,
            ],
            r.packages.rust.enabled,
            r.packages.rust.channel@ == "stable"@,
            texts(r.packages.rust.components@) == seq!["rustfmt"@, "clippy"@],
            r.packages.cargo@.len() == 0,
            r.environment@.len() == 0,
            r.environment.wf(),
    {
        let system = vec![
            owned("build-essential"),
            owned("libssl-dev"),
            owned("pkg-config"),
            owned("git"),
        ];
        assert(texts(system@) =~= seq!["build-essential"@, "libssl-dev"@, "pkg-config"@, "git"@]);
        Profile {
            name: owned("default"),
            instance: InstanceConfig::default(),
            packages: PackageConfig { system, rust: RustConfig::default(), cargo: Vec::new() },
            environment: StringMap::new(),
        }
    }

    /// Checks the profile's fields.
    pub fn validate(&self) -> (r: Result<()>)
        ensures
            r is Ok <==> self.is_valid(),
            r is Err ==> r->Err_0 is ProfileValidation,
    {
        if self.name.unicode_len() == 0 {
            return Err(Ec2CliError::ProfileValidation(owned("Profile name cannot be empty")));
        }
        if self.instance.instance_type.unicode_len() == 0 {
            return Err(Ec2CliError::ProfileValidation(owned("Instance type cannot be empty")));
        }
        let root = &self.instance.storage.root_volume;
        if root.size_gb < MIN_VOLUME_GB {
            return Err(Ec2CliError::ProfileValidation(owned("Root volume size must be at least 8 GB")));
        }
        if root.size_gb > MAX_VOLUME_GB {
            return Err(Ec2CliError::ProfileValidation(owned("Root volume size cannot exceed 16384 GB")));
        }
        let vts = ["gp2", "gp3", "io1", "io2", "st1", "sc1"];
        assert(vts@.map_values(|o: &str| o@) =~= volume_types());
        if !is_one_of(root.volume_type.as_str(), &vts) {
            return Err(Ec2CliError::ProfileValidation(concat3("Invalid volume type: ",
                root.volume_type.as_str(), ". Valid types: gp2, gp3, io1, io2, st1, sc1")));
        }
        let ami = &self.instance.ami;
        let archs = ["x86_64", "arm64"];
        assert(archs@.map_values(|o: &str| o@) =~= architectures());
        if !is_one_of(ami.architecture.as_str(), &archs) {
            return Err(Ec2CliError::ProfileValidation(concat3("Invalid architecture: ",
                ami.architecture.as_str(), ". Valid: x86_64, arm64")));
        }
        let amis = ["ubuntu-22.04", "ubuntu-24.04"];
        assert(amis@.map_values(|o: &str| o@) =~= ami_types());
        if ami.id.is_none() && !is_one_of(ami.ami_type.as_str(), &amis) {
            return Err(Ec2CliError::ProfileValidation(concat3("Invalid AMI type: ",
                ami.ami_type.as_str(), ". Valid: ubuntu-22.04, ubuntu-24.04")));
        }
        let chans = ["stable", "beta", "nightly"];
        assert(chans@.map_values(|o: &str| o@) =~= rust_channels());
        let rust = &self.packages.rust;
        if rust.enabled && !is_one_of(rust.channel.as_str(), &chans) {
            return Err(Ec2CliError::ProfileValidation(concat3("Invalid Rust channel: ",
                rust.channel.as_str(), ". Valid: stable, beta, nightly")));
        }
        Ok(())
    }
}

} // verus!
