use vstd::prelude::*;

verus! {

/// Errors reported by the instance lifecycle library.
#[derive(Debug, Clone)]
pub enum Ec2CliError {
    /// A profile field or a value embedded in the bootstrap script is invalid.
    ProfileValidation(String),
    /// A profile name is malformed.
    ProfileInvalid(String),
    /// No profile of that name exists.
    ProfileNotFound(String),
    /// A settings value (tag, region, network id) is malformed.
    Config(String),
    /// An SSH public key is malformed.
    SshKeyInvalid(String),
    /// A path argument is malformed.
    InvalidPath(String),
    /// A cloud resource (image, subnet) could not be found.
    ResourceNotFound(String),
    /// The configured subnet does not belong to the resolved network.
    SubnetMismatch(String),
    /// A bounded wait exceeded its deadline.
    Timeout(String),
    /// An instance reported a state outside the expected transitions.
    InstanceState(String),
    /// The instance does not exist.
    InstanceNotFound(String),
    /// A cloud API call failed.
    Api(String),
}

pub type Result<T> = core::result::Result<T, Ec2CliError>;

impl Ec2CliError {
    /// The message carried by the error.
    pub fn message(&self) -> (r: String)
    {
        match self {
            Ec2CliError::ProfileValidation(m) => m.clone(),
            Ec2CliError::ProfileInvalid(m) => m.clone(),
            Ec2CliError::ProfileNotFound(m) => m.clone(),
            Ec2CliError::Config(m) => m.clone(),
            Ec2CliError::SshKeyInvalid(m) => m.clone(),
            Ec2CliError::InvalidPath(m) => m.clone(),
            Ec2CliError::ResourceNotFound(m) => m.clone(),
            Ec2CliError::SubnetMismatch(m) => m.clone(),
            Ec2CliError::Timeout(m) => m.clone(),
            Ec2CliError::InstanceState(m) => m.clone(),
            Ec2CliError::InstanceNotFound(m) => m.clone(),
            Ec2CliError::Api(m) => m.clone(),
        }
    }
}

} // verus!
