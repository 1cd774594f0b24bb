//! The AWS side of the library: commands of the AWS CLI, what AWS says of a denial
//! and the simulation of permissions.
pub use crate::context::AwsCommandContext;
pub use crate::diagnosis::{diagnose_authorization, discover_identity, Diagnosis};
pub use crate::errors::parse_aws_error;
pub use crate::simulation::simulate_permissions;
