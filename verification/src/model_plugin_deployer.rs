use vstd::prelude::*;
use vstd::string::StringExecFns;

verus! {

/// The schema languages a model can be written in.
#[derive(Debug, Clone, Copy, PartialEq, Eq, Structural)]
pub enum SchemaType {
    Unspecified,
    Graphql,
}

impl SchemaType {
    /// The schema type with wire code `value`, if there is one.
    pub fn from_i32(value: i32) -> (r: Option<SchemaType>)
        ensures
            r == (if value == 0 {
                Some(SchemaType::Unspecified)
            } else if value == 1 {
                Some(SchemaType::Graphql)
            } else {
                None::<SchemaType>
            }),
    {
        if value == 0 {
            Some(SchemaType::Unspecified)
        } else if value == 1 {
            Some(SchemaType::Graphql)
        } else {
            None
        }
    }
}

/// A request to deploy a model plugin.
pub struct DeployModelRequest {
    pub schema_type: i32,
}

impl Default for DeployModelRequest {
    fn default() -> (r: DeployModelRequest)
        ensures
            r.schema_type == 0,
    {
        DeployModelRequest { schema_type: 0 }
    }
}

pub struct DeployModelResponse {}

/// The status codes an RPC can end with.
#[derive(Debug, Clone, Copy, PartialEq, Eq, Structural)]
pub enum StatusCode {
    Success,
    Cancelled,
    Unknown,
    InvalidArgument,
    DeadlineExceeded,
    NotFound,
    AlreadyExists,
    PermissionDenied,
    ResourceExhausted,
    FailedPrecondition,
    Aborted,
    OutOfRange,
    Unimplemented,
    Internal,
    Unavailable,
    DataLoss,
    Unauthenticated,
}

/// How an RPC failed: its code and a message.
pub struct RpcStatus {
    pub code: StatusCode,
    pub message: String,
}

/// The service that deploys model plugins.
pub struct ModelPluginDeployer {}

impl ModelPluginDeployer {
    pub fn new() -> (r: ModelPluginDeployer) {
        ModelPluginDeployer {}
    }

    /// Deploys a model: only GraphQL schemas are handled; any other schema
    /// type is answered with an invalid-argument status.
    pub fn handle_deploy_model(&self, inner_request: DeployModelRequest) -> (r: Result<DeployModelResponse, RpcStatus>)
        ensures
            inner_request.schema_type == 1 ==> r is Ok,
            inner_request.schema_type != 1 ==> (r matches Err(s) && s.code == StatusCode::InvalidArgument
                && s.message@ == "Unhandled schema type"@),
    {
        proof {
            reveal_strlit("Unhandled schema type");
        }
        match SchemaType::from_i32(inner_request.schema_type) {
            Some(SchemaType::Graphql) => Ok(DeployModelResponse {}),
            _ => Err(RpcStatus { code: StatusCode::InvalidArgument, message: String::from_str("Unhandled schema type") }),
        }
    }
}

} // verus!
