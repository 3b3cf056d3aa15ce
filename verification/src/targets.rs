//! Which operation a request asks for: the `X-Amz-Target` header of the JSON
//! services, and the guards that route requests to each service.
use vstd::prelude::*;
use crate::text::{str_eq, starts_with};

verus! {

/// The operations of Cognito user pools; `Unknown` for any other target.
#[derive(Debug, Clone, Copy, PartialEq, Eq, Structural)]
pub enum CognitoOp {
    SignUp,
    ConfirmSignUp,
    AdminCreateUser,
    AdminGetUser,
    ListUsers,
    AdminDeleteUser,
    InitiateAuth,
    RespondToAuthChallenge,
    GlobalSignOut,
    GetUser,
    Unknown,
}

/// The operation a target names: `AWSCognitoIdentityProviderService.{Operation}`.
pub open spec fn cognito_op_of(target: Seq<char>) -> CognitoOp {
    if target == "AWSCognitoIdentityProviderService.SignUp"@ {
        CognitoOp::SignUp
    } else if target == "AWSCognitoIdentityProviderService.ConfirmSignUp"@ {
        CognitoOp::ConfirmSignUp
    } else if target == "AWSCognitoIdentityProviderService.AdminCreateUser"@ {
        CognitoOp::AdminCreateUser
    } else if target == "AWSCognitoIdentityProviderService.AdminGetUser"@ {
        CognitoOp::AdminGetUser
    } else if target == "AWSCognitoIdentityProviderService.ListUsers"@ {
        CognitoOp::ListUsers
    } else if target == "AWSCognitoIdentityProviderService.AdminDeleteUser"@ {
        CognitoOp::AdminDeleteUser
    } else if target == "AWSCognitoIdentityProviderService.InitiateAuth"@ {
        CognitoOp::InitiateAuth
    } else if target == "AWSCognitoIdentityProviderService.RespondToAuthChallenge"@ {
        CognitoOp::RespondToAuthChallenge
    } else if target == "AWSCognitoIdentityProviderService.GlobalSignOut"@ {
        CognitoOp::GlobalSignOut
    } else if target == "AWSCognitoIdentityProviderService.GetUser"@ {
        CognitoOp::GetUser
    } else {
        CognitoOp::Unknown
    }
}

/// Reads the operation of a Cognito user pools request from its target.
pub fn cognito_operation(target: &str) -> (op: CognitoOp)
    ensures op == cognito_op_of(target@),
{
    if str_eq(target, "AWSCognitoIdentityProviderService.SignUp") {
        CognitoOp::SignUp
    } else if str_eq(target, "AWSCognitoIdentityProviderService.ConfirmSignUp") {
        CognitoOp::ConfirmSignUp
    } else if str_eq(target, "AWSCognitoIdentityProviderService.AdminCreateUser") {
        CognitoOp::AdminCreateUser
    } else if str_eq(target, "AWSCognitoIdentityProviderService.AdminGetUser") {
        CognitoOp::AdminGetUser
    } else if str_eq(target, "AWSCognitoIdentityProviderService.ListUsers") {
        CognitoOp::ListUsers
    } else if str_eq(target, "AWSCognitoIdentityProviderService.AdminDeleteUser") {
        CognitoOp::AdminDeleteUser
    } else if str_eq(target, "AWSCognitoIdentityProviderService.InitiateAuth") {
        CognitoOp::InitiateAuth
    } else if str_eq(target, "AWSCognitoIdentityProviderService.RespondToAuthChallenge") {
        CognitoOp::RespondToAuthChallenge
    } else if str_eq(target, "AWSCognitoIdentityProviderService.GlobalSignOut") {
        CognitoOp::GlobalSignOut
    } else if str_eq(target, "AWSCognitoIdentityProviderService.GetUser") {
        CognitoOp::GetUser
    } else {
        CognitoOp::Unknown
    }
}

/// Whether a request goes to Cognito user pools: its target begins with `AWSCognitoIdentityProviderService`.
pub fn is_cognito_target(target: Option<&str>) -> (b: bool)
    ensures b == (match target { Some(t) => "AWSCognitoIdentityProviderService"@.is_prefix_of(t@), None => false }),
{
    match target {
        Some(t) => starts_with(t, "AWSCognitoIdentityProviderService"),
        None => false,
    }
}

/// The operations of Secrets Manager; `Unknown` for any other target.
#[derive(Debug, Clone, Copy, PartialEq, Eq, Structural)]
pub enum SecretsOp {
    CreateSecret,
    GetSecretValue,
    PutSecretValue,
    UpdateSecret,
    DeleteSecret,
    DescribeSecret,
    ListSecrets,
    RestoreSecret,
    Unknown,
}

/// The operation a target names: `secretsmanager.{Operation}`.
pub open spec fn secrets_op_of(target: Seq<char>) -> SecretsOp {
    if target == "secretsmanager.CreateSecret"@ {
        SecretsOp::CreateSecret
    } else if target == "secretsmanager.GetSecretValue"@ {
        SecretsOp::GetSecretValue
    } else if target == "secretsmanager.PutSecretValue"@ {
        SecretsOp::PutSecretValue
    } else if target == "secretsmanager.UpdateSecret"@ {
        SecretsOp::UpdateSecret
    } else if target == "secretsmanager.DeleteSecret"@ {
        SecretsOp::DeleteSecret
    } else if target == "secretsmanager.DescribeSecret"@ {
        SecretsOp::DescribeSecret
    } else if target == "secretsmanager.ListSecrets"@ {
        SecretsOp::ListSecrets
    } else if target == "secretsmanager.RestoreSecret"@ {
        SecretsOp::RestoreSecret
    } else {
        SecretsOp::Unknown
    }
}

/// Reads the operation of a Secrets Manager request from its target.
pub fn secrets_operation(target: &str) -> (op: SecretsOp)
    ensures op == secrets_op_of(target@),
{
    if str_eq(target, "secretsmanager.CreateSecret") {
        SecretsOp::CreateSecret
    } else if str_eq(target, "secretsmanager.GetSecretValue") {
        SecretsOp::GetSecretValue
    } else if str_eq(target, "secretsmanager.PutSecretValue") {
        SecretsOp::PutSecretValue
    } else if str_eq(target, "secretsmanager.UpdateSecret") {
        SecretsOp::UpdateSecret
    } else if str_eq(target, "secretsmanager.DeleteSecret") {
        SecretsOp::DeleteSecret
    } else if str_eq(target, "secretsmanager.DescribeSecret") {
        SecretsOp::DescribeSecret
    } else if str_eq(target, "secretsmanager.ListSecrets") {
        SecretsOp::ListSecrets
    } else if str_eq(target, "secretsmanager.RestoreSecret") {
        SecretsOp::RestoreSecret
    } else {
        SecretsOp::Unknown
    }
}

/// Whether a request goes to Secrets Manager: its target begins with `secretsmanager`.
pub fn is_secrets_target(target: Option<&str>) -> (b: bool)
    ensures b == (match target { Some(t) => "secretsmanager"@.is_prefix_of(t@), None => false }),
{
    match target {
        Some(t) => starts_with(t, "secretsmanager"),
        None => false,
    }
}

/// The operations of classic EMR clusters; `Unknown` for any other target.
#[derive(Debug, Clone, Copy, PartialEq, Eq, Structural)]
pub enum EmrClassicOp {
    RunJobFlow,
    ListClusters,
    DescribeCluster,
    TerminateJobFlows,
    AddJobFlowSteps,
    ListSteps,
    DescribeStep,
    SetTerminationProtection,
    SetVisibleToAllUsers,
    Unknown,
}

/// The operation a target names: `ElasticMapReduce.{Operation}`.
pub open spec fn emr_classic_op_of(target: Seq<char>) -> EmrClassicOp {
    if target == "ElasticMapReduce.RunJobFlow"@ {
        EmrClassicOp::RunJobFlow
    } else if target == "ElasticMapReduce.ListClusters"@ {
        EmrClassicOp::ListClusters
    } else if target == "ElasticMapReduce.DescribeCluster"@ {
        EmrClassicOp::DescribeCluster
    } else if target == "ElasticMapReduce.TerminateJobFlows"@ {
        EmrClassicOp::TerminateJobFlows
    } else if target == "ElasticMapReduce.AddJobFlowSteps"@ {
        EmrClassicOp::AddJobFlowSteps
    } else if target == "ElasticMapReduce.ListSteps"@ {
        EmrClassicOp::ListSteps
    } else if target == "ElasticMapReduce.DescribeStep"@ {
        EmrClassicOp::DescribeStep
    } else if target == "ElasticMapReduce.SetTerminationProtection"@ {
        EmrClassicOp::SetTerminationProtection
    } else if target == "ElasticMapReduce.SetVisibleToAllUsers"@ {
        EmrClassicOp::SetVisibleToAllUsers
    } else {
        EmrClassicOp::Unknown
    }
}

/// Reads the operation of a classic EMR clusters request from its target.
pub fn emr_classic_operation(target: &str) -> (op: EmrClassicOp)
    ensures op == emr_classic_op_of(target@),
{
    if str_eq(target, "ElasticMapReduce.RunJobFlow") {
        EmrClassicOp::RunJobFlow
    } else if str_eq(target, "ElasticMapReduce.ListClusters") {
        EmrClassicOp::ListClusters
    } else if str_eq(target, "ElasticMapReduce.DescribeCluster") {
        EmrClassicOp::DescribeCluster
    } else if str_eq(target, "ElasticMapReduce.TerminateJobFlows") {
        EmrClassicOp::TerminateJobFlows
    } else if str_eq(target, "ElasticMapReduce.AddJobFlowSteps") {
        EmrClassicOp::AddJobFlowSteps
    } else if str_eq(target, "ElasticMapReduce.ListSteps") {
        EmrClassicOp::ListSteps
    } else if str_eq(target, "ElasticMapReduce.DescribeStep") {
        EmrClassicOp::DescribeStep
    } else if str_eq(target, "ElasticMapReduce.SetTerminationProtection") {
        EmrClassicOp::SetTerminationProtection
    } else if str_eq(target, "ElasticMapReduce.SetVisibleToAllUsers") {
        EmrClassicOp::SetVisibleToAllUsers
    } else {
        EmrClassicOp::Unknown
    }
}

/// Whether a request goes to classic EMR clusters: its target begins with `ElasticMapReduce`.
pub fn is_emr_classic_target(target: Option<&str>) -> (b: bool)
    ensures b == (match target { Some(t) => "ElasticMapReduce"@.is_prefix_of(t@), None => false }),
{
    match target {
        Some(t) => starts_with(t, "ElasticMapReduce"),
        None => false,
    }
}

/// Whether a Lambda invocation is queued rather than awaited: the
/// `X-Amz-Invocation-Type` header is `Event` (it defaults to `RequestResponse`).
pub fn is_async_invocation(invocation_type: Option<&str>) -> (b: bool)
    ensures b == (match invocation_type { Some(t) => t@ == "Event"@, None => false }),
{
    match invocation_type {
        Some(t) => str_eq(t, "Event"),
        None => false,
    }
}

/// The HTTP methods the S3 proxy forwards.
#[derive(Debug, Clone, Copy, PartialEq, Eq, Structural)]
pub enum HttpMethod {
    Get,
    Put,
    Post,
    Delete,
    Head,
    Options,
    Patch,
}

/// The method forwarded for a request method; any other method is forwarded as `GET`.
pub open spec fn method_of(m: Seq<char>) -> HttpMethod {
    if m == "GET"@ {
        HttpMethod::Get
    } else if m == "PUT"@ {
        HttpMethod::Put
    } else if m == "POST"@ {
        HttpMethod::Post
    } else if m == "DELETE"@ {
        HttpMethod::Delete
    } else if m == "HEAD"@ {
        HttpMethod::Head
    } else if m == "OPTIONS"@ {
        HttpMethod::Options
    } else if m == "PATCH"@ {
        HttpMethod::Patch
    } else {
        HttpMethod::Get
    }
}

/// Maps a request method to the method the proxy forwards.
pub fn forward_method(m: &str) -> (r: HttpMethod)
    ensures r == method_of(m@),
{
    if str_eq(m, "GET") {
        HttpMethod::Get
    } else if str_eq(m, "PUT") {
        HttpMethod::Put
    } else if str_eq(m, "POST") {
        HttpMethod::Post
    } else if str_eq(m, "DELETE") {
        HttpMethod::Delete
    } else if str_eq(m, "HEAD") {
        HttpMethod::Head
    } else if str_eq(m, "OPTIONS") {
        HttpMethod::Options
    } else if str_eq(m, "PATCH") {
        HttpMethod::Patch
    } else {
        HttpMethod::Get
    }
}

/// Each target `AWSCognitoIdentityProviderService.{Operation}` of the supported
/// operations is routed to the operation of that name, and only a target
/// outside them to `Unknown`.
pub proof fn lemma_cognito_routes(target: Seq<char>)
    ensures
        target == "AWSCognitoIdentityProviderService.SignUp"@ ==> cognito_op_of(target) == CognitoOp::SignUp,
        target == "AWSCognitoIdentityProviderService.ConfirmSignUp"@ ==> cognito_op_of(target) == CognitoOp::ConfirmSignUp,
        target == "AWSCognitoIdentityProviderService.AdminCreateUser"@ ==> cognito_op_of(target) == CognitoOp::AdminCreateUser,
        target == "AWSCognitoIdentityProviderService.AdminGetUser"@ ==> cognito_op_of(target) == CognitoOp::AdminGetUser,
        target == "AWSCognitoIdentityProviderService.ListUsers"@ ==> cognito_op_of(target) == CognitoOp::ListUsers,
        target == "AWSCognitoIdentityProviderService.AdminDeleteUser"@ ==> cognito_op_of(target) == CognitoOp::AdminDeleteUser,
        target == "AWSCognitoIdentityProviderService.InitiateAuth"@ ==> cognito_op_of(target) == CognitoOp::InitiateAuth,
        target == "AWSCognitoIdentityProviderService.RespondToAuthChallenge"@ ==> cognito_op_of(target) == CognitoOp::RespondToAuthChallenge,
        target == "AWSCognitoIdentityProviderService.GlobalSignOut"@ ==> cognito_op_of(target) == CognitoOp::GlobalSignOut,
        target == "AWSCognitoIdentityProviderService.GetUser"@ ==> cognito_op_of(target) == CognitoOp::GetUser,
        (cognito_op_of(target) == CognitoOp::Unknown) == (
            target != "AWSCognitoIdentityProviderService.SignUp"@ &&
            target != "AWSCognitoIdentityProviderService.ConfirmSignUp"@ &&
            target != "AWSCognitoIdentityProviderService.AdminCreateUser"@ &&
            target != "AWSCognitoIdentityProviderService.AdminGetUser"@ &&
            target != "AWSCognitoIdentityProviderService.ListUsers"@ &&
            target != "AWSCognitoIdentityProviderService.AdminDeleteUser"@ &&
            target != "AWSCognitoIdentityProviderService.InitiateAuth"@ &&
            target != "AWSCognitoIdentityProviderService.RespondToAuthChallenge"@ &&
            target != "AWSCognitoIdentityProviderService.GlobalSignOut"@ &&
            target != "AWSCognitoIdentityProviderService.GetUser"@),
{
    reveal_strlit("AWSCognitoIdentityProviderService.SignUp");
    reveal_strlit("AWSCognitoIdentityProviderService.ConfirmSignUp");
    reveal_strlit("AWSCognitoIdentityProviderService.AdminCreateUser");
    reveal_strlit("AWSCognitoIdentityProviderService.AdminGetUser");
    reveal_strlit("AWSCognitoIdentityProviderService.ListUsers");
    reveal_strlit("AWSCognitoIdentityProviderService.AdminDeleteUser");
    reveal_strlit("AWSCognitoIdentityProviderService.InitiateAuth");
    reveal_strlit("AWSCognitoIdentityProviderService.RespondToAuthChallenge");
    reveal_strlit("AWSCognitoIdentityProviderService.GlobalSignOut");
    reveal_strlit("AWSCognitoIdentityProviderService.GetUser");
    // The targets differ pairwise, by their length or by one character.
    assert("AWSCognitoIdentityProviderService.SignUp"@.len() != "AWSCognitoIdentityProviderService.ConfirmSignUp"@.len());
    assert("AWSCognitoIdentityProviderService.SignUp"@.len() != "AWSCognitoIdentityProviderService.AdminCreateUser"@.len());
    assert("AWSCognitoIdentityProviderService.SignUp"@.len() != "AWSCognitoIdentityProviderService.AdminGetUser"@.len());
    assert("AWSCognitoIdentityProviderService.SignUp"@.len() != "AWSCognitoIdentityProviderService.ListUsers"@.len());
    assert("AWSCognitoIdentityProviderService.SignUp"@.len() != "AWSCognitoIdentityProviderService.AdminDeleteUser"@.len());
    assert("AWSCognitoIdentityProviderService.SignUp"@.len() != "AWSCognitoIdentityProviderService.InitiateAuth"@.len());
    assert("AWSCognitoIdentityProviderService.SignUp"@.len() != "AWSCognitoIdentityProviderService.RespondToAuthChallenge"@.len());
    assert("AWSCognitoIdentityProviderService.SignUp"@.len() != "AWSCognitoIdentityProviderService.GlobalSignOut"@.len());
    assert("AWSCognitoIdentityProviderService.SignUp"@.len() != "AWSCognitoIdentityProviderService.GetUser"@.len());
    assert("AWSCognitoIdentityProviderService.ConfirmSignUp"@.len() != "AWSCognitoIdentityProviderService.AdminCreateUser"@.len());
    assert("AWSCognitoIdentityProviderService.ConfirmSignUp"@.len() != "AWSCognitoIdentityProviderService.AdminGetUser"@.len());
    assert("AWSCognitoIdentityProviderService.ConfirmSignUp"@.len() != "AWSCognitoIdentityProviderService.ListUsers"@.len());
    assert("AWSCognitoIdentityProviderService.ConfirmSignUp"@.len() != "AWSCognitoIdentityProviderService.AdminDeleteUser"@.len());
    assert("AWSCognitoIdentityProviderService.ConfirmSignUp"@.len() != "AWSCognitoIdentityProviderService.InitiateAuth"@.len());
    assert("AWSCognitoIdentityProviderService.ConfirmSignUp"@.len() != "AWSCognitoIdentityProviderService.RespondToAuthChallenge"@.len());
    assert("AWSCognitoIdentityProviderService.ConfirmSignUp"@[34] != "AWSCognitoIdentityProviderService.GlobalSignOut"@[34]);
    assert("AWSCognitoIdentityProviderService.ConfirmSignUp"@.len() != "AWSCognitoIdentityProviderService.GetUser"@.len());
    assert("AWSCognitoIdentityProviderService.AdminCreateUser"@.len() != "AWSCognitoIdentityProviderService.AdminGetUser"@.len());
    assert("AWSCognitoIdentityProviderService.AdminCreateUser"@.len() != "AWSCognitoIdentityProviderService.ListUsers"@.len());
    assert("AWSCognitoIdentityProviderService.AdminCreateUser"@[39] != "AWSCognitoIdentityProviderService.AdminDeleteUser"@[39]);
    assert("AWSCognitoIdentityProviderService.AdminCreateUser"@.len() != "AWSCognitoIdentityProviderService.InitiateAuth"@.len());
    assert("AWSCognitoIdentityProviderService.AdminCreateUser"@.len() != "AWSCognitoIdentityProviderService.RespondToAuthChallenge"@.len());
    assert("AWSCognitoIdentityProviderService.AdminCreateUser"@.len() != "AWSCognitoIdentityProviderService.GlobalSignOut"@.len());
    assert("AWSCognitoIdentityProviderService.AdminCreateUser"@.len() != "AWSCognitoIdentityProviderService.GetUser"@.len());
    assert("AWSCognitoIdentityProviderService.AdminGetUser"@.len() != "AWSCognitoIdentityProviderService.ListUsers"@.len());
    assert("AWSCognitoIdentityProviderService.AdminGetUser"@.len() != "AWSCognitoIdentityProviderService.AdminDeleteUser"@.len());
    assert("AWSCognitoIdentityProviderService.AdminGetUser"@[34] != "AWSCognitoIdentityProviderService.InitiateAuth"@[34]);
    assert("AWSCognitoIdentityProviderService.AdminGetUser"@.len() != "AWSCognitoIdentityProviderService.RespondToAuthChallenge"@.len());
    assert("AWSCognitoIdentityProviderService.AdminGetUser"@.len() != "AWSCognitoIdentityProviderService.GlobalSignOut"@.len());
    assert("AWSCognitoIdentityProviderService.AdminGetUser"@.len() != "AWSCognitoIdentityProviderService.GetUser"@.len());
    assert("AWSCognitoIdentityProviderService.ListUsers"@.len() != "AWSCognitoIdentityProviderService.AdminDeleteUser"@.len());
    assert("AWSCognitoIdentityProviderService.ListUsers"@.len() != "AWSCognitoIdentityProviderService.InitiateAuth"@.len());
    assert("AWSCognitoIdentityProviderService.ListUsers"@.len() != "AWSCognitoIdentityProviderService.RespondToAuthChallenge"@.len());
    assert("AWSCognitoIdentityProviderService.ListUsers"@.len() != "AWSCognitoIdentityProviderService.GlobalSignOut"@.len());
    assert("AWSCognitoIdentityProviderService.ListUsers"@.len() != "AWSCognitoIdentityProviderService.GetUser"@.len());
    assert("AWSCognitoIdentityProviderService.AdminDeleteUser"@.len() != "AWSCognitoIdentityProviderService.InitiateAuth"@.len());
    assert("AWSCognitoIdentityProviderService.AdminDeleteUser"@.len() != "AWSCognitoIdentityProviderService.RespondToAuthChallenge"@.len());
    assert("AWSCognitoIdentityProviderService.AdminDeleteUser"@.len() != "AWSCognitoIdentityProviderService.GlobalSignOut"@.len());
    assert("AWSCognitoIdentityProviderService.AdminDeleteUser"@.len() != "AWSCognitoIdentityProviderService.GetUser"@.len());
    assert("AWSCognitoIdentityProviderService.InitiateAuth"@.len() != "AWSCognitoIdentityProviderService.RespondToAuthChallenge"@.len());
    assert("AWSCognitoIdentityProviderService.InitiateAuth"@.len() != "AWSCognitoIdentityProviderService.GlobalSignOut"@.len());
    assert("AWSCognitoIdentityProviderService.InitiateAuth"@.len() != "AWSCognitoIdentityProviderService.GetUser"@.len());
    assert("AWSCognitoIdentityProviderService.RespondToAuthChallenge"@.len() != "AWSCognitoIdentityProviderService.GlobalSignOut"@.len());
    assert("AWSCognitoIdentityProviderService.RespondToAuthChallenge"@.len() != "AWSCognitoIdentityProviderService.GetUser"@.len());
    assert("AWSCognitoIdentityProviderService.GlobalSignOut"@.len() != "AWSCognitoIdentityProviderService.GetUser"@.len());
}

/// Each target `secretsmanager.{Operation}` of the eight operations is routed
/// to the operation of that name, and only a target outside them to `Unknown`.
pub proof fn lemma_secrets_routes(target: Seq<char>)
    ensures
        target == "secretsmanager.CreateSecret"@ ==> secrets_op_of(target) == SecretsOp::CreateSecret,
        target == "secretsmanager.GetSecretValue"@ ==> secrets_op_of(target) == SecretsOp::GetSecretValue,
        target == "secretsmanager.PutSecretValue"@ ==> secrets_op_of(target) == SecretsOp::PutSecretValue,
        target == "secretsmanager.UpdateSecret"@ ==> secrets_op_of(target) == SecretsOp::UpdateSecret,
        target == "secretsmanager.DeleteSecret"@ ==> secrets_op_of(target) == SecretsOp::DeleteSecret,
        target == "secretsmanager.DescribeSecret"@ ==> secrets_op_of(target) == SecretsOp::DescribeSecret,
        target == "secretsmanager.ListSecrets"@ ==> secrets_op_of(target) == SecretsOp::ListSecrets,
        target == "secretsmanager.RestoreSecret"@ ==> secrets_op_of(target) == SecretsOp::RestoreSecret,
        (secrets_op_of(target) == SecretsOp::Unknown) == (
            target != "secretsmanager.CreateSecret"@ &&
            target != "secretsmanager.GetSecretValue"@ &&
            target != "secretsmanager.PutSecretValue"@ &&
            target != "secretsmanager.UpdateSecret"@ &&
            target != "secretsmanager.DeleteSecret"@ &&
            target != "secretsmanager.DescribeSecret"@ &&
            target != "secretsmanager.ListSecrets"@ &&
            target != "secretsmanager.RestoreSecret"@),
{
    reveal_strlit("secretsmanager.CreateSecret");
    reveal_strlit("secretsmanager.GetSecretValue");
    reveal_strlit("secretsmanager.PutSecretValue");
    reveal_strlit("secretsmanager.UpdateSecret");
    reveal_strlit("secretsmanager.DeleteSecret");
    reveal_strlit("secretsmanager.DescribeSecret");
    reveal_strlit("secretsmanager.ListSecrets");
    reveal_strlit("secretsmanager.RestoreSecret");
    // The targets differ pairwise, by their length or by one character.
    assert("secretsmanager.CreateSecret"@.len() != "secretsmanager.GetSecretValue"@.len());
    assert("secretsmanager.CreateSecret"@.len() != "secretsmanager.PutSecretValue"@.len());
    assert("secretsmanager.CreateSecret"@[15] != "secretsmanager.UpdateSecret"@[15]);
    assert("secretsmanager.CreateSecret"@[15] != "secretsmanager.DeleteSecret"@[15]);
    assert("secretsmanager.CreateSecret"@.len() != "secretsmanager.DescribeSecret"@.len());
    assert("secretsmanager.CreateSecret"@.len() != "secretsmanager.ListSecrets"@.len());
    assert("secretsmanager.CreateSecret"@.len() != "secretsmanager.RestoreSecret"@.len());
    assert("secretsmanager.GetSecretValue"@[15] != "secretsmanager.PutSecretValue"@[15]);
    assert("secretsmanager.GetSecretValue"@.len() != "secretsmanager.UpdateSecret"@.len());
    assert("secretsmanager.GetSecretValue"@.len() != "secretsmanager.DeleteSecret"@.len());
    assert("secretsmanager.GetSecretValue"@[15] != "secretsmanager.DescribeSecret"@[15]);
    assert("secretsmanager.GetSecretValue"@.len() != "secretsmanager.ListSecrets"@.len());
    assert("secretsmanager.GetSecretValue"@.len() != "secretsmanager.RestoreSecret"@.len());
    assert("secretsmanager.PutSecretValue"@.len() != "secretsmanager.UpdateSecret"@.len());
    assert("secretsmanager.PutSecretValue"@.len() != "secretsmanager.DeleteSecret"@.len());
    assert("secretsmanager.PutSecretValue"@[15] != "secretsmanager.DescribeSecret"@[15]);
    assert("secretsmanager.PutSecretValue"@.len() != "secretsmanager.ListSecrets"@.len());
    assert("secretsmanager.PutSecretValue"@.len() != "secretsmanager.RestoreSecret"@.len());
    assert("secretsmanager.UpdateSecret"@[15] != "secretsmanager.DeleteSecret"@[15]);
    assert("secretsmanager.UpdateSecret"@.len() != "secretsmanager.DescribeSecret"@.len());
    assert("secretsmanager.UpdateSecret"@.len() != "secretsmanager.ListSecrets"@.len());
    assert("secretsmanager.UpdateSecret"@.len() != "secretsmanager.RestoreSecret"@.len());
    assert("secretsmanager.DeleteSecret"@.len() != "secretsmanager.DescribeSecret"@.len());
    assert("secretsmanager.DeleteSecret"@.len() != "secretsmanager.ListSecrets"@.len());
    assert("secretsmanager.DeleteSecret"@.len() != "secretsmanager.RestoreSecret"@.len());
    assert("secretsmanager.DescribeSecret"@.len() != "secretsmanager.ListSecrets"@.len());
    assert("secretsmanager.DescribeSecret"@.len() != "secretsmanager.RestoreSecret"@.len());
    assert("secretsmanager.ListSecrets"@.len() != "secretsmanager.RestoreSecret"@.len());
}

/// Each target `ElasticMapReduce.{Operation}` of the supported operations is
/// routed to the operation of that name, and only a target outside them to
/// `Unknown`.
pub proof fn lemma_emr_classic_routes(target: Seq<char>)
    ensures
        target == "ElasticMapReduce.RunJobFlow"@ ==> emr_classic_op_of(target) == EmrClassicOp::RunJobFlow,
        target == "ElasticMapReduce.ListClusters"@ ==> emr_classic_op_of(target) == EmrClassicOp::ListClusters,
        target == "ElasticMapReduce.DescribeCluster"@ ==> emr_classic_op_of(target) == EmrClassicOp::DescribeCluster,
        target == "ElasticMapReduce.TerminateJobFlows"@ ==> emr_classic_op_of(target) == EmrClassicOp::TerminateJobFlows,
        target == "ElasticMapReduce.AddJobFlowSteps"@ ==> emr_classic_op_of(target) == EmrClassicOp::AddJobFlowSteps,
        target == "ElasticMapReduce.ListSteps"@ ==> emr_classic_op_of(target) == EmrClassicOp::ListSteps,
        target == "ElasticMapReduce.DescribeStep"@ ==> emr_classic_op_of(target) == EmrClassicOp::DescribeStep,
        target == "ElasticMapReduce.SetTerminationProtection"@ ==> emr_classic_op_of(target) == EmrClassicOp::SetTerminationProtection,
        target == "ElasticMapReduce.SetVisibleToAllUsers"@ ==> emr_classic_op_of(target) == EmrClassicOp::SetVisibleToAllUsers,
        (emr_classic_op_of(target) == EmrClassicOp::Unknown) == (
            target != "ElasticMapReduce.RunJobFlow"@ &&
            target != "ElasticMapReduce.ListClusters"@ &&
            target != "ElasticMapReduce.DescribeCluster"@ &&
            target != "ElasticMapReduce.TerminateJobFlows"@ &&
            target != "ElasticMapReduce.AddJobFlowSteps"@ &&
            target != "ElasticMapReduce.ListSteps"@ &&
            target != "ElasticMapReduce.DescribeStep"@ &&
            target != "ElasticMapReduce.SetTerminationProtection"@ &&
            target != "ElasticMapReduce.SetVisibleToAllUsers"@),
{
    reveal_strlit("ElasticMapReduce.RunJobFlow");
    reveal_strlit("ElasticMapReduce.ListClusters");
    reveal_strlit("ElasticMapReduce.DescribeCluster");
    reveal_strlit("ElasticMapReduce.TerminateJobFlows");
    reveal_strlit("ElasticMapReduce.AddJobFlowSteps");
    reveal_strlit("ElasticMapReduce.ListSteps");
    reveal_strlit("ElasticMapReduce.DescribeStep");
    reveal_strlit("ElasticMapReduce.SetTerminationProtection");
    reveal_strlit("ElasticMapReduce.SetVisibleToAllUsers");
    // The targets differ pairwise, by their length or by one character.
    assert("ElasticMapReduce.RunJobFlow"@.len() != "ElasticMapReduce.ListClusters"@.len());
    assert("ElasticMapReduce.RunJobFlow"@.len() != "ElasticMapReduce.DescribeCluster"@.len());
    assert("ElasticMapReduce.RunJobFlow"@.len() != "ElasticMapReduce.TerminateJobFlows"@.len());
    assert("ElasticMapReduce.RunJobFlow"@.len() != "ElasticMapReduce.AddJobFlowSteps"@.len());
    assert("ElasticMapReduce.RunJobFlow"@.len() != "ElasticMapReduce.ListSteps"@.len());
    assert("ElasticMapReduce.RunJobFlow"@.len() != "ElasticMapReduce.DescribeStep"@.len());
    assert("ElasticMapReduce.RunJobFlow"@.len() != "ElasticMapReduce.SetTerminationProtection"@.len());
    assert("ElasticMapReduce.RunJobFlow"@.len() != "ElasticMapReduce.SetVisibleToAllUsers"@.len());
    assert("ElasticMapReduce.ListClusters"@.len() != "ElasticMapReduce.DescribeCluster"@.len());
    assert("ElasticMapReduce.ListClusters"@.len() != "ElasticMapReduce.TerminateJobFlows"@.len());
    assert("ElasticMapReduce.ListClusters"@.len() != "ElasticMapReduce.AddJobFlowSteps"@.len());
    assert("ElasticMapReduce.ListClusters"@.len() != "ElasticMapReduce.ListSteps"@.len());
    assert("ElasticMapReduce.ListClusters"@[17] != "ElasticMapReduce.DescribeStep"@[17]);
    assert("ElasticMapReduce.ListClusters"@.len() != "ElasticMapReduce.SetTerminationProtection"@.len());
    assert("ElasticMapReduce.ListClusters"@.len() != "ElasticMapReduce.SetVisibleToAllUsers"@.len());
    assert("ElasticMapReduce.DescribeCluster"@.len() != "ElasticMapReduce.TerminateJobFlows"@.len());
    assert("ElasticMapReduce.DescribeCluster"@[17] != "ElasticMapReduce.AddJobFlowSteps"@[17]);
    assert("ElasticMapReduce.DescribeCluster"@.len() != "ElasticMapReduce.ListSteps"@.len());
    assert("ElasticMapReduce.DescribeCluster"@.len() != "ElasticMapReduce.DescribeStep"@.len());
    assert("ElasticMapReduce.DescribeCluster"@.len() != "ElasticMapReduce.SetTerminationProtection"@.len());
    assert("ElasticMapReduce.DescribeCluster"@.len() != "ElasticMapReduce.SetVisibleToAllUsers"@.len());
    assert("ElasticMapReduce.TerminateJobFlows"@.len() != "ElasticMapReduce.AddJobFlowSteps"@.len());
    assert("ElasticMapReduce.TerminateJobFlows"@.len() != "ElasticMapReduce.ListSteps"@.len());
    assert("ElasticMapReduce.TerminateJobFlows"@.len() != "ElasticMapReduce.DescribeStep"@.len());
    assert("ElasticMapReduce.TerminateJobFlows"@.len() != "ElasticMapReduce.SetTerminationProtection"@.len());
    assert("ElasticMapReduce.TerminateJobFlows"@.len() != "ElasticMapReduce.SetVisibleToAllUsers"@.len());
    assert("ElasticMapReduce.AddJobFlowSteps"@.len() != "ElasticMapReduce.ListSteps"@.len());
    assert("ElasticMapReduce.AddJobFlowSteps"@.len() != "ElasticMapReduce.DescribeStep"@.len());
    assert("ElasticMapReduce.AddJobFlowSteps"@.len() != "ElasticMapReduce.SetTerminationProtection"@.len());
    assert("ElasticMapReduce.AddJobFlowSteps"@.len() != "ElasticMapReduce.SetVisibleToAllUsers"@.len());
    assert("ElasticMapReduce.ListSteps"@.len() != "ElasticMapReduce.DescribeStep"@.len());
    assert("ElasticMapReduce.ListSteps"@.len() != "ElasticMapReduce.SetTerminationProtection"@.len());
    assert("ElasticMapReduce.ListSteps"@.len() != "ElasticMapReduce.SetVisibleToAllUsers"@.len());
    assert("ElasticMapReduce.DescribeStep"@.len() != "ElasticMapReduce.SetTerminationProtection"@.len());
    assert("ElasticMapReduce.DescribeStep"@.len() != "ElasticMapReduce.SetVisibleToAllUsers"@.len());
    assert("ElasticMapReduce.SetTerminationProtection"@.len() != "ElasticMapReduce.SetVisibleToAllUsers"@.len());
}

/// Each of the seven methods is forwarded as itself, and any other method as `GET`.
pub proof fn lemma_forwarded_methods(m: Seq<char>)
    ensures
        m == "GET"@ ==> method_of(m) == HttpMethod::Get,
        m == "PUT"@ ==> method_of(m) == HttpMethod::Put,
        m == "POST"@ ==> method_of(m) == HttpMethod::Post,
        m == "DELETE"@ ==> method_of(m) == HttpMethod::Delete,
        m == "HEAD"@ ==> method_of(m) == HttpMethod::Head,
        m == "OPTIONS"@ ==> method_of(m) == HttpMethod::Options,
        m == "PATCH"@ ==> method_of(m) == HttpMethod::Patch,
        (m != "PUT"@ && m != "POST"@ && m != "DELETE"@ && m != "HEAD"@ && m != "OPTIONS"@ && m != "PATCH"@) ==> method_of(m) == HttpMethod::Get,
{
    reveal_strlit("GET");
    reveal_strlit("PUT");
    reveal_strlit("POST");
    reveal_strlit("DELETE");
    reveal_strlit("HEAD");
    reveal_strlit("OPTIONS");
    reveal_strlit("PATCH");
    // The methods differ pairwise, by their length or by one character.
    assert("GET"@[0] != "PUT"@[0]);
    assert("GET"@.len() != "POST"@.len());
    assert("GET"@.len() != "DELETE"@.len());
    assert("GET"@.len() != "HEAD"@.len());
    assert("GET"@.len() != "OPTIONS"@.len());
    assert("GET"@.len() != "PATCH"@.len());
    assert("PUT"@.len() != "POST"@.len());
    assert("PUT"@.len() != "DELETE"@.len());
    assert("PUT"@.len() != "HEAD"@.len());
    assert("PUT"@.len() != "OPTIONS"@.len());
    assert("PUT"@.len() != "PATCH"@.len());
    assert("POST"@.len() != "DELETE"@.len());
    assert("POST"@[0] != "HEAD"@[0]);
    assert("POST"@.len() != "OPTIONS"@.len());
    assert("POST"@.len() != "PATCH"@.len());
    assert("DELETE"@.len() != "HEAD"@.len());
    assert("DELETE"@.len() != "OPTIONS"@.len());
    assert("DELETE"@.len() != "PATCH"@.len());
    assert("HEAD"@.len() != "OPTIONS"@.len());
    assert("HEAD"@.len() != "PATCH"@.len());
    assert("OPTIONS"@.len() != "PATCH"@.len());
}

} // verus!
