pub mod text;
pub mod naming;
pub mod arn;
pub mod aws;
pub mod config;
pub mod error;
pub mod auth;
pub mod spark;
pub mod notification;
pub mod s3;
pub mod logs;
pub mod agent;
pub mod targets;
pub mod events;
pub mod emr;
pub mod lambda;
pub mod secrets;
pub mod cognito;
pub mod token;
