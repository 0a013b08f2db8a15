//! Terminal browsers for AWS services: the state, the rules and the texts of
//! each browser, as verified functions over plain values.

pub mod clock;
pub mod cloudwatch_logs;
pub mod command;
pub mod json;
pub mod keys;
pub mod numeral;
pub mod offsets;
pub mod order;
pub mod paging;
pub mod rows;
pub mod screen;
pub mod table;
pub mod tabs;
pub mod text;
pub mod url;
pub mod eventbridge;
pub mod sqs;
pub mod lambda;
pub mod rds;
pub mod sns;
pub mod codebuild;
pub mod amplify;
pub mod cognito;
pub mod ecr;
pub mod ecs;
