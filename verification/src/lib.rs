//! Backend SDK core: signed webhook protocol, tool registry, customer
//! authorization, Customer Hub calls and marketing registration.

pub mod auth;
pub mod customer;
pub mod customer_hub;
pub mod invoke;
pub mod json;
pub mod laws;
pub mod marketing;
pub mod protocol;
pub mod qefro;
pub mod signature;
pub mod source;
pub mod text;
pub mod tools;
pub mod webhook;

pub use crate::auth::{
    AuthBuilder, AuthOutcome, AuthenticationContextPayload, ChallengePayload, ChallengeSignal,
    ToolError,
};
pub use crate::customer::{
    Conversation, CustomerApi, CustomerAuthorizeContext, CustomerLookupContext, ToolContext,
};
pub use crate::json::{JsonObject, JsonValue};
pub use crate::protocol::{
    Headers, ListenOptions, QefroConfig, QefroRequest, QefroResponse, SDK_NAME, SDK_VERSION,
};
pub use crate::qefro::Qefro;
pub use crate::tools::{
    normalize_lookup, RegisteredTool, ToolAuthMode, ToolLookup, ToolMetadata,
};
