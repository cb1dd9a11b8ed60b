//! Decision logic behind an OAuth "connect account" card.
//!
//! A request names an operation (show the status, start or complete a
//! sign-in, make sure a token exists, disconnect). The library asks a token
//! broker for what it needs and answers with a status, a card to render, and
//! the authorization artifacts that the caller may use.

pub mod broker;
pub mod component;
pub mod decode;
pub mod encode;
pub mod error;
pub mod json;
pub mod laws;
pub mod logic;
pub mod model;
pub mod reading;
pub mod response;
pub mod roundtrip;
pub mod shape;
pub mod text;

pub use broker::{default_backend, MockBroker, NoopBroker, OAuthBackend};
pub use component::{describe_payload, handle_message};
pub use decode::parse_input;
pub use error::OAuthCardError;
pub use logic::handle;
pub use model::{
    Action, AuthContext, AuthHeader, ImageRef, MessageCard, MessageCardKind, OAuthCardInput,
    OAuthCardMode, OAuthCardOutput, OAuthStatus, OauthCard, OauthPrompt, OauthProvider, TokenSet,
};
