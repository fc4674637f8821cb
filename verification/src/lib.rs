//! OAuth2 authorization-code and refresh-token flow logic for a loopback
//! callback listener: building the authorization URL, building the two
//! token-endpoint request forms, classifying callback query parameters,
//! parsing the token-endpoint JSON response, and deciding what each flow
//! step renders and persists.

pub mod flow;
pub mod pages;
pub mod refresh;
pub mod request;
pub mod text;
pub mod token;

pub use flow::Action;
pub use flow::Callback;
pub use flow::ExchangeError;
pub use flow::HttpOutcome;
pub use flow::StoreModel;
pub use flow::classify;
pub use flow::complete_exchange;
pub use flow::interpret_token_response;
pub use flow::lookup;
pub use flow::plan;
pub use pages::Page;
pub use pages::landing_page;
pub use pages::message_page;
pub use pages::success_page;
pub use refresh::RefreshOutcome;
pub use refresh::RefreshPlan;
pub use refresh::complete_refresh;
pub use refresh::plan_refresh;
pub use request::Context;
pub use request::authorize_url;
pub use request::code_exchange_form;
pub use request::refresh_form;
pub use text::str_eq;
pub use text::trim;
pub use token::TokenSet;
pub use token::parse_token_response;
