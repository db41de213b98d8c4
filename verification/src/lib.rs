//! The logic of a small social-content platform made of token, profile,
//! community, content and voting contracts: each contract's storage is a
//! value of this library, each entry point a verified function over it.

pub mod word;
pub mod keymap;
pub mod erc20;
pub mod calls;
pub mod user_profiles;
pub mod names;
pub mod user_meta_data;
pub mod communities;
pub mod content_work;
pub mod voters;
pub mod safe_registration;
pub mod voting_connector;
pub mod connector;
pub mod content_connector;
pub mod text;
