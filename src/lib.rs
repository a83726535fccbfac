//! Order engine of a small storefront: cart checkout, the payment state
//! machine, inventory adjustment and the shared request helpers, with their
//! contracts proved.
pub mod ids;
pub mod error;
pub mod response;
pub mod params;
pub mod model;
pub mod clock;
pub mod checkout;
pub mod store;
pub mod tables;
pub mod laws;
pub mod auth;
pub mod payment;
pub mod inventory;
pub mod dto;
pub mod credentials;
pub mod migrate;
pub mod text;
