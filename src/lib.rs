//! Product and inventory records, and the decisions a data-access layer over
//! them makes: partial updates, not-found outcomes, and the composition of
//! inventory rows onto their products under the one-row-per-product rule.
pub mod models;
pub mod outcome;
pub mod services;
