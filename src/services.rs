pub mod inventory_service;
pub mod product_service;
