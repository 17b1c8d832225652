pub mod inventory_model;
pub mod product_model;
pub mod restock_history_model;
