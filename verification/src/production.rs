pub mod cosntruct;
pub mod production_module;
pub mod single_product_storage;
