pub mod account;
pub mod marketplace;
pub mod listing;
pub mod offer;

