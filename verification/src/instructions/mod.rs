pub mod initialize;
pub mod list;
pub mod buy;
pub mod make_offer;
pub mod buyer_offer;
