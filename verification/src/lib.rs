pub mod channel;
pub mod context;
pub mod fix;
pub mod peano;
pub mod protocol;
pub mod row;
pub mod shared;
pub mod session;
pub mod lists;
