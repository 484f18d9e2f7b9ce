pub mod address;
pub mod dispatch;
pub mod fee;
pub mod hook;
pub mod metas;
pub mod run;
