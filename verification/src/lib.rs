pub mod decode;
pub mod json;
pub mod outcome;
pub mod replace;
pub mod user_actions;
