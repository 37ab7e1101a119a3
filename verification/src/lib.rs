pub mod agent;
pub mod api;
pub mod decode;
pub mod json;
pub mod responses;
pub mod schemas;
pub mod text;
pub mod time;
