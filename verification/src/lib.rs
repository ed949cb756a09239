//! Verified request-handling logic of the image library, the category
//! administration client, the page server and the sign-in flow.

pub mod text;
pub mod ids;
pub mod db_error;
pub mod image;
pub mod category;
pub mod image_flow;
pub mod pages;
pub mod signin;
pub mod meta;
