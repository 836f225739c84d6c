pub mod pipeline;
pub mod post;
pub mod remote_file;
pub mod render;
pub mod slug;
pub mod store;
pub mod text;
