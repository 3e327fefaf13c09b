pub mod apt;
pub mod registry;
pub mod scheduler;
pub mod template;
pub mod text;
pub mod widget;
