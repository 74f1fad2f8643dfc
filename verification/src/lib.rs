pub mod history;
pub mod type_map;
pub mod route;
pub mod appstate;
pub mod kit;
pub mod stack;
pub mod border;
pub mod cached;
pub mod press;
pub mod content;
pub mod input;
