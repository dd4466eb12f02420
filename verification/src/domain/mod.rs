pub mod channel;
pub mod directory;
pub mod playlist;
pub mod shared;
pub mod video;
pub mod task;
pub mod event;
pub mod task_view;
