pub mod action_queue;
pub mod app;
pub mod event_stream;
pub mod hwmodule;
pub mod reading;
pub mod sensor;
pub mod view_state;
