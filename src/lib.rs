//! A terminal dashboard core: the application state machine, the layout of its
//! panels and what each panel shows, all independent of the terminal backend.

pub mod app;
pub mod float_client;
pub mod layout;
pub mod panels;
