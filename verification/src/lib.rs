//! Window lifecycle control for a desktop application that hosts several
//! webview windows: which windows a close request hides, which one ends the
//! application, how a secondary window is opened on demand, and in which order
//! the application shuts down.

pub mod greeting;
pub mod laws;
pub mod lifecycle;
pub mod model;
pub mod opener;
pub mod policy;
pub mod registry;
pub mod shutdown;
pub mod window;
