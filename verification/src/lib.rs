//! The verified core of a small 3D application: a model and a light, drawn with
//! multisampling, with debug colliders, an interface on top and a song in the background.
//!
//! [`startup`] sets the graphics side up, [`app`] holds the running application,
//! [`frame`] lists the commands of a frame and [`validity`] shows that they make sense to
//! a model of a graphics device, while [`picture`] says what comes of them on the screen and
//! [`assembly`] what comes of the setup. Devices, windows and files are left to the shell
//! around this library: it performs what the functions here ask for, and hands back the
//! outcome.
pub mod app;
pub mod assembly;
pub mod format;
pub mod frame;
pub mod input;
pub mod model;
pub mod picture;
pub mod pipeline;
pub mod platform;
pub mod resources;
pub mod startup;
pub mod surface;
pub mod validity;
