//! The views.
pub mod emptyview;
pub mod spacer;
pub mod stack;
pub mod tap;
pub mod tap_p;
pub mod touch;
pub mod drag;
pub mod drag_p;
pub mod clip;
pub mod window;
pub mod cond;
pub mod background;
pub mod canvas;
pub mod geom;
pub mod key;
pub mod hover;
pub mod focus;
pub mod anyview;
pub mod handle;
pub mod list;
pub mod state;
pub mod command;
pub mod role;
pub mod modview;
