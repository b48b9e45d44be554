//! A small safety layer around a native windowing/rendering library.
//!
//! The library models the native boundary on plain values: a native
//! reference is an address (`usize`, null being `0`) and an input event is
//! its integer type tag.  Everything the original glue decides — whether a
//! creation succeeded, whether a title may cross the boundary, how the
//! application lifecycle advances — is verified here; the caller performs
//! the actual native calls and hands the raw outcomes back.

pub mod enums;
pub mod events;
pub mod facade;
pub mod handles;
pub mod state;
pub mod text;

pub use enums::SDL3RendererType;
pub use facade::SDL3Wrapper;
pub use state::AppResult;
pub use state::ApplicationState;
pub use handles::SDL3RendererWrapper;
pub use handles::SDL3WindowWrapper;
