//! Video frame buffers in the pixel layouts a real-time media track delivers,
//! their reduction to canonical I420, the checks that guard a conversion into
//! a packed RGB destination, and the state of the renderer that shows the
//! frames: the staging buffer, the texture handle and the order in which
//! frames reach the screen. Beside them: what a remote publication says
//! about its track, and the calls of the room service.
//!
//! Nothing here touches the GPU, the network or the native media library.
//! Where their work is due, a function says what is to be done and takes
//! the result as an argument.

pub mod layout;
pub mod packed;
pub mod video_frame;
pub mod i420;
pub mod nv12;
pub mod i420a;
pub mod i422;
pub mod i444;
pub mod i010;
pub mod native;
pub mod frame_buffer;
pub mod texture;
pub mod pipeline;
pub mod track;
pub mod publication;
pub mod room;
