//! Weather imagery pipeline: naming of cached frames, the cache janitor's
//! sweep, the cache-aside frame gateway, base composites, timelapse
//! assembly and the refresh cycle's plan.
pub mod text;
pub mod naming;
pub mod clock;
pub mod janitor;
pub mod window;
pub mod error;
pub mod raster;
pub mod gateway;
pub mod composer;
pub mod timelapse;
pub mod types;
pub mod refresh;
