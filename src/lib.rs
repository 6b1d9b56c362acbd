pub mod bundler;
pub mod engine;
pub mod esbuild;
pub mod html;
pub mod manifest;
pub mod proxy;
pub mod text;

pub use bundler::{bundle, bundle_with_args, Bundle, Effect};
pub use engine::{Engine, Spaxum};
pub use manifest::{EntryFiles, ManifestOutput};
pub use memory_serve;
