//! Icon assets for a generated application bundle.
//!
//! An animated image is normalised to a square, either by cropping its centre
//! or by centring it on a transparent canvas, and rendered as a resized
//! animation and as a set of still icons of fixed sizes. The geometry, the
//! per-frame transformation and the layout of the written assets are verified;
//! pixel resampling and the image file formats are delegated to the `image`
//! crate behind small wrappers whose contracts are stated, not proved.

pub mod animated;
pub mod args;
pub mod codec;
pub mod directory;
pub mod error;
pub mod frame;
pub mod geometry;
pub mod icon_set;
pub mod install;
pub mod naming;
pub mod paths;
pub mod project;
pub mod raster;
pub mod template;
pub mod text;
pub mod transform;

pub use args::{default_install_location, parse_gif, parse_name, Args};
pub use project::{
    build_app, build_config, bundle_id, download_repository, find_scheme, get_template_project,
    BuildPlan, TemplateSource,
};
pub use install::{install_app, InstallAction, Installation};
pub use animated::{build_animated_icon, square_frames};
pub use directory::find_item_by_extension;
pub use error::Error;
pub use frame::{Delay, Frame, FrameView};
pub use naming::{temp_dir_in, temp_file_in, unique_name};
pub use paths::Location;
pub use template::{
    fill_template_project, write_app_icon, write_command_file, write_live_app_icon, Asset,
};
pub use icon_set::{build_static_icon_set, icon_set, render_icon, IconFile};
pub use geometry::{resolve, ResizeMethod, SquareTransform};
pub use transform::{rescale, resize_image_to_square, square_frame, transform};
