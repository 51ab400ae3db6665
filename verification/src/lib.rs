//! Image-selection workflow: turning a user-chosen disk-image path into a
//! display-ready description of the image (name, human-readable size, and a
//! Windows-installer classification), by read-only inspection of plain values.
//!
//! The filesystem itself is read by the surrounding application; this crate
//! holds the logic, stated and verified over the raw values that the reads
//! produced (the path, the byte length, and a prefix of the file's bytes).

pub mod image;
pub mod iso;
pub mod path_name;
pub mod size_format;

pub use image::apply_selection;
pub use image::inspect_result;
pub use image::InspectError;
pub use image::SelectedImage;
pub use iso::is_windows_iso;
pub use iso::HEADER_SCAN_LEN;
pub use path_name::display_name_of;
pub use size_format::format_size;
