pub mod android_surface;
pub mod flutter_pixelbuffer;
