pub mod assets;
pub mod cursor;
pub mod host;
pub mod keys;
pub mod props;
pub mod surface;
