//! Utility functions used throughout the library.

pub mod base64;
pub mod concurrent;
pub mod ids;
pub mod json;
pub mod text;
pub mod uri;

pub use self::base64::{decode_base64, encode_base64};
pub use self::json::{json_path_get, json_path_set, merge_json_objects};
pub use self::uri::{is_valid_uri, parse_uri_template};
