pub mod c_string;
pub mod matrix;
pub mod pascal_string;
pub mod utf8;

pub use c_string::CString;
pub use matrix::{spec_matrix_at, Matrix};
pub use pascal_string::PascalString;
pub use utf8::{is_valid_utf8, is_valid_utf8_from, utf8_seq_len};
