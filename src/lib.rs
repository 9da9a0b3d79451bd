//! Turns posts fetched from a blog API into front-matter content files for a
//! static site generator.
mod body;
mod driver;
mod emit;
mod model;
mod timestamp;

pub use body::{
    bash_marker, replace_shell, shell_marker, starts_with, transform_body, transform_body_forgets_marker,
    transform_body_idempotent,
};
pub use timestamp::{rfc3339_utc, utc_representable, Timestamp};
pub use model::{
    display_name, header_of, tag_names, texts, to_header, to_header_deterministic, Author, Extras,
    HeaderView, Post, PostHeader, Tag, Taxonomies, User,
};
pub use emit::{
    decimal_text, detail_url, digit_char, digits_of, file_name, file_text, frame_file,
    front_matter_delimiter, md_extension,
};
pub use driver::{advanced, detail_address, fetches, step, writes, Action, Driver, Event, Stage};
