//! Embed pages for Fimfiction stories, users and blog posts: the parameters
//! of an embed request, the records that back it, and the HTML head that
//! link previews read.

pub mod blog;
pub mod external;
pub mod html;
pub mod laws;
pub mod story;
pub mod structs;
pub mod text;
pub mod user;
pub mod utility;
