//! Chat-to-HTML export library.
//!
//! Renders a chat conversation (a sequence of stored messages and their
//! authors) into a single self-contained HTML document, together with the
//! list of binary attachments (media files, avatar images) that the HTML
//! references by relative `blobs/<name>` path.
//!
//! Message storage, contact storage and blob storage are external
//! collaborators: the caller fetches message load results and contact lookup
//! results through its own stores and hands them to this library as plain
//! values. Everything here is deterministic templating and bookkeeping.

pub mod types;
pub mod paths;
pub mod author_map;
pub mod authors;
pub mod render;
pub mod export;
pub mod text;
pub mod laws;

pub use types::Message;
pub use types::Contact;
pub use types::ContactInfo;
pub use types::ExportChatResult;
pub use types::AuthorView;
pub use paths::file_name;
pub use author_map::AuthorMap;
pub use authors::author_ids;
pub use authors::resolve_authors;
pub use render::message_to_html;
pub use render::error_to_html;
pub use export::export_chat;
