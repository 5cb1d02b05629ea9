//! A gateway that presents a microblogging account as a mail store: the
//! POP3 and SMTP session logic, and the mapping between posts and mail.

pub mod config;
pub mod instance;
pub mod json;
pub mod mailbox;
pub mod pop3;
pub mod post;
pub mod render;
pub mod smtp;
pub mod submit;
pub mod text;
