//! Account, profile and post handling for a small illustration-posting site:
//! sign-up and sign-in decisions, upload field assembly, record building and
//! the context each page is rendered with.

pub mod text;
pub mod reply;
pub mod password;
pub mod signup;
pub mod signin;
pub mod saved;
pub mod creater_setting;
pub mod news_posts;
pub mod image;
pub mod pages;
