//! A line-oriented text editor in the manner of `ed`: addresses and ranges,
//! the command grammar, the line buffer, and the session that ties them
//! together.

pub mod buffer;
pub mod cmd;
pub mod command;
pub mod error;
pub mod pattern;
pub mod pos;
pub mod session;
pub mod ui;
pub mod util;

pub use crate::error::{Error, ErrorType, ErrorView, ParseError};
pub use crate::session::{Pending, Request, RequestView, Rsed, RsedView};
