//! A password generator whose character pool, caching policy and sampling
//! loop are verified.

pub mod charset;
pub mod generator;
pub mod menu;
mod random;

pub use charset::Charset;
pub use generator::{ConfigError, Generator, Sampler, MAX_LENGTH, MIN_LENGTH};
pub use menu::{answer_from_lowered, copy_answer, menu_choice, CopyAnswer, MenuChoice};
