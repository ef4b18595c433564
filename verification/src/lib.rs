//! Verified core of the icon toolkit: option types, colour and path parsing,
//! icon-set generation plans, conversion plans and AI request planning.

pub mod ai;
pub mod codec;
pub mod args;
pub mod color;
pub mod converter;
pub mod error;
pub mod generator;
pub mod js;
pub mod layout;
pub mod path;
pub mod text;
pub mod types;
