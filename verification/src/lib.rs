//! Verified core of the `YesNoArg` derive: turning a two-variant enum into a
//! pair of mutually exclusive command-line flags.

pub mod text;
pub mod model;
pub mod attrs;
pub mod derive;
pub mod flags;
pub mod laws;

pub use attrs::{parse_yesno_enum_attrs, parse_yesno_variant_attrs};
pub use derive::derive_yes_no_arg_inner;
pub use text::to_kebab_case;
