//! Slash-command decoding: resolves a nested command-option tree into a
//! flat command path and a table of typed argument values, with per-field
//! typed accessors that report precise errors.

pub mod errors;
pub mod node;
pub mod table;
pub mod values;

pub use crate::errors::Error;
pub use crate::node::InteractionNode;
pub use crate::node::OptionKind;
pub use crate::node::process;
pub use crate::table::FromSlashMap;
pub use crate::table::SlashMap;
pub use crate::table::SlashValue;
pub use crate::values::Mentionable;
pub use crate::values::TypedValue;
pub use crate::values::UserOrMember;
