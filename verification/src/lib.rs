//! How the values handed to a command are laid out as its arguments, and the
//! decisions of the `#[arg]` attribute and of the `Serialize` derive that
//! serve them.
pub mod value;
pub mod serde_value;
pub mod args;
pub mod fast;
pub mod arg_macro;
pub mod derive;
