//! Listing of the public flakes and organizations of a FlakeHub catalog.
//!
//! The crate holds everything the `list` command decides and computes: how
//! a catalog record becomes a table row, which output a fetch outcome leads
//! to, and in which order the command deals with the outside world.
//! Building the client, the fetch itself and the terminal are left to the
//! caller, who performs what [`command::ListSubcommand::step`] asks for and
//! reports back what happened.
//!
//! - [`entity`]: the records of the catalog and the strings shown for them.
//! - [`table`]: the rows and the table of a listing.
//! - [`style`]: how a table is drawn.
//! - [`text`]: which text the table printer can be given.
//! - [`printer`]: the table printer, and what is taken on trust of it.
//! - [`output`]: the three things a listing can write.
//! - [`command`]: the command as a state machine.
//! - [`laws`]: what holds of every listing.

pub mod command;
pub mod entity;
pub mod laws;
pub mod output;
pub mod printer;
pub mod style;
pub mod table;
pub mod text;
