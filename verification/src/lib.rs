//! Key-state tracking for chord detection.
//!
//! A host names the keys it cares about; the library keeps, for each of them,
//! whether it currently counts as held down, and updates that from the raw
//! press and release events of a keyboard hook. After every event that
//! changed an entry the host can look at the whole table and decide whether
//! its chord is down.
//!
//! - [`state`]: the two states of a button.
//! - [`key`]: the identities of keys.
//! - [`entry`]: a watched key with its state.
//! - [`table`]: the fixed-size table of entries, with lookup by key.
//! - [`dispatcher`]: the step from a table and a raw event to the next table and
//!   the report for the host.
//! - [`laws`]: what holds of every table and every event.
//! - [`chord`]: the stock setup, a shift key together with F8.
//!
//! Running the hook itself is left to the program that uses the library.

pub mod chord;
pub mod dispatcher;
pub mod entry;
pub mod key;
pub mod laws;
pub mod state;
pub mod table;
