pub mod chars;
pub mod clogger;
pub mod corg_doc;
pub mod events;
pub mod laws;
pub mod shell;
pub mod ui;

use vstd::prelude::*;

verus! {

} // verus!
