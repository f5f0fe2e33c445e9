//! The Purge command: clear every ledger record. The caller fires the
//! best-effort upstream purges around this; they do not touch the ledger.

use vstd::prelude::*;

use crate::db::{Payment, PaymentDb};

verus! {

/// A decoded Purge command; it carries nothing.
pub struct Purge {}

impl Purge {
    /// Clears the ledger. The health snapshot is untouched, so routing
    /// decisions are unaffected.
    pub fn execute(self, db: &mut PaymentDb)
        ensures
            final(db).records() == Seq::<Payment>::empty(),
            final(db).current_health() == old(db).current_health(),
    {
        db.clear();
    }
}

} // verus!
