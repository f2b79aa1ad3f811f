//! The local date.

use vstd::prelude::*;

verus! {

/// Relies on `chrono::Local::now` formatted with `%Y-%m-%d`: today's date in
/// the machine's time zone. It depends on the moment of the call, so nothing
/// is stated of it.
#[verifier::external_body]
pub(crate) fn local_date_text() -> (r: String) {
    chrono::Local::now().format("%Y-%m-%d").to_string()
}

} // verus!
