//! Elections: the title and slug of a state's general election.

use vstd::prelude::*;
use vstd::string::*;
use crate::calendar::NoElectionDate;
use crate::decimal::{append_decimal, decimal};
use crate::geography::State;
use crate::slug::{slug_of, slugify};

verus! {

/// The title of the general election of `state` in `year`.
pub open spec fn election_title(state: State, year: u16) -> Seq<char> {
    state.full_name() + " General Election "@ + decimal(year as nat)
}

/// The title of a state's general election and the slug of that title.
pub fn generate_general_election_title_slug(state: &State, year: u16) -> (r: (String, String))
    ensures
        r.0@ == election_title(*state, year),
        r.1@ == slug_of(r.0@),
{
    let mut title = String::from_str(state.full_state());
    title.append(" General Election ");
    append_decimal(&mut title, year as u64);
    let slug = slugify(title.as_str());
    (title, slug)
}

/// What is reported where no election day could be determined.
pub open spec fn no_date_message(year: u16) -> Seq<char> {
    "Unable to determine general election date for year: "@ + decimal(year as nat)
}

impl NoElectionDate {
    /// The report of this error in words.
    pub fn message(&self) -> (s: String)
        ensures
            s@ == no_date_message(self.year),
    {
        let mut s = String::from_str("Unable to determine general election date for year: ");
        append_decimal(&mut s, self.year as u64);
        s
    }
}

} // verus!
