//! Offices: the slug that names an office, and the targets of the office
//! mutations.

use vstd::prelude::*;
use vstd::string::*;
use crate::geography::State;
use crate::ident::{parse_id, parsed_uuid, InvalidId};
use crate::slug::{slug_of, slugify};
use crate::text::{append_without_dots, opt_text, push_char, without_dots};

verus! {

/// How far the electorate of an office reaches.
#[derive(Clone, Copy, Debug, PartialEq, Eq, Structural)]
pub enum ElectionScope {
    National,
    State,
    County,
    City,
    District,
}

/// What is known of an office when it is written.
#[derive(Clone, Debug, Default)]
pub struct UpsertOfficeInput {
    pub state: Option<State>,
    pub name: Option<String>,
    pub seat: Option<String>,
    pub district: Option<String>,
    pub county: Option<String>,
    pub election_scope: Option<ElectionScope>,
}

/// The part of an office's slug that tells it from its namesakes: for a
/// district office the district, or the seat where no district is given; for
/// a county office the county; for any other the seat.
pub open spec fn qualifier(input: UpsertOfficeInput) -> Seq<char> {
    match input.election_scope {
        Some(ElectionScope::District) => match input.district {
            Some(d) => d@,
            None => opt_text(input.seat),
        },
        Some(ElectionScope::County) => opt_text(input.county),
        _ => opt_text(input.seat),
    }
}

/// The state of an office as it is written in a slug.
pub open spec fn state_text(state: Option<State>) -> Seq<char> {
    match state {
        Some(s) => s.abbreviation_text(),
        None => Seq::empty(),
    }
}

/// The text that an office's slug is made of: state, name without full
/// stops, and qualifier, with one space between them.
pub open spec fn office_slug_text(input: UpsertOfficeInput) -> Seq<char> {
    state_text(input.state).push(' ') + without_dots(opt_text(input.name)).push(' ') + qualifier(
        input,
    )
}

/// The slug of an office.
pub fn generate_office_slug(input: &UpsertOfficeInput) -> (slug: String)
    ensures
        slug@ == slug_of(office_slug_text(*input)),
{
    let mut text = String::new();
    match &input.state {
        Some(s) => {
            text.append(s.abbreviation());
        },
        None => {},
    }
    push_char(&mut text, ' ');
    let ghost head = text@;
    assert(head =~= state_text(input.state).push(' '));
    match &input.name {
        Some(n) => {
            append_without_dots(&mut text, n.as_str());
        },
        None => {
            assert(without_dots(Seq::<char>::empty()) =~= Seq::<char>::empty());
            assert(text@ =~= head + without_dots(opt_text(input.name)));
        },
    }
    push_char(&mut text, ' ');
    let ghost middle = text@;
    assert(middle =~= head + without_dots(opt_text(input.name)).push(' '));
    proof {
        reveal_strlit("");
    }
    let q: &str = match input.election_scope {
        Some(ElectionScope::District) => match &input.district {
            Some(d) => d.as_str(),
            None => match &input.seat {
                Some(s) => s.as_str(),
                None => "",
            },
        },
        Some(ElectionScope::County) => match &input.county {
            Some(c) => c.as_str(),
            None => "",
        },
        _ => match &input.seat {
            Some(s) => s.as_str(),
            None => "",
        },
    };
    assert(q@ =~= qualifier(*input));
    text.append(q);
    assert(text@ =~= office_slug_text(*input));
    slugify(text.as_str())
}

/// What an office mutation addresses.
#[derive(Clone, Copy, Debug, PartialEq, Eq, Structural)]
pub enum OfficeTarget {
    /// The office with this id is to be updated.
    Update(u128),
    /// The office with this id is to be deleted.
    Delete(u128),
}

/// The mutations of offices, as far as they decide anything before storage
/// is reached.
#[derive(Default)]
pub struct OfficeMutation;

impl OfficeMutation {
    /// The office that an update addresses, or the refusal of an id that is
    /// no id.
    pub fn update_office(id: &str) -> (r: Result<OfficeTarget, InvalidId>)
        ensures
            match parsed_uuid(id@) {
                Some(v) => r == Ok::<OfficeTarget, InvalidId>(OfficeTarget::Update(v)),
                None => r == Err::<OfficeTarget, InvalidId>(InvalidId),
            },
    {
        match parse_id(id) {
            Ok(v) => Ok(OfficeTarget::Update(v)),
            Err(e) => Err(e),
        }
    }

    /// The office that a deletion addresses, or the refusal of an id that is
    /// no id.
    pub fn delete_office(id: &str) -> (r: Result<OfficeTarget, InvalidId>)
        ensures
            match parsed_uuid(id@) {
                Some(v) => r == Ok::<OfficeTarget, InvalidId>(OfficeTarget::Delete(v)),
                None => r == Err::<OfficeTarget, InvalidId>(InvalidId),
            },
    {
        match parse_id(id) {
            Ok(v) => Ok(OfficeTarget::Delete(v)),
            Err(e) => Err(e),
        }
    }
}

} // verus!
