//! The states of the union, with the two names each goes by.

use vstd::prelude::*;

verus! {

/// A state, named by its postal abbreviation.
#[derive(Clone, Copy, Debug, PartialEq, Eq, Structural, Hash)]
pub enum State {
    AL,
    AK,
    AZ,
    AR,
    CA,
    CO,
    CT,
    DE,
    DC,
    FL,
    GA,
    HI,
    ID,
    IL,
    IN,
    IA,
    KS,
    KY,
    LA,
    ME,
    MD,
    MA,
    MI,
    MN,
    MS,
    MO,
    MT,
    NE,
    NV,
    NH,
    NJ,
    NM,
    NY,
    NC,
    ND,
    OH,
    OK,
    OR,
    PA,
    RI,
    SC,
    SD,
    TN,
    TX,
    UT,
    VT,
    VA,
    WA,
    WV,
    WI,
    WY,
}

impl State {
    /// The postal abbreviation, as a sequence of characters.
    pub open spec fn abbreviation_text(self) -> Seq<char> {
        match self {
            State::AL => "AL"@,
            State::AK => "AK"@,
            State::AZ => "AZ"@,
            State::AR => "AR"@,
            State::CA => "CA"@,
            State::CO => "CO"@,
            State::CT => "CT"@,
            State::DE => "DE"@,
            State::DC => "DC"@,
            State::FL => "FL"@,
            State::GA => "GA"@,
            State::HI => "HI"@,
            State::ID => "ID"@,
            State::IL => "IL"@,
            State::IN => "IN"@,
            State::IA => "IA"@,
            State::KS => "KS"@,
            State::KY => "KY"@,
            State::LA => "LA"@,
            State::ME => "ME"@,
            State::MD => "MD"@,
            State::MA => "MA"@,
            State::MI => "MI"@,
            State::MN => "MN"@,
            State::MS => "MS"@,
            State::MO => "MO"@,
            State::MT => "MT"@,
            State::NE => "NE"@,
            State::NV => "NV"@,
            State::NH => "NH"@,
            State::NJ => "NJ"@,
            State::NM => "NM"@,
            State::NY => "NY"@,
            State::NC => "NC"@,
            State::ND => "ND"@,
            State::OH => "OH"@,
            State::OK => "OK"@,
            State::OR => "OR"@,
            State::PA => "PA"@,
            State::RI => "RI"@,
            State::SC => "SC"@,
            State::SD => "SD"@,
            State::TN => "TN"@,
            State::TX => "TX"@,
            State::UT => "UT"@,
            State::VT => "VT"@,
            State::VA => "VA"@,
            State::WA => "WA"@,
            State::WV => "WV"@,
            State::WI => "WI"@,
            State::WY => "WY"@,
        }
    }

    /// The full name, as a sequence of characters.
    pub open spec fn full_name(self) -> Seq<char> {
        match self {
            State::AL => "Alabama"@,
            State::AK => "Alaska"@,
            State::AZ => "Arizona"@,
            State::AR => "Arkansas"@,
            State::CA => "California"@,
            State::CO => "Colorado"@,
            State::CT => "Connecticut"@,
            State::DE => "Delaware"@,
            State::DC => "District of Columbia"@,
            State::FL => "Florida"@,
            State::GA => "Georgia"@,
            State::HI => "Hawaii"@,
            State::ID => "Idaho"@,
            State::IL => "Illinois"@,
            State::IN => "Indiana"@,
            State::IA => "Iowa"@,
            State::KS => "Kansas"@,
            State::KY => "Kentucky"@,
            State::LA => "Louisiana"@,
            State::ME => "Maine"@,
            State::MD => "Maryland"@,
            State::MA => "Massachusetts"@,
            State::MI => "Michigan"@,
            State::MN => "Minnesota"@,
            State::MS => "Mississippi"@,
            State::MO => "Missouri"@,
            State::MT => "Montana"@,
            State::NE => "Nebraska"@,
            State::NV => "Nevada"@,
            State::NH => "New Hampshire"@,
            State::NJ => "New Jersey"@,
            State::NM => "New Mexico"@,
            State::NY => "New York"@,
            State::NC => "North Carolina"@,
            State::ND => "North Dakota"@,
            State::OH => "Ohio"@,
            State::OK => "Oklahoma"@,
            State::OR => "Oregon"@,
            State::PA => "Pennsylvania"@,
            State::RI => "Rhode Island"@,
            State::SC => "South Carolina"@,
            State::SD => "South Dakota"@,
            State::TN => "Tennessee"@,
            State::TX => "Texas"@,
            State::UT => "Utah"@,
            State::VT => "Vermont"@,
            State::VA => "Virginia"@,
            State::WA => "Washington"@,
            State::WV => "West Virginia"@,
            State::WI => "Wisconsin"@,
            State::WY => "Wyoming"@,
        }
    }

    /// The postal abbreviation.
    pub fn abbreviation(&self) -> (s: &'static str)
        ensures
            s@ == self.abbreviation_text(),
    {
        match self {
            State::AL => "AL",
            State::AK => "AK",
            State::AZ => "AZ",
            State::AR => "AR",
            State::CA => "CA",
            State::CO => "CO",
            State::CT => "CT",
            State::DE => "DE",
            State::DC => "DC",
            State::FL => "FL",
            State::GA => "GA",
            State::HI => "HI",
            State::ID => "ID",
            State::IL => "IL",
            State::IN => "IN",
            State::IA => "IA",
            State::KS => "KS",
            State::KY => "KY",
            State::LA => "LA",
            State::ME => "ME",
            State::MD => "MD",
            State::MA => "MA",
            State::MI => "MI",
            State::MN => "MN",
            State::MS => "MS",
            State::MO => "MO",
            State::MT => "MT",
            State::NE => "NE",
            State::NV => "NV",
            State::NH => "NH",
            State::NJ => "NJ",
            State::NM => "NM",
            State::NY => "NY",
            State::NC => "NC",
            State::ND => "ND",
            State::OH => "OH",
            State::OK => "OK",
            State::OR => "OR",
            State::PA => "PA",
            State::RI => "RI",
            State::SC => "SC",
            State::SD => "SD",
            State::TN => "TN",
            State::TX => "TX",
            State::UT => "UT",
            State::VT => "VT",
            State::VA => "VA",
            State::WA => "WA",
            State::WV => "WV",
            State::WI => "WI",
            State::WY => "WY",
        }
    }

    /// The full name.
    pub fn full_state(&self) -> (s: &'static str)
        ensures
            s@ == self.full_name(),
    {
        match self {
            State::AL => "Alabama",
            State::AK => "Alaska",
            State::AZ => "Arizona",
            State::AR => "Arkansas",
            State::CA => "California",
            State::CO => "Colorado",
            State::CT => "Connecticut",
            State::DE => "Delaware",
            State::DC => "District of Columbia",
            State::FL => "Florida",
            State::GA => "Georgia",
            State::HI => "Hawaii",
            State::ID => "Idaho",
            State::IL => "Illinois",
            State::IN => "Indiana",
            State::IA => "Iowa",
            State::KS => "Kansas",
            State::KY => "Kentucky",
            State::LA => "Louisiana",
            State::ME => "Maine",
            State::MD => "Maryland",
            State::MA => "Massachusetts",
            State::MI => "Michigan",
            State::MN => "Minnesota",
            State::MS => "Mississippi",
            State::MO => "Missouri",
            State::MT => "Montana",
            State::NE => "Nebraska",
            State::NV => "Nevada",
            State::NH => "New Hampshire",
            State::NJ => "New Jersey",
            State::NM => "New Mexico",
            State::NY => "New York",
            State::NC => "North Carolina",
            State::ND => "North Dakota",
            State::OH => "Ohio",
            State::OK => "Oklahoma",
            State::OR => "Oregon",
            State::PA => "Pennsylvania",
            State::RI => "Rhode Island",
            State::SC => "South Carolina",
            State::SD => "South Dakota",
            State::TN => "Tennessee",
            State::TX => "Texas",
            State::UT => "Utah",
            State::VT => "Vermont",
            State::VA => "Virginia",
            State::WA => "Washington",
            State::WV => "West Virginia",
            State::WI => "Wisconsin",
            State::WY => "Wyoming",
        }
    }
}

} // verus!
