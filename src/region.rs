use vstd::prelude::*;

verus! {

/// An operating region of the provider.
#[derive(Clone, Copy, Debug, PartialEq, Eq, Hash, Structural)]
pub enum Region {
    BR,
    EUNE,
    EUW,
    JP,
    KR,
    LAN,
    LAS,
    NA,
    OCE,
    RU,
    TR,
}

/// The short platform code of a region.
pub open spec fn short_code(r: Region) -> Seq<char> {
    match r {
        Region::BR => "br1"@,
        Region::EUNE => "eun1"@,
        Region::EUW => "euw1"@,
        Region::JP => "jp1"@,
        Region::KR => "kr"@,
        Region::LAN => "la1"@,
        Region::LAS => "la2"@,
        Region::NA => "na1"@,
        Region::OCE => "oc1"@,
        Region::RU => "ru"@,
        Region::TR => "tr1"@,
    }
}

/// The long continental routing code of a region.
pub open spec fn long_code(r: Region) -> Seq<char> {
    match r {
        Region::BR | Region::LAN | Region::LAS | Region::NA => "americas"@,
        Region::EUNE | Region::EUW | Region::RU | Region::TR => "europe"@,
        Region::JP | Region::KR | Region::OCE => "sea"@,
    }
}

/// The code that selects the host of a request: short or long form.
pub open spec fn region_code(r: Region, short: bool) -> Seq<char> {
    if short {
        short_code(r)
    } else {
        long_code(r)
    }
}

impl Region {
    pub fn to_short_region(&self) -> (r: &'static str)
        ensures
            r@ == short_code(*self),
    {
        match self {
            Region::BR => "br1",
            Region::EUNE => "eun1",
            Region::EUW => "euw1",
            Region::JP => "jp1",
            Region::KR => "kr",
            Region::LAN => "la1",
            Region::LAS => "la2",
            Region::NA => "na1",
            Region::OCE => "oc1",
            Region::RU => "ru",
            Region::TR => "tr1",
        }
    }

    pub fn to_long_region(&self) -> (r: &'static str)
        ensures
            r@ == long_code(*self),
    {
        match self {
            Region::BR | Region::LAN | Region::LAS | Region::NA => "americas",
            Region::EUNE | Region::EUW | Region::RU | Region::TR => "europe",
            Region::JP | Region::KR | Region::OCE => "sea",
        }
    }

    /// The short code when `short` holds, else the long one.
    pub fn code(&self, short: bool) -> (r: &'static str)
        ensures
            r@ == region_code(*self, short),
    {
        if short {
            self.to_short_region()
        } else {
            self.to_long_region()
        }
    }
}

} // verus!
