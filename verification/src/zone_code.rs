//! Identity of a forecast zone: its code and the kind of zone it names.

use vstd::prelude::*;
use vstd::string::StringExecFns;

verus! {

/// Code that the weather provider assigns to a forecast zone, such as `WAZ558`.
///
/// Two codes name the same zone when they spell the same text; the text is the
/// code's view.
#[derive(Debug, PartialEq, Eq, PartialOrd, Ord, Hash)]
pub struct LocationZoneCode(String);

impl View for LocationZoneCode {
    type V = Seq<char>;

    closed spec fn view(&self) -> Seq<char> {
        self.0@
    }
}

impl Clone for LocationZoneCode {
    fn clone(&self) -> (res: Self)
        ensures
            res == *self,
    {
        LocationZoneCode(self.0.clone())
    }
}

impl LocationZoneCode {
    /// Wraps `code` as a zone code.
    pub fn new(code: String) -> (res: Self)
        ensures
            res@ == code@,
    {
        LocationZoneCode(code)
    }

    /// The code as text.
    pub fn as_str(&self) -> (res: &str)
        ensures
            res@ == self@,
    {
        self.0.as_str()
    }

    /// The code as a borrowed string, as the keyed collections take it.
    pub fn text(&self) -> (res: &String)
        ensures
            res@ == self@,
    {
        &self.0
    }

    /// The code as an owned string, as used for aggregate and publisher ids.
    pub fn to_text(&self) -> (res: String)
        ensures
            res@ == self@,
    {
        self.0.clone()
    }

    /// True when both codes spell the same text.
    pub fn same_as(&self, other: &LocationZoneCode) -> (res: bool)
        ensures
            res == (self@ == other@),
    {
        self.0 == other.0
    }
}

/// The texts of a sequence of zone codes, in order.
pub open spec fn code_texts(zones: Seq<LocationZoneCode>) -> Seq<Seq<char>> {
    zones.map_values(|z: LocationZoneCode| z@)
}

/// The set of texts that occur among `zones`.
pub open spec fn code_set(zones: Seq<LocationZoneCode>) -> Set<Seq<char>> {
    code_texts(zones).to_set()
}

/// Position of the first entry of `zones` that spells `zone`, if any.
pub fn find_code(zones: &Vec<LocationZoneCode>, zone: &LocationZoneCode) -> (res: Option<usize>)
    ensures
        match res {
            Some(i) => i < zones.len() && zones[i as int]@ == zone@ && forall|j: int|
                0 <= j < i ==> zones[j]@ != zone@,
            None => forall|j: int| 0 <= j < zones.len() ==> zones[j]@ != zone@,
        },
        res is Some <==> code_set(zones@).contains(zone@),
{
    let mut i: usize = 0;
    while i < zones.len()
        invariant
            i <= zones.len(),
            forall|j: int| 0 <= j < i ==> zones[j]@ != zone@,
        decreases zones.len() - i,
    {
        if zones[i].same_as(zone) {
            proof {
                assert(code_texts(zones@)[i as int] == zone@);
            }
            return Some(i);
        }
        i += 1;
    }
    None
}

/// Kind of zone; it selects the provider's path for a forecast lookup.
#[derive(Debug, Clone, Copy, PartialEq, Eq, Hash, Structural)]
pub enum LocationZoneType {
    Public,
    County,
    Forecast,
}

impl LocationZoneType {
    /// The name of each kind, as it stands in a provider path.
    pub open spec fn name(self) -> Seq<char> {
        match self {
            LocationZoneType::Public => "Public"@,
            LocationZoneType::County => "County"@,
            LocationZoneType::Forecast => "Forecast"@,
        }
    }

    /// The kind that `text` names, exactly as `name` spells it.
    pub open spec fn named(text: Seq<char>) -> Option<LocationZoneType> {
        if text == "Public"@ {
            Some(LocationZoneType::Public)
        } else if text == "County"@ {
            Some(LocationZoneType::County)
        } else if text == "Forecast"@ {
            Some(LocationZoneType::Forecast)
        } else {
            None
        }
    }

    /// The kind's name.
    pub fn as_str(&self) -> (res: &'static str)
        ensures
            res@ == self.name(),
    {
        match self {
            LocationZoneType::Public => "Public",
            LocationZoneType::County => "County",
            LocationZoneType::Forecast => "Forecast",
        }
    }

    /// Reads a kind from its name; any other text names no kind.
    pub fn from_str(text: &str) -> (res: Option<LocationZoneType>)
        ensures
            res == LocationZoneType::named(text@),
    {
        let owned = String::from_str(text);
        if owned == String::from_str("Public") {
            Some(LocationZoneType::Public)
        } else if owned == String::from_str("County") {
            Some(LocationZoneType::County)
        } else if owned == String::from_str("Forecast") {
            Some(LocationZoneType::Forecast)
        } else {
            None
        }
    }
}

/// Reading a kind's own name gives the kind back.
pub proof fn zone_type_name_round_trip(kind: LocationZoneType)
    ensures
        LocationZoneType::named(kind.name()) == Some(kind),
{
    reveal_strlit("Public");
    reveal_strlit("County");
    reveal_strlit("Forecast");
    assert("County"@.len() == 6);
    assert("Public"@[0] == 'P');
}

/// Cities that the service knows by name.
#[derive(Debug, Clone, Copy, PartialEq, Eq, Hash, Structural)]
pub enum Location {
    Chicago,
    Seattle,
}

} // verus!
