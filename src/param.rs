//! Utilities for handling (request) parameters of all kind
use vstd::prelude::*;

use crate::util::{chars_of, Nanos};

verus! {

/// Helper type for representing a requested duration in a parameter
#[derive(Clone, Copy, Debug, PartialEq, Eq, Structural)]
pub struct Duration {
    /// The duration, if one was given
    pub duration: Option<Nanos>,
}

/// Helper type for handling names of device properties
#[derive(Clone, Copy, Debug, PartialEq, Eq, Structural)]
pub enum DeviceProperty {
    Name,
    Uuid,
    Serial,
    PowerUsage,
}

/// Whether `s` holds the characters `lit`
fn is_word(s: &Vec<char>, lit: &str) -> (r: bool)
    ensures
        r == (s@ == lit@),
{
    let l = chars_of(lit);
    if s.len() != l.len() {
        return false;
    }
    let mut i: usize = 0;
    while i < s.len()
        invariant
            s.len() == l.len(),
            i <= s.len(),
            l@ == lit@,
            forall|j: int| 0 <= j < i ==> s@[j] == l@[j],
        decreases s.len() - i,
    {
        if s[i] != l[i] {
            return false;
        }
        i = i + 1;
    }
    assert(s@ =~= l@);
    true
}

impl DeviceProperty {
    /// Parse the name of a device property
    pub fn parse(s: &str) -> (r: Result<Self, String>)
        ensures
            s@ == "name"@ <==> r == Ok::<Self, String>(DeviceProperty::Name),
            s@ == "uuid"@ <==> r == Ok::<Self, String>(DeviceProperty::Uuid),
            s@ == "serial"@ <==> r == Ok::<Self, String>(DeviceProperty::Serial),
            s@ == "power_usage"@ <==> r == Ok::<Self, String>(DeviceProperty::PowerUsage),
            r is Err ==> r->Err_0@ == s@,
    {
        proof {
            reveal_strlit("name");
            reveal_strlit("uuid");
            reveal_strlit("serial");
            reveal_strlit("power_usage");
            assert("name"@[0] == 'n' && "uuid"@[0] == 'u' && "serial"@[0] == 's'
                && "power_usage"@[0] == 'p');
        }
        let c = chars_of(s);
        if is_word(&c, "name") {
            Ok(DeviceProperty::Name)
        } else if is_word(&c, "uuid") {
            Ok(DeviceProperty::Uuid)
        } else if is_word(&c, "serial") {
            Ok(DeviceProperty::Serial)
        } else if is_word(&c, "power_usage") {
            Ok(DeviceProperty::PowerUsage)
        } else {
            Err(s.to_owned())
        }
    }
}

impl std::str::FromStr for DeviceProperty {
    type Err = String;

    fn from_str(s: &str) -> Result<Self, Self::Err> {
        DeviceProperty::parse(s)
    }
}

} // verus!
