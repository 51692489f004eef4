use vstd::prelude::*;

use crate::errors::SidTimeError;

verus! {

/// Pick the IANA timezone name for a coordinate from the list of zone names
/// whose regions contain it, as a coordinate-to-timezone database reports
/// them. Exactly one match returns that name; zero matches is
/// `NoTimezoneFound`; several overlapping matches are deliberately not
/// disambiguated and give `AmbiguousTimezone`.
pub fn resolve_timezone(names: Vec<String>) -> (r: Result<String, SidTimeError>)
    ensures
        names@.len() == 0 ==> r == Err::<String, SidTimeError>(SidTimeError::NoTimezoneFound),
        names@.len() == 1 ==> (r matches Ok(name) && name@ == names@[0]@),
        names@.len() > 1 ==> r == Err::<String, SidTimeError>(SidTimeError::AmbiguousTimezone),
{
    let mut found: Vec<String> = names;
    if found.len() == 0 {
        Err(SidTimeError::NoTimezoneFound)
    } else if found.len() == 1 {
        match found.pop() {
            Some(name) => Ok(name),
            None => Err(SidTimeError::NoTimezoneFound),
        }
    } else {
        Err(SidTimeError::AmbiguousTimezone)
    }
}

} // verus!
