//! The condition that a forecast shows as a picture.

use vstd::prelude::*;
use vstd::string::StringExecFns;

verus! {

/// A weather condition. The ten named conditions are those with a code of
/// their own; any other code is kept as it came.
#[derive(Clone, Debug, PartialEq, Eq)]
pub enum Icon {
    ClearDay,
    ClearNight,
    Rain,
    Snow,
    Sleet,
    Wind,
    Fog,
    Cloudy,
    PartlyCloudyDay,
    PartlyCloudyNight,
    Unknown(String),
}

/// Whether `code` is the code of a named condition. Codes are compared
/// letter for letter, case included.
pub open spec fn is_known_code(code: Seq<char>) -> bool {
    ||| code == "clear-day"@
    ||| code == "clear-night"@
    ||| code == "rain"@
    ||| code == "snow"@
    ||| code == "sleet"@
    ||| code == "wind"@
    ||| code == "fog"@
    ||| code == "cloudy"@
    ||| code == "partly-cloudy-day"@
    ||| code == "partly-cloudy-night"@
}

/// The lookup that decoding performs: a named condition's code gives that
/// condition, and any other text gives `Unknown` holding the text.
pub open spec fn decodes_to(code: Seq<char>, icon: Icon) -> bool {
    if code == "clear-day"@ {
        icon == Icon::ClearDay
    } else if code == "clear-night"@ {
        icon == Icon::ClearNight
    } else if code == "rain"@ {
        icon == Icon::Rain
    } else if code == "snow"@ {
        icon == Icon::Snow
    } else if code == "sleet"@ {
        icon == Icon::Sleet
    } else if code == "wind"@ {
        icon == Icon::Wind
    } else if code == "fog"@ {
        icon == Icon::Fog
    } else if code == "cloudy"@ {
        icon == Icon::Cloudy
    } else if code == "partly-cloudy-day"@ {
        icon == Icon::PartlyCloudyDay
    } else if code == "partly-cloudy-night"@ {
        icon == Icon::PartlyCloudyNight
    } else {
        icon is Unknown && icon->Unknown_0@ == code
    }
}

impl Icon {
    /// The code that stands for this condition.
    pub open spec fn code(self) -> Seq<char> {
        match self {
            Icon::ClearDay => "clear-day"@,
            Icon::ClearNight => "clear-night"@,
            Icon::Rain => "rain"@,
            Icon::Snow => "snow"@,
            Icon::Sleet => "sleet"@,
            Icon::Wind => "wind"@,
            Icon::Fog => "fog"@,
            Icon::Cloudy => "cloudy"@,
            Icon::PartlyCloudyDay => "partly-cloudy-day"@,
            Icon::PartlyCloudyNight => "partly-cloudy-night"@,
            Icon::Unknown(text) => text@,
        }
    }

    /// The condition that `code` stands for: the named one whose code it
    /// is, or else `Unknown` holding `code` itself.
    pub fn from_code(code: &str) -> (icon: Icon)
        ensures
            decodes_to(code@, icon),
            icon.code() == code@,
            icon is Unknown <==> !is_known_code(code@),
    {
        let text = String::from_str(code);
        if text == String::from_str("clear-day") {
            Icon::ClearDay
        } else if text == String::from_str("clear-night") {
            Icon::ClearNight
        } else if text == String::from_str("rain") {
            Icon::Rain
        } else if text == String::from_str("snow") {
            Icon::Snow
        } else if text == String::from_str("sleet") {
            Icon::Sleet
        } else if text == String::from_str("wind") {
            Icon::Wind
        } else if text == String::from_str("fog") {
            Icon::Fog
        } else if text == String::from_str("cloudy") {
            Icon::Cloudy
        } else if text == String::from_str("partly-cloudy-day") {
            Icon::PartlyCloudyDay
        } else if text == String::from_str("partly-cloudy-night") {
            Icon::PartlyCloudyNight
        } else {
            Icon::Unknown(text)
        }
    }
}

/// Decoding undoes `code`: every icon that decoding can give, that is
/// every one but an `Unknown` that holds a named condition's code, is what
/// its own code decodes to.
pub proof fn lemma_code_round_trip(icon: Icon)
    requires
        icon is Unknown ==> !is_known_code(icon.code()),
    ensures
        decodes_to(icon.code(), icon),
{
    reveal_strlit("clear-day");
    reveal_strlit("clear-night");
    reveal_strlit("rain");
    reveal_strlit("snow");
    reveal_strlit("sleet");
    reveal_strlit("wind");
    reveal_strlit("fog");
    reveal_strlit("cloudy");
    reveal_strlit("partly-cloudy-day");
    reveal_strlit("partly-cloudy-night");
    assert("clear-day"@.len() == 9 && "clear-night"@.len() == 11);
    assert("sleet"@.len() == 5 && "fog"@.len() == 3 && "cloudy"@.len() == 6);
    assert("partly-cloudy-day"@.len() == 17 && "partly-cloudy-night"@.len() == 19);
    assert("rain"@.len() == 4 && "rain"@[0] == 'r');
    assert("snow"@.len() == 4 && "snow"@[0] == 's');
    assert("wind"@.len() == 4 && "wind"@[0] == 'w');
}

} // verus!
