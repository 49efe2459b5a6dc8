//! Work shifts: a day of the week and a start and end minute.

use vstd::prelude::*;

use crate::domain::error::ValidationError;
use crate::domain::member_id::MemberId;
use crate::domain::uuid_string::canonicalize_uuid;
use crate::domain::uuid_string::fresh_uuid;
use crate::domain::uuid_string::is_canonical_uuid;
use crate::domain::uuid_string::uuid_canon;

verus! {

/// A UUID identifying a shift, held in canonical text form.
#[derive(Debug)]
pub struct ShiftId(String);

impl View for ShiftId {
    type V = Seq<char>;

    closed spec fn view(&self) -> Seq<char> {
        self.0@
    }
}

impl ShiftId {
    /// Accepts exactly the strings the UUID parser accepts, and holds
    /// the canonical text of the UUID they denote.
    pub fn parse(id: &str) -> (r: Result<ShiftId, ValidationError>)
        ensures
            match r {
                Ok(s) => uuid_canon(id@) == Some(s@) && is_canonical_uuid(s@),
                Err(e) => uuid_canon(id@) is None && e@
                    == "Invalid member ID: failed to parse a UUID"@,
            },
    {
        match canonicalize_uuid(&id.to_owned()) {
            Some(canonical) => Ok(ShiftId(canonical)),
            None => Err(
                ValidationError::new("Invalid member ID: failed to parse a UUID".to_owned()),
            ),
        }
    }

    pub fn as_ref(&self) -> (r: &String)
        ensures
            r@ == self@,
    {
        &self.0
    }
}

impl Default for ShiftId {
    /// A freshly generated identifier.
    fn default() -> (r: Self)
        ensures
            is_canonical_uuid(r@),
    {
        ShiftId(fresh_uuid())
    }
}

impl Clone for ShiftId {
    fn clone(&self) -> (r: Self)
        ensures
            r@ == self@,
    {
        ShiftId(self.0.clone())
    }
}

impl PartialEq for ShiftId {
    fn eq(&self, other: &Self) -> (r: bool) {
        self.0 == other.0
    }
}

impl vstd::std_specs::cmp::PartialEqSpecImpl for ShiftId {
    open spec fn obeys_eq_spec() -> bool {
        true
    }

    open spec fn eq_spec(&self, other: &Self) -> bool {
        self@ == other@
    }
}

/// A day of the week.
#[derive(Debug, Clone, Copy, PartialEq, Eq, Structural)]
pub enum Day {
    Sunday,
    Monday,
    Tuesday,
    Wednesday,
    Thursday,
    Friday,
    Saturday,
}

/// The day an English day name denotes, capitalised or lower-case.
pub open spec fn spec_day_for_name(s: Seq<char>) -> Option<Day> {
    if s == "Sunday"@ || s == "sunday"@ {
        Some(Day::Sunday)
    } else if s == "Monday"@ || s == "monday"@ {
        Some(Day::Monday)
    } else if s == "Tuesday"@ || s == "tuesday"@ {
        Some(Day::Tuesday)
    } else if s == "Wednesday"@ || s == "wednesday"@ {
        Some(Day::Wednesday)
    } else if s == "Thursday"@ || s == "thursday"@ {
        Some(Day::Thursday)
    } else if s == "Friday"@ || s == "friday"@ {
        Some(Day::Friday)
    } else if s == "Saturday"@ || s == "saturday"@ {
        Some(Day::Saturday)
    } else {
        None
    }
}

/// Compares two string slices by value.
fn str_equal(a: &str, b: &str) -> (r: bool)
    ensures
        r == (a@ == b@),
{
    a.to_owned() == b.to_owned()
}

/// The number a day is stored as.
pub open spec fn spec_day_number(d: Day) -> i16 {
    match d {
        Day::Sunday => 0,
        Day::Monday => 1,
        Day::Tuesday => 2,
        Day::Wednesday => 3,
        Day::Thursday => 4,
        Day::Friday => 5,
        Day::Saturday => 6,
    }
}

impl Day {
    /// The day for a stored number; days are numbered 0 (Sunday) to 6
    /// (Saturday), and any other number is rejected.
    pub fn from_number(value: i16) -> (r: Result<Day, ValidationError>)
        ensures
            match r {
                Ok(d) => spec_day_number(d) == value,
                Err(e) => !(0 <= value <= 6) && e@ == "Invalid day of the week"@,
            },
    {
        match value {
            0 => Ok(Day::Sunday),
            1 => Ok(Day::Monday),
            2 => Ok(Day::Tuesday),
            3 => Ok(Day::Wednesday),
            4 => Ok(Day::Thursday),
            5 => Ok(Day::Friday),
            6 => Ok(Day::Saturday),
            _ => Err(ValidationError::new("Invalid day of the week".to_owned())),
        }
    }

    /// The stored number of this day.
    pub fn number(&self) -> (r: i16)
        ensures
            r == spec_day_number(*self),
    {
        match self {
            Day::Sunday => 0,
            Day::Monday => 1,
            Day::Tuesday => 2,
            Day::Wednesday => 3,
            Day::Thursday => 4,
            Day::Friday => 5,
            Day::Saturday => 6,
        }
    }

    /// The day named by an English day name, capitalised or lower-case.
    pub fn parse(s: &str) -> (r: Result<Day, ValidationError>)
        ensures
            match r {
                Ok(d) => spec_day_for_name(s@) == Some(d),
                Err(e) => spec_day_for_name(s@) is None && e@ == "Invalid day"@,
            },
    {
        if str_equal(s, "Sunday") || str_equal(s, "sunday") {
            Ok(Day::Sunday)
        } else if str_equal(s, "Monday") || str_equal(s, "monday") {
            Ok(Day::Monday)
        } else if str_equal(s, "Tuesday") || str_equal(s, "tuesday") {
            Ok(Day::Tuesday)
        } else if str_equal(s, "Wednesday") || str_equal(s, "wednesday") {
            Ok(Day::Wednesday)
        } else if str_equal(s, "Thursday") || str_equal(s, "thursday") {
            Ok(Day::Thursday)
        } else if str_equal(s, "Friday") || str_equal(s, "friday") {
            Ok(Day::Friday)
        } else if str_equal(s, "Saturday") || str_equal(s, "saturday") {
            Ok(Day::Saturday)
        } else {
            Err(ValidationError::new("Invalid day".to_owned()))
        }
    }

    /// The English name of this day.
    pub fn name(&self) -> (r: String)
        ensures
            r@ == match *self {
                Day::Sunday => "Sunday"@,
                Day::Monday => "Monday"@,
                Day::Tuesday => "Tuesday"@,
                Day::Wednesday => "Wednesday"@,
                Day::Thursday => "Thursday"@,
                Day::Friday => "Friday"@,
                Day::Saturday => "Saturday"@,
            },
    {
        match self {
            Day::Sunday => "Sunday".to_owned(),
            Day::Monday => "Monday".to_owned(),
            Day::Tuesday => "Tuesday".to_owned(),
            Day::Wednesday => "Wednesday".to_owned(),
            Day::Thursday => "Thursday".to_owned(),
            Day::Friday => "Friday".to_owned(),
            Day::Saturday => "Saturday".to_owned(),
        }
    }
}

/// The smallest minute of a day.
pub const MINUTE_MIN: i16 = 0;

/// The largest minute of a day: midnight at the end of the day.
pub const MINUTE_MAX: i16 = 1440;

/// A minute of the day, between 0 and 1440 inclusive.
#[derive(Debug, Clone, Copy, PartialEq, Eq, Structural)]
pub struct Minute(i16);

impl Minute {
    /// Every minute in a day lies between the two midnights.
    #[verifier::type_invariant]
    pub closed spec fn in_day(&self) -> bool {
        MINUTE_MIN <= self.0 <= MINUTE_MAX
    }

    /// The minute this value holds.
    pub closed spec fn spec_value(&self) -> i16 {
        self.0
    }

    /// Accepts exactly the numbers 0 to 1440.
    pub fn parse(minute: i16) -> (r: Result<Minute, ValidationError>)
        ensures
            match r {
                Ok(m) => MINUTE_MIN <= minute <= MINUTE_MAX && m.spec_value() == minute,
                Err(e) => !(MINUTE_MIN <= minute <= MINUTE_MAX) && e@ == if minute
                    < MINUTE_MIN {
                    "Minute cannot be before midnight"@
                } else {
                    "Minute cannot be after midnight"@
                },
            },
    {
        validate_minute(minute)?;
        Ok(Minute(minute))
    }

    pub fn value_of(&self) -> (r: i16)
        ensures
            r == self.spec_value(),
    {
        self.0
    }

    /// True exactly when this minute is later than the other.
    pub fn is_after(&self, other: &Minute) -> (r: bool)
        ensures
            r == (self.spec_value() > other.spec_value()),
    {
        if self.value_of() > other.value_of() {
            return true;
        }
        false
    }

    /// True exactly when this minute is earlier than the other.
    pub fn is_before(&self, other: &Minute) -> (r: bool)
        ensures
            r == (self.spec_value() < other.spec_value()),
    {
        if self.value_of() < other.value_of() {
            return true;
        }
        false
    }

    /// This minute as whole hours and minutes past the hour.
    pub fn to_hours(&self) -> (r: (i16, i16))
        ensures
            r.0 == self.spec_value() / 60,
            r.1 == self.spec_value() % 60,
    {
        proof {
            use_type_invariant(self);
        }
        (self.value_of() / 60, self.value_of() % 60)
    }

    /// The absolute distance between two minutes of the day.
    pub fn difference(minute_one: &Minute, minute_two: &Minute) -> (r: i16)
        ensures
            r == if minute_one.spec_value() > minute_two.spec_value() {
                minute_one.spec_value() - minute_two.spec_value()
            } else {
                minute_two.spec_value() - minute_one.spec_value()
            },
    {
        proof {
            use_type_invariant(minute_one);
            use_type_invariant(minute_two);
        }
        let num_one = minute_one.value_of();
        let num_two = minute_two.value_of();

        if num_one > num_two {
            num_one - num_two
        } else {
            num_two - num_one
        }
    }
}

/// One work shift of a member: a day and a start and end minute, where
/// the start lies strictly before the end.
#[derive(Debug)]
pub struct Shift {
    pub id: ShiftId,
    pub member_id: MemberId,
    pub day: Day,
    pub start_time: Minute,
    pub end_time: Minute,
}

impl Shift {
    /// Builds a shift with a fresh identifier. Accepts exactly the pairs
    /// of minutes where the start lies strictly before the end.
    pub fn new(member_id: MemberId, day: Day, start_time: Minute, end_time: Minute) -> (r:
        Result<Shift, ValidationError>)
        ensures
            match r {
                Ok(s) => start_time.spec_value() < end_time.spec_value() && s.member_id@
                    == member_id@ && s.day == day && s.start_time == start_time && s.end_time
                    == end_time && is_canonical_uuid(s.id@),
                Err(e) => start_time.spec_value() >= end_time.spec_value() && e@
                    == "Start time must be before end time"@,
            },
    {
        validate_shift(&start_time, &end_time)?;
        Ok(Shift { id: ShiftId::default(), member_id, day, start_time, end_time })
    }

    /// The length of the shift in minutes.
    pub fn length(&self) -> (r: i16)
        ensures
            r == self.end_time.spec_value() - self.start_time.spec_value(),
    {
        proof {
            use_type_invariant(&self.start_time);
            use_type_invariant(&self.end_time);
        }
        self.end_time.value_of() - self.start_time.value_of()
    }

    /// The length of the shift as whole hours and minutes past the hour,
    /// for a shift as `new` builds them: start before end.
    pub fn length_hours(&self) -> (r: (i16, i16))
        requires
            self.start_time.spec_value() <= self.end_time.spec_value(),
        ensures
            r.0 == (self.end_time.spec_value() - self.start_time.spec_value()) / 60,
            r.1 == (self.end_time.spec_value() - self.start_time.spec_value()) % 60,
    {
        proof {
            use_type_invariant(&self.start_time);
            use_type_invariant(&self.end_time);
        }
        let minutes = self.end_time.value_of() - self.start_time.value_of();
        (minutes / 60, minutes % 60)
    }
}

/// A shift is well-formed exactly when its start lies strictly before
/// its end.
pub fn validate_shift(start_time: &Minute, end_time: &Minute) -> (r: Result<
    (),
    ValidationError,
>)
    ensures
        match r {
            Ok(()) => start_time.spec_value() < end_time.spec_value(),
            Err(e) => start_time.spec_value() >= end_time.spec_value() && e@
                == "Start time must be before end time"@,
        },
{
    if end_time.is_after(start_time) {
        return Ok(());
    }
    Err(ValidationError::new("Start time must be before end time".to_owned()))
}

fn validate_minute(num: i16) -> (r: Result<(), ValidationError>)
    ensures
        match r {
            Ok(()) => MINUTE_MIN <= num <= MINUTE_MAX,
            Err(e) => !(MINUTE_MIN <= num <= MINUTE_MAX) && e@ == if num < MINUTE_MIN {
                "Minute cannot be before midnight"@
            } else {
                "Minute cannot be after midnight"@
            },
        },
{
    if num < MINUTE_MIN {
        Err(ValidationError::new("Minute cannot be before midnight".to_owned()))
    } else if num > MINUTE_MAX {
        Err(ValidationError::new("Minute cannot be after midnight".to_owned()))
    } else {
        Ok(())
    }
}

} // verus!
