//! Name validation, minutes of the day, and shifts.

use auth_service::domain::member_id::MemberId;
use auth_service::domain::member_name::MemberName;
use auth_service::domain::project_name::ProjectName;
use auth_service::domain::shift::Day;
use auth_service::domain::shift::Minute;
use auth_service::domain::shift::Shift;

#[test]
fn test_valid_member_names() {
    let valid_names = ["a".to_string(), "a".repeat(255)];
    for valid_name in valid_names.iter() {
        let parsed = MemberName::parse(valid_name.to_owned())
            .expect("Failed to parse valid Member name");
        assert_eq!(parsed.as_ref(), valid_name);
    }
}

#[test]
fn test_short_member_names() {
    let short_name = "".to_string();
    let result = MemberName::parse(short_name);
    assert!(result.is_err());
    assert_eq!(result.unwrap_err().as_ref(), "Member name cannot be empty");
}

#[test]
fn test_long_member_names() {
    let long_name = "a".repeat(256);
    let result = MemberName::parse(long_name);
    assert!(result.is_err());
    assert_eq!(
        result.unwrap_err().as_ref(),
        "Max name length is 255 characters"
    );
}

#[test]
fn test_valid_project_names() {
    let valid_names = ["a".to_string(), "a".repeat(255)];
    for valid_name in valid_names.iter() {
        let parsed = ProjectName::parse(valid_name)
            .expect("Failed to parse valid project name");
        assert_eq!(parsed.as_ref(), valid_name);
    }
}

#[test]
fn test_short_project_names() {
    let short_password = "";
    let result = ProjectName::parse(short_password);
    assert!(result.is_err());
    assert_eq!(result.unwrap_err().as_ref(), "Project name cannot be empty");
}

#[test]
fn test_long_project_names() {
    let long_password = "a".repeat(256);
    let result = ProjectName::parse(&long_password);
    assert!(result.is_err());
    assert_eq!(
        result.unwrap_err().as_ref(),
        "Max name length is 255 characters"
    );
}

#[test]
fn test_minute_parse() {
    assert!(Minute::parse(0).is_ok());
    assert!(Minute::parse(1440).is_ok());
    assert!(Minute::parse(1441).is_err());
    assert!(Minute::parse(i16::MAX).is_err());
    assert!(Minute::parse(-1).is_err());
    assert!(Minute::parse(i16::MAX).is_err());
}

#[test]
fn test_minute_value_of() {
    assert!(Minute::parse(1).is_ok_and(|m| m.value_of() == 1));
    assert!(Minute::parse(1339).is_ok_and(|m| m.value_of() == 1339));
}

#[test]
fn test_minute_is_before_and_after() {
    let first = Minute::parse(0).expect("Failed to parse minute");
    let second = Minute::parse(1).expect("Failed to parse minute");
    let third = Minute::parse(1440).expect("Failed to parse minute");
    assert!(second.is_after(&first));
    assert!(third.is_after(&second));
    assert!(third.is_after(&first));
    assert!(first.is_before(&second));
    assert!(first.is_before(&third));
    assert!(second.is_before(&third));
}

#[test]
fn test_minute_difference() {
    let zero = Minute::parse(0).expect("Failed to parse minute");
    let one = Minute::parse(1).expect("Failed to parse minute");
    let max = Minute::parse(1440).expect("Failed to parse minute");

    assert_eq!(Minute::difference(&zero, &one), 1);
    assert_eq!(Minute::difference(&max, &zero), 1440);
}

#[test]
fn test_shift_new() {
    let member_id = MemberId::default();
    let day = Day::Monday;
    let start_time = Minute::parse(540).expect("Failed to parse start_time");
    let end_time = Minute::parse(1020).expect("Failed to parse end_time");

    assert!(Shift::new(member_id.clone(), day, start_time, end_time).is_ok());
    assert!(Shift::new(member_id, day, end_time, start_time).is_err());
}

#[test]
fn test_shift_length() {
    let member_id = MemberId::default();
    let day = Day::Friday;
    let start_time = Minute::parse(540).expect("Failed to parse start time");
    let end_time = Minute::parse(1050).expect("Failed to parse end time");

    let shift = match Shift::new(member_id, day, start_time, end_time) {
        Ok(shift) => shift,
        Err(_) => panic!("Failed to create shift"),
    };

    assert_eq!(shift.length(), 510);
    assert_eq!(shift.length_hours(), (8, 30));
}

#[test]
fn day_names_round_trip() {
    let days = [
        Day::Sunday,
        Day::Monday,
        Day::Tuesday,
        Day::Wednesday,
        Day::Thursday,
        Day::Friday,
        Day::Saturday,
    ];
    for (i, day) in days.iter().enumerate() {
        assert_eq!(day.number(), i as i16);
        assert_eq!(Day::from_number(i as i16).unwrap(), *day);
        assert_eq!(Day::parse(&day.name()).unwrap(), *day);
        assert_eq!(Day::parse(&day.name().to_lowercase()).unwrap(), *day);
    }
    assert_eq!(Day::from_number(7).unwrap_err().as_ref(), "Invalid day of the week");
    assert_eq!(Day::parse("Funday").unwrap_err().as_ref(), "Invalid day");
}
