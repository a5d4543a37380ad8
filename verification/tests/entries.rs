use time_entries::{Entries, Entry, Location};

#[test]
fn entry_eq() {
    let entry1 = Entry {
        user_name: String::from("JohnFortnite"),
        location: Location::LongHall as i32,
        minutes: 274, // 4 hrs 34 minutes
    };
    let entry2 = Entry {
        user_name: String::from("JohnFortnite"),
        location: Location::LongHall as i32,
        minutes: 274, // 4 hrs 34 minutes
    };

    assert!(entry1.eq(&entry2));
}

#[test]
fn entry_ne() {
    let entry1 = Entry {
        user_name: String::from("JohnFortnite"),
        location: Location::LongHall as i32,
        minutes: 274, // 4 hrs 34 minutes
    };
    let entry2 = Entry {
        user_name: String::from("JoeFortnite"),
        location: Location::LongHall as i32,
        minutes: 274, // 4 hrs 34 minutes
    };

    assert!(!entry1.eq(&entry2));
}

#[test]
fn entry_display() {
    assert_eq!("CooperLibrary", format!("{:?}", Location::CooperLibrary));
}

#[test]
fn example_entry() {
    let entry = Entries::example();
    assert_eq!(entry.id, 0);
    assert_eq!(entry.user_name, "JohnFortnite");
    assert_eq!(entry.minutes, 274);
    assert_eq!(entry.location, Location::LongHall.code());
}

#[test]
fn location_codes_are_ordinal() {
    assert_eq!(Location::BarreHall.code(), 0);
    assert_eq!(Location::CooperLibrary.code(), 4);
    assert_eq!(Location::LongHall.code(), 17);
    assert_eq!(Location::Watt.code(), 28);
    assert_eq!(Location::LongHall as i32, Location::LongHall.code());
}

#[test]
fn default_row_is_empty() {
    let row = Entries::default();
    assert_eq!(row.id, 0);
    assert_eq!(row.user_name, "");
    assert_eq!(row.minutes, 0);
    assert_eq!(row.location, 0);
}
