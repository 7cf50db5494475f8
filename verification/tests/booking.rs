use train_booking::entities::train::Train;
use train_booking::entities::user::User;
use train_booking::entities::vehicle::Vehicle;
use train_booking::service::booking_service::{
    cancel, find_entity, lookup, new_booking, BookingService, BookingServiceImpl, CancelOutcome,
    Cancellation, Lookup,
};
use train_booking::service::file_io::{FileIO, FileIOImpl};
use train_booking::service::seats::{find_seats, remove_from_row, remove_from_seats, Seat};

fn user(id: &str) -> User {
    User { user_id: id.to_string(), name: format!("name of {}", id), aadhar_card: format!("card of {}", id) }
}

fn alice() -> User {
    User { user_id: "U1".to_string(), name: "Alice".to_string(), aadhar_card: "1234".to_string() }
}

fn train(id: &str, seats: Vec<Vec<User>>) -> Train {
    Train {
        train_id: id.to_string(),
        name: "Express".to_string(),
        source: "A".to_string(),
        destination: "B".to_string(),
        time: 1_700_000_000,
        seats,
    }
}

fn id(chars: &str) -> String {
    chars.to_string()
}

fn trains(text: &str) -> Vec<Train> {
    FileIOImpl::<Train>::new().read_from_file(Some(text))
}

fn file_of(records: &Vec<Train>) -> String {
    FileIOImpl::<Train>::new().save_all(records).unwrap()
}

#[test]
fn new_booking_seats_the_passenger_alone() {
    let booked: Train = new_booking(id("T100"), alice(), id("Express"), id("A"), id("B"), 77);
    assert_eq!(
        booked,
        Train {
            train_id: id("T100"),
            name: id("Express"),
            source: id("A"),
            destination: id("B"),
            time: 77,
            seats: vec![vec![alice()]],
        }
    );
    let booked: Vehicle = new_booking(id("V1"), alice(), id("Bus"), id("C"), id("D"), -1);
    assert_eq!(booked.vehicle_id, "V1");
    assert_eq!(booked.time, -1);
    assert_eq!(booked.seats, vec![vec![alice()]]);
}

#[test]
fn book_starts_a_missing_file_with_one_record() {
    let service = BookingServiceImpl::<Train>::new();
    let written = service
        .book(None, id("T100"), alice(), id("Express"), id("A"), id("B"), 1_700_000_000)
        .unwrap();
    assert_eq!(trains(&written), vec![train("T100", vec![vec![alice()]])]);
}

#[test]
fn book_accepts_empty_strings() {
    let service = BookingServiceImpl::<Train>::new();
    let nobody = User { user_id: id(""), name: id(""), aadhar_card: id("") };
    let written = service.book(None, id(""), nobody.clone(), id(""), id(""), id(""), 0).unwrap();
    let records = trains(&written);
    assert_eq!(records.len(), 1);
    assert_eq!(records[0].train_id, "");
    assert_eq!(records[0].seats, vec![vec![nobody]]);
}

#[test]
fn bookings_with_distinct_identifiers_add_one_record_each() {
    let service = BookingServiceImpl::<Train>::new();
    let mut file: Option<String> = None;
    for count in 0..5usize {
        assert_eq!(FileIOImpl::<Train>::new().read_from_file(file.as_deref()).len(), count);
        let written = service
            .book(
                file.as_deref(),
                format!("T{}", count),
                user(&format!("U{}", count)),
                id("Express"),
                id("A"),
                id("B"),
                1_700_000_000,
            )
            .unwrap();
        file = Some(written);
    }
    let records = trains(file.as_deref().unwrap());
    assert_eq!(records.len(), 5);
    for (count, record) in records.iter().enumerate() {
        assert_eq!(record.train_id, format!("T{}", count));
        assert_eq!(record.seats, vec![vec![user(&format!("U{}", count))]]);
    }
}

#[test]
fn bookings_grow_a_file_that_holds_records() {
    let service = BookingServiceImpl::<Train>::new();
    let start = file_of(&vec![train("T1", vec![]), train("T2", vec![vec![user("U7")]])]);
    let one = service.book(Some(&start), id("T3"), alice(), id("x"), id("y"), id("z"), 1).unwrap();
    let two = service.book(Some(&one), id("T4"), alice(), id("x"), id("y"), id("z"), 2).unwrap();
    let three = service.book(Some(&two), id("T5"), alice(), id("x"), id("y"), id("z"), 3).unwrap();
    assert_eq!(trains(&start).len(), 2);
    assert_eq!(trains(&three).len(), 5);
    assert_eq!(trains(&three)[0], train("T1", vec![]));
    assert_eq!(trains(&three)[4].train_id, "T5");
    assert_eq!(trains(&three)[4].time, 3);
}

#[test]
fn booking_the_same_identifier_again_adds_another_record() {
    let service = BookingServiceImpl::<Train>::new();
    let one = service.book(None, id("T1"), alice(), id("x"), id("y"), id("z"), 1).unwrap();
    let two = service.book(Some(&one), id("T1"), user("U2"), id("x"), id("y"), id("z"), 2).unwrap();
    let records = trains(&two);
    assert_eq!(records.len(), 2);
    assert_eq!(records[0].seats, vec![vec![alice()]]);
    assert_eq!(records[1].seats, vec![vec![user("U2")]]);
}

#[test]
fn book_writes_vehicles_under_their_own_key() {
    let service = BookingServiceImpl::<Vehicle>::new();
    let written = service.book(None, id("V1"), alice(), id("Bus"), id("C"), id("D"), 9).unwrap();
    let expected = r#"[
  {
    "destination": "D",
    "name": "Bus",
    "seats": [
      [
        {
          "aadharCard": "1234",
          "name": "Alice",
          "userId": "U1"
        }
      ]
    ],
    "source": "C",
    "time": 9,
    "vehicleId": "V1"
  }
]"#;
    assert_eq!(written, expected);
}

#[test]
fn save_booking_adds_the_record_at_the_end() {
    let service = BookingServiceImpl::<Train>::new();
    let first = service.save_booking(None, &train("T1", vec![vec![alice()]])).unwrap();
    let second = service.save_booking(Some(&first), &train("T2", vec![])).unwrap();
    assert_eq!(trains(&second), vec![train("T1", vec![vec![alice()]]), train("T2", vec![])]);
    assert_eq!(second, FileIOImpl::<Train>::new().save_to_file(Some(&first), &train("T2", vec![])).unwrap());
}

#[test]
fn find_entity_gives_the_first_record_with_the_identifier() {
    let records = vec![train("T1", vec![]), train("T2", vec![]), train("T1", vec![]), train("", vec![])];
    assert_eq!(find_entity(&records, &id("T1")), Some(0));
    assert_eq!(find_entity(&records, &id("T2")), Some(1));
    assert_eq!(find_entity(&records, &id("")), Some(3));
    assert_eq!(find_entity(&records, &id("T3")), None);
    assert_eq!(find_entity(&records, &id("t1")), None);
    assert_eq!(find_entity(&Vec::<Train>::new(), &id("T1")), None);
}

#[test]
fn remove_from_row_drops_every_seat_of_the_passenger() {
    let row = vec![user("A"), user("B"), user("A"), user("C")];
    assert_eq!(remove_from_row(&row, &id("A")), vec![user("B"), user("C")]);
    assert_eq!(remove_from_row(&row, &id("B")), vec![user("A"), user("A"), user("C")]);
    assert_eq!(remove_from_row(&row, &id("Z")), row);
    assert_eq!(remove_from_row(&vec![user("A")], &id("A")), Vec::<User>::new());
    assert_eq!(remove_from_row(&vec![], &id("A")), Vec::<User>::new());
}

#[test]
fn remove_from_seats_keeps_the_other_passengers() {
    let seats = vec![vec![user("A"), user("B")], vec![user("C")]];
    assert_eq!(
        remove_from_seats(&seats, &id("B")),
        (vec![vec![user("A")], vec![user("C")]], true)
    );
}

#[test]
fn remove_from_seats_drops_a_row_that_is_empty_then() {
    let seats = vec![vec![user("A")], vec![user("C")]];
    assert_eq!(remove_from_seats(&seats, &id("A")), (vec![vec![user("C")]], true));
    assert_eq!(remove_from_seats(&seats, &id("C")), (vec![vec![user("A")]], true));
}

#[test]
fn remove_from_seats_takes_the_passenger_out_of_every_row() {
    let seats = vec![vec![user("A"), user("B")], vec![user("B")], vec![user("B"), user("C"), user("B")]];
    assert_eq!(
        remove_from_seats(&seats, &id("B")),
        (vec![vec![user("A")], vec![user("C")]], true)
    );
}

#[test]
fn remove_from_seats_reports_a_passenger_who_is_not_there() {
    let seats = vec![vec![user("A"), user("B")], vec![user("C")]];
    assert_eq!(remove_from_seats(&seats, &id("Z")), (seats.clone(), false));
    assert_eq!(remove_from_seats(&vec![], &id("Z")), (vec![], false));
}

#[test]
fn remove_from_seats_drops_rows_that_were_empty_before() {
    let seats = vec![vec![], vec![user("A")], vec![]];
    assert_eq!(remove_from_seats(&seats, &id("Z")), (vec![vec![user("A")]], false));
    assert_eq!(remove_from_seats(&seats, &id("A")), (vec![], true));
}

#[test]
fn cancel_removes_the_passenger_and_keeps_the_neighbour() {
    let mut records = vec![train("T1", vec![vec![user("A"), user("B")], vec![user("C")]])];
    assert_eq!(cancel(&mut records, &id("T1"), &id("B")), CancelOutcome::Cancelled);
    assert_eq!(records, vec![train("T1", vec![vec![user("A")], vec![user("C")]])]);
}

#[test]
fn cancel_drops_the_row_of_its_only_passenger() {
    let mut records = vec![train("T1", vec![vec![user("A")], vec![user("C")]])];
    assert_eq!(cancel(&mut records, &id("T1"), &id("A")), CancelOutcome::Cancelled);
    assert_eq!(records, vec![train("T1", vec![vec![user("C")]])]);
}

#[test]
fn cancel_of_an_absent_passenger_changes_nothing() {
    let before = vec![
        train("T0", vec![vec![user("Z")]]),
        train("T1", vec![vec![user("A"), user("B")], vec![], vec![user("C")]]),
    ];
    let mut records = before.clone();
    assert_eq!(cancel(&mut records, &id("T1"), &id("Z")), CancelOutcome::UserNotFound);
    assert_eq!(records, before);
}

#[test]
fn cancel_on_an_absent_entity_changes_nothing() {
    let before = vec![train("T1", vec![vec![user("A")]])];
    let mut records = before.clone();
    assert_eq!(cancel(&mut records, &id("T9"), &id("A")), CancelOutcome::EntityNotFound);
    assert_eq!(records, before);
    let mut none: Vec<Train> = vec![];
    assert_eq!(cancel(&mut none, &id("T1"), &id("A")), CancelOutcome::EntityNotFound);
    assert_eq!(none, Vec::<Train>::new());
}

#[test]
fn cancel_works_on_the_first_record_with_the_identifier_only() {
    let mut records = vec![
        train("T2", vec![vec![user("A")]]),
        train("T1", vec![vec![user("B")]]),
        train("T1", vec![vec![user("A")]]),
    ];
    assert_eq!(cancel(&mut records, &id("T1"), &id("A")), CancelOutcome::UserNotFound);
    assert_eq!(records[2].seats, vec![vec![user("A")]]);
    assert_eq!(cancel(&mut records, &id("T1"), &id("B")), CancelOutcome::Cancelled);
    assert_eq!(
        records,
        vec![
            train("T2", vec![vec![user("A")]]),
            train("T1", vec![]),
            train("T1", vec![vec![user("A")]]),
        ]
    );
}

#[test]
fn cancel_keeps_the_record_of_its_last_passenger() {
    let mut records = vec![train("T1", vec![vec![user("A")]])];
    assert_eq!(cancel(&mut records, &id("T1"), &id("A")), CancelOutcome::Cancelled);
    assert_eq!(records, vec![train("T1", vec![])]);
    assert_eq!(cancel(&mut records, &id("T1"), &id("A")), CancelOutcome::UserNotFound);
    assert_eq!(records, vec![train("T1", vec![])]);
}

#[test]
fn cancel_works_on_vehicles() {
    let mut records = vec![Vehicle {
        vehicle_id: id("V1"),
        name: id("Bus"),
        source: id("C"),
        destination: id("D"),
        time: 5,
        seats: vec![vec![user("A"), user("B")]],
    }];
    assert_eq!(cancel(&mut records, &id("V1"), &id("A")), CancelOutcome::Cancelled);
    assert_eq!(records[0].seats, vec![vec![user("B")]]);
    assert_eq!(records[0].name, "Bus");
    assert_eq!(records[0].time, 5);
}

#[test]
fn cancel_booking_returns_the_text_of_the_changed_collection() {
    let service = BookingServiceImpl::<Train>::new();
    let file = file_of(&vec![
        train("T0", vec![vec![user("B")]]),
        train("T1", vec![vec![user("A"), user("B")], vec![user("C")]]),
    ]);
    let after = file_of(&vec![
        train("T0", vec![vec![user("B")]]),
        train("T1", vec![vec![user("A")], vec![user("C")]]),
    ]);
    assert_eq!(
        service.cancel_booking(Some(&file), id("T1"), id("B")),
        Cancellation::Cancelled { contents: after }
    );
}

#[test]
fn cancel_booking_of_an_absent_passenger_writes_nothing() {
    let service = BookingServiceImpl::<Train>::new();
    let file = file_of(&vec![train("T1", vec![vec![user("A")]])]);
    assert_eq!(service.cancel_booking(Some(&file), id("T1"), id("Z")), Cancellation::UserNotFound);
    assert_eq!(service.cancel_booking(Some(&file), id("T1"), id("")), Cancellation::UserNotFound);
}

#[test]
fn cancel_booking_on_an_absent_entity_writes_nothing() {
    let service = BookingServiceImpl::<Train>::new();
    let file = file_of(&vec![train("T1", vec![vec![user("A")]])]);
    assert_eq!(service.cancel_booking(Some(&file), id("T9"), id("A")), Cancellation::EntityNotFound);
    assert_eq!(service.cancel_booking(None, id("T1"), id("A")), Cancellation::EntityNotFound);
    assert_eq!(service.cancel_booking(Some("not json"), id("T1"), id("A")), Cancellation::EntityNotFound);
    assert_eq!(service.cancel_booking(Some("[]"), id("T1"), id("A")), Cancellation::EntityNotFound);
}

#[test]
fn cancel_booking_reads_vehicles_under_their_own_key() {
    let trains_file = file_of(&vec![train("T1", vec![vec![user("A")]])]);
    let service = BookingServiceImpl::<Vehicle>::new();
    assert_eq!(
        service.cancel_booking(Some(&trains_file), id("T1"), id("A")),
        Cancellation::EntityNotFound
    );
    match service.cancel_booking(Some(&trains_file), id(""), id("A")) {
        Cancellation::Cancelled { contents } => {
            let vehicles = FileIOImpl::<Vehicle>::new().read_from_file(Some(&contents));
            assert_eq!(vehicles.len(), 1);
            assert_eq!(vehicles[0].seats, Vec::<Vec<User>>::new());
        }
        other => panic!("cancelled nothing: {:?}", other),
    }
}

#[test]
fn find_seats_lists_the_seats_in_reading_order() {
    let seats = vec![
        vec![user("A"), user("B"), user("A")],
        vec![],
        vec![user("C"), user("A")],
    ];
    assert_eq!(
        find_seats(&seats, &id("A")),
        vec![
            Seat { row: 0, col: 0, user: user("A") },
            Seat { row: 0, col: 2, user: user("A") },
            Seat { row: 2, col: 1, user: user("A") },
        ]
    );
    assert_eq!(find_seats(&seats, &id("C")), vec![Seat { row: 2, col: 0, user: user("C") }]);
    assert_eq!(find_seats(&seats, &id("Z")), Vec::<Seat>::new());
    assert_eq!(find_seats(&vec![], &id("A")), Vec::<Seat>::new());
}

#[test]
fn lookup_finds_the_seat_and_the_passenger() {
    let records = vec![train("T1", vec![vec![alice()]])];
    assert_eq!(
        lookup(records, &id("T1"), &id("U1")),
        Lookup::Found {
            entity: train("T1", vec![vec![alice()]]),
            seats: vec![Seat { row: 0, col: 0, user: alice() }],
        }
    );
}

#[test]
fn lookup_of_an_absent_passenger_finds_no_seat() {
    let records = vec![train("T1", vec![vec![alice()]])];
    assert_eq!(
        lookup(records, &id("T1"), &id("U9")),
        Lookup::Found { entity: train("T1", vec![vec![alice()]]), seats: vec![] }
    );
}

#[test]
fn lookup_on_an_absent_entity_finds_nothing() {
    let records = vec![train("T1", vec![vec![alice()]])];
    assert_eq!(lookup(records, &id("T2"), &id("U1")), Lookup::EntityNotFound);
    assert_eq!(lookup(Vec::<Train>::new(), &id("T1"), &id("U1")), Lookup::EntityNotFound);
}

#[test]
fn lookup_reads_the_first_record_with_the_identifier() {
    let records = vec![
        train("T0", vec![vec![alice()]]),
        train("T1", vec![vec![user("B")], vec![alice()]]),
        train("T1", vec![vec![alice()]]),
    ];
    assert_eq!(
        lookup(records, &id("T1"), &id("U1")),
        Lookup::Found {
            entity: train("T1", vec![vec![user("B")], vec![alice()]]),
            seats: vec![Seat { row: 1, col: 0, user: alice() }],
        }
    );
}

#[test]
fn print_booking_reports_the_seat_of_the_passenger() {
    let service = BookingServiceImpl::<Train>::new();
    let file = file_of(&vec![train("T1", vec![vec![alice()]])]);
    assert_eq!(
        service.print_booking(Some(&file), id("T1"), id("U1")),
        Lookup::Found {
            entity: train("T1", vec![vec![alice()]]),
            seats: vec![Seat { row: 0, col: 0, user: alice() }],
        }
    );
}

#[test]
fn print_booking_reports_a_passenger_who_is_not_there() {
    let service = BookingServiceImpl::<Train>::new();
    let file = file_of(&vec![train("T1", vec![vec![alice()]])]);
    assert_eq!(
        service.print_booking(Some(&file), id("T1"), id("U9")),
        Lookup::Found { entity: train("T1", vec![vec![alice()]]), seats: vec![] }
    );
}

#[test]
fn print_booking_reports_an_entity_that_is_not_there() {
    let service = BookingServiceImpl::<Train>::new();
    let file = file_of(&vec![train("T1", vec![vec![alice()]])]);
    assert_eq!(service.print_booking(Some(&file), id("T2"), id("U1")), Lookup::EntityNotFound);
    assert_eq!(service.print_booking(None, id("T1"), id("U1")), Lookup::EntityNotFound);
    assert_eq!(service.print_booking(Some("{"), id("T1"), id("U1")), Lookup::EntityNotFound);
}

#[test]
fn book_then_cancel_then_cancel_again() {
    let service = BookingServiceImpl::<Train>::new();
    let booked = service
        .book(None, id("T100"), alice(), id("Express"), id("A"), id("B"), 1_700_000_000)
        .unwrap();
    let stored = trains(&booked);
    assert_eq!(stored.len(), 1);
    assert_eq!(stored[0].train_id, "T100");
    assert_eq!(stored[0].name, "Express");
    assert_eq!(stored[0].source, "A");
    assert_eq!(stored[0].destination, "B");
    assert_eq!(stored[0].seats, vec![vec![alice()]]);

    let cancelled = match service.cancel_booking(Some(&booked), id("T100"), id("U1")) {
        Cancellation::Cancelled { contents } => contents,
        other => panic!("not cancelled: {:?}", other),
    };
    let stored = trains(&cancelled);
    assert_eq!(stored.len(), 1);
    assert_eq!(stored[0].train_id, "T100");
    assert_eq!(stored[0].seats, Vec::<Vec<User>>::new());

    assert_eq!(
        service.cancel_booking(Some(&cancelled), id("T100"), id("U1")),
        Cancellation::UserNotFound
    );
    assert_eq!(
        service.print_booking(Some(&cancelled), id("T100"), id("U1")),
        Lookup::Found { entity: train("T100", vec![]), seats: vec![] }
    );
}
