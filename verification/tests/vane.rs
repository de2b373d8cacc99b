use weather_station::direction::{decode, observe, retain, WindDirection};

const ALL_OPEN: [bool; 8] = [true; 8];

fn only_low(index: usize) -> [bool; 8] {
    let mut readings = ALL_OPEN;
    readings[index] = false;
    readings
}

#[test]
fn decode_names_the_single_closed_contact() {
    let expected = [
        WindDirection::North,
        WindDirection::NorthEast,
        WindDirection::East,
        WindDirection::SouthEast,
        WindDirection::South,
        WindDirection::SouthWest,
        WindDirection::West,
        WindDirection::NorthWest,
    ];
    for (index, direction) in expected.iter().enumerate() {
        assert_eq!(decode(only_low(index)), Some(*direction));
        assert_eq!(WindDirection::from_rank(index), *direction);
    }
    assert_eq!(WindDirection::from_rank(8), WindDirection::Unknown);
}

#[test]
fn decode_without_closed_contact_is_none() {
    assert_eq!(decode(ALL_OPEN), None);
}

#[test]
fn decode_prefers_the_contact_tested_first() {
    assert_eq!(decode([false; 8]), Some(WindDirection::North));
    let mut readings = ALL_OPEN;
    readings[6] = false;
    readings[3] = false;
    assert_eq!(decode(readings), Some(WindDirection::SouthEast));
    readings[1] = false;
    assert_eq!(decode(readings), Some(WindDirection::NorthEast));
    let mut last_two = ALL_OPEN;
    last_two[7] = false;
    last_two[6] = false;
    assert_eq!(decode(last_two), Some(WindDirection::West));
}

#[test]
fn decode_gives_the_same_answer_twice() {
    for bits in 0u16..256 {
        let mut readings = [false; 8];
        for (i, reading) in readings.iter_mut().enumerate() {
            *reading = bits & (1 << i) != 0;
        }
        let first = decode(readings);
        assert_eq!(first, decode(readings));
        assert_ne!(first, Some(WindDirection::Unknown));
        match first {
            None => assert!(readings.iter().all(|r| *r)),
            Some(direction) => {
                let rank = (0..8).find(|i| !readings[*i]).unwrap();
                assert_eq!(direction, WindDirection::from_rank(rank));
            }
        }
    }
}

#[test]
fn retain_keeps_the_stored_direction_on_none() {
    assert_eq!(retain(WindDirection::South, None), WindDirection::South);
    assert_eq!(retain(WindDirection::Unknown, None), WindDirection::Unknown);
    assert_eq!(retain(WindDirection::South, Some(WindDirection::West)), WindDirection::West);
}

#[test]
fn north_then_no_contact_stays_north() {
    let first = [false, true, true, true, true, true, true, true];
    assert_eq!(decode(first), Some(WindDirection::North));
    let stored = observe(WindDirection::Unknown, first);
    assert_eq!(stored, WindDirection::North);
    assert_eq!(decode(ALL_OPEN), None);
    let stored = observe(stored, ALL_OPEN);
    assert_eq!(stored, WindDirection::North);
}

#[test]
fn observe_overwrites_on_a_new_contact() {
    let stored = observe(WindDirection::North, only_low(4));
    assert_eq!(stored, WindDirection::South);
}
