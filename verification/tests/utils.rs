use impostor::utils::to_number;

#[test]
fn decimal_numbers() {
    assert_eq!(to_number::<u16>("0").ok(), Some(0));
    assert_eq!(to_number::<u16>("49152").ok(), Some(49152));
    assert_eq!(to_number::<u64>("1000000").ok(), Some(1_000_000));
    assert_eq!(to_number::<u8>("+7").ok(), Some(7));
}

#[test]
fn hexadecimal_numbers() {
    assert_eq!(to_number::<u16>("0xc000").ok(), Some(0xc000));
    assert_eq!(to_number::<u16>("$C000").ok(), Some(0xc000));
    assert_eq!(to_number::<u8>("0xff").ok(), Some(0xff));
    assert_eq!(to_number::<u32>("$deadbeef").ok(), Some(0xdeadbeef));
}

#[test]
fn binary_numbers() {
    assert_eq!(to_number::<u8>("0b101").ok(), Some(5));
    assert_eq!(to_number::<u8>("%11111111").ok(), Some(255));
    assert_eq!(to_number::<u16>("0b1000000000000000").ok(), Some(0x8000));
}

#[test]
fn numbers_that_do_not_fit() {
    assert!(to_number::<u8>("256").is_err());
    assert!(to_number::<u8>("0x100").is_err());
    assert!(to_number::<u16>("$10000").is_err());
    assert!(to_number::<u8>("%100000000").is_err());
}

#[test]
fn malformed_numbers() {
    assert!(to_number::<u16>("").is_err());
    assert!(to_number::<u16>("0x").is_err());
    assert!(to_number::<u16>("$").is_err());
    assert!(to_number::<u16>("0b").is_err());
    assert!(to_number::<u16>("%").is_err());
    assert!(to_number::<u16>("12a").is_err());
    assert!(to_number::<u16>("0xg").is_err());
    assert!(to_number::<u16>("0b2").is_err());
    assert!(to_number::<u16>("-1").is_err());
    assert!(to_number::<u16>(" 1").is_err());
}

#[test]
fn prefixes_are_case_sensitive() {
    assert!(to_number::<u16>("0XC000").is_err());
    assert!(to_number::<u16>("0B101").is_err());
}

#[test]
fn a_prefix_is_taken_once() {
    assert!(to_number::<u16>("0x0x10").is_err());
    assert!(to_number::<u16>("$$10").is_err());
    assert_eq!(to_number::<u16>("0x0b1").ok(), Some(0xb1));
}

#[test]
fn text_beyond_ascii() {
    assert!(to_number::<u16>("\u{e9}").is_err());
    assert!(to_number::<u16>("$\u{e9}").is_err());
    assert!(to_number::<u16>("0x\u{4e2d}").is_err());
}

#[test]
fn to_numbers_reads_each_field() {
    let numbers: Vec<u16> = impostor::utils::to_numbers("0xc000,$c010,49184,0b101,%11").unwrap();
    assert_eq!(numbers, vec![0xc000, 0xc010, 0xc020, 5, 3]);
    let one: Vec<u8> = impostor::utils::to_numbers("17").unwrap();
    assert_eq!(one, vec![17]);
}

#[test]
fn to_numbers_stops_at_the_first_bad_field() {
    assert!(impostor::utils::to_numbers::<u16>("").is_err());
    assert!(impostor::utils::to_numbers::<u16>("1,").is_err());
    assert!(impostor::utils::to_numbers::<u16>(",1").is_err());
    assert!(impostor::utils::to_numbers::<u16>("1,,2").is_err());
    assert!(impostor::utils::to_numbers::<u16>("1,x,2").is_err());
    assert!(impostor::utils::to_numbers::<u8>("1,256").is_err());
    assert!(impostor::utils::to_numbers::<u16>("1, 2").is_err());
    assert_eq!(
        impostor::utils::to_numbers::<u8>("1,300,x").unwrap_err(),
        impostor::utils::to_number::<u8>("300").unwrap_err()
    );
}
