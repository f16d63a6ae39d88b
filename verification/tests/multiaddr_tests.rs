use blockless::exit_code::CliExitCode;
use blockless::multiaddr::parse;

#[test]
fn parse_drivers() {
    let s = "////driver/test".as_bytes();
    let res = parse(s).unwrap();
    assert!(res.paths[0].value() == b"driver");
    assert!(res.paths[1].value() == b"test");
}

#[test]
fn parse_drivers2() {
    let s = "////".as_bytes();
    let res = parse(s).unwrap();
    assert!(res.paths.len() == 0);
}

#[test]
fn parse_drivers3() {
    let s = "////2".as_bytes();
    let res = parse(s).unwrap();
    assert!(res.paths[0].value() == b"2");
}

#[test]
fn test_cli_exit_code_success() {
    // testing conversion from i32
    let from_i32: CliExitCode = 0.into();
    assert_eq!(from_i32, CliExitCode::Success);

    // testing conversion from u8
    let from_u8: CliExitCode = 0u8.into();
    assert_eq!(from_u8, CliExitCode::Success);

    // testing conversion into u8
    let into_u8: u8 = CliExitCode::Success.into();
    assert_eq!(into_u8, 0u8);

    // testing conversion into i32
    let into_i32: i32 = CliExitCode::Success.into();
    assert_eq!(into_i32, 0i32);
}

#[test]
fn exit_codes_round_trip() {
    for n in [0, 1, 2, 3, 4, 5, 6, 7, 8, 9, 10, 11, 12, 13, 15, 128] {
        let c: CliExitCode = n.into();
        let back: i32 = c.into();
        assert_eq!(back, n);
    }
    let c: CliExitCode = 14.into();
    assert_eq!(c, CliExitCode::UnknownError("exit code: 14".to_string()));
    let c: CliExitCode = (-2147483648i32).into();
    assert_eq!(c.message(), "Unknown error: exit code: -2147483648");
    let code: u8 = c.into();
    assert_eq!(code, 255);
    assert_eq!(CliExitCode::AppTimeout.message(), "The app timeout");
}
