use std::str;
use tdyne_peer_id::BadPeerIdLengthError;
use tdyne_peer_id::PeerId;

#[test]
fn length_error() {
    let ok_vec = vec![0u8; 20];
    assert!(PeerId::try_from(ok_vec.as_slice()).is_ok());

    let bad_vec = vec![0u8; 21];
    let e = PeerId::try_from(bad_vec.as_slice()).unwrap_err();
    assert_eq!(e.0, 21);
    assert!(e.to_string().contains("21"));
}

#[test]
fn to_safe() {
    let bytes = b"-TR0072-abvd7xkqq04n";
    let peer_id = PeerId::from(bytes);
    assert_eq!(&peer_id.to_safe(), str::from_utf8(bytes).unwrap());

    let bytes = b"-TR0072-*\x00\x01d7xkqq04n";
    let safe = "-TR0072-???d7xkqq04n";
    let peer_id = PeerId::from(bytes);
    assert_eq!(&peer_id.to_safe(), safe);
}

#[test]
fn from_array_keeps_the_bytes() {
    let bytes: [u8; 20] = [
        0, 1, 2, 3, 4, 5, 6, 7, 8, 9, 250, 251, 252, 253, 254, 255, 128, 127, 64, 32,
    ];
    let peer_id = PeerId::from(bytes);
    assert_eq!(peer_id.0, bytes);
    assert_eq!(peer_id.as_ref(), &bytes);
}

#[test]
fn from_borrowed_array_keeps_the_bytes() {
    let bytes = b"-TR0000-*\x00\x01d7xkqq04n";
    let peer_id = PeerId::from(bytes);
    assert_eq!(peer_id.as_ref(), bytes);
    assert_eq!(PeerId::from(*bytes), peer_id);
}

#[test]
fn try_from_twenty_bytes_agrees_with_from() {
    let bytes = b"-TR0000-*\x00\x01d7xkqq04n";
    let slice: &[u8] = bytes;
    let made = PeerId::try_from(slice).unwrap();
    assert_eq!(made, PeerId::from(bytes));
    assert_eq!(made.as_ref(), bytes);
}

#[test]
fn try_from_copies_every_position() {
    let mut bytes = [0u8; 20];
    for (i, byte) in bytes.iter_mut().enumerate() {
        *byte = 200 + i as u8;
    }
    let made = PeerId::try_from(&bytes[..]).unwrap();
    assert_eq!(made.0, bytes);
}

#[test]
fn try_from_empty_slice_reports_zero() {
    let empty: &[u8] = &[];
    assert_eq!(PeerId::try_from(empty), Err(BadPeerIdLengthError(0)));
}

#[test]
fn try_from_short_slice_reports_its_length() {
    let short: &[u8] = b"-TR0000-";
    assert_eq!(PeerId::try_from(short).unwrap_err(), BadPeerIdLengthError(8));
}

#[test]
fn try_from_neighbouring_lengths_fail() {
    let bytes = [7u8; 22];
    assert_eq!(PeerId::try_from(&bytes[..19]), Err(BadPeerIdLengthError(19)));
    assert_eq!(PeerId::try_from(&bytes[..21]), Err(BadPeerIdLengthError(21)));
    assert_eq!(PeerId::try_from(&bytes[..]), Err(BadPeerIdLengthError(22)));
    assert!(PeerId::try_from(&bytes[..20]).is_ok());
}

#[test]
fn try_from_long_slice_reports_its_length() {
    let long = vec![0u8; 1000];
    let e = PeerId::try_from(long.as_slice()).unwrap_err();
    assert_eq!(e.0, 1000);
}

#[test]
fn equality_is_bytewise() {
    let a = PeerId::from(b"-TR0072-abvd7xkqq04n");
    let b = PeerId::from(b"-TR0072-abvd7xkqq04n");
    let first_differs = PeerId::from(b"+TR0072-abvd7xkqq04n");
    let last_differs = PeerId::from(b"-TR0072-abvd7xkqq04m");
    assert_eq!(a, b);
    assert_ne!(a, first_differs);
    assert_ne!(a, last_differs);
    assert!(a == b);
    assert!(a != last_differs);
}

#[test]
fn copy_is_independent() {
    let a = PeerId::from([1u8; 20]);
    let mut b = a;
    b.0[0] = 2;
    assert_eq!(a.0, [1u8; 20]);
    assert_ne!(a, b);
    assert_eq!(a.clone(), a);
}

#[test]
fn debug_shows_the_bytes() {
    let shown = format!("{:?}", PeerId::from([0u8; 20]));
    assert!(shown.starts_with("PeerId("));
}

#[test]
fn to_string_equals_to_safe() {
    let ids = [
        PeerId::from(b"-TR0000-*\x00\x01d7xkqq04n"),
        PeerId::from(b"-TR0072-abvd7xkqq04n"),
        PeerId::from([0u8; 20]),
        PeerId::from([0xffu8; 20]),
        PeerId::from(b"\xe2\x82\xac\xc3\xa9\xf0\x9f\x92\x96\xe2\x82-AZaz09.?"),
    ];
    for id in ids {
        assert_eq!(id.to_string(), id.to_safe());
    }
    assert_eq!(
        PeerId::from(b"-TR0000-*\x00\x01d7xkqq04n").to_string(),
        "-TR0000-???d7xkqq04n"
    );
}
