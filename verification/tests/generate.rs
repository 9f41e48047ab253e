use ethercrab::generate::skip;

#[test]
fn skip_clamp() {
    let mut buf = [0u8, 1, 2, 3, 4, 5, 6, 7, 8, 9, 10];

    assert_eq!(skip(10, &mut buf), &[10]);
    assert_eq!(skip(11, &mut buf), &[]);
    assert_eq!(skip(12, &mut buf), &[]);
}

#[test]
fn skip_0() {
    let mut buf = [0u8, 1, 2, 3, 4, 5, 6, 7, 8, 9, 10];
    let mut expected = buf.clone();

    assert_eq!(skip(0, &mut buf), &mut expected);
}

#[test]
fn skip_1() {
    let mut buf = [0u8, 1, 2, 3, 4, 5, 6, 7, 8, 9, 10];
    let mut expected = [1, 2, 3, 4, 5, 6, 7, 8, 9, 10];

    assert_eq!(skip(1, &mut buf), &mut expected);
}

#[test]
fn skip_many() {
    let mut buf = [0u8, 1, 2, 3, 4, 5, 6, 7, 8, 9, 10];
    let mut expected = [5, 6, 7, 8, 9, 10];

    assert_eq!(skip(5, &mut buf), &mut expected);
}

#[test]
fn skip_writes_in_place() {
    let mut buf = [0u8; 6];
    let rest = skip(4, &mut buf);
    rest.copy_from_slice(&[7, 8]);
    assert_eq!(buf, [0, 0, 0, 0, 7, 8]);
}
