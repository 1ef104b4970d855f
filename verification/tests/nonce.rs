use ossuary::nonce::increment_nonce;

#[test]
fn increment_low_byte() {
    let mut n = [0u8, 0];
    assert!(!increment_nonce(&mut n));
    assert_eq!(n, [0, 1]);
}

#[test]
fn increment_carries() {
    let mut n = [0u8, 0xff];
    assert!(!increment_nonce(&mut n));
    assert_eq!(n, [1, 0]);
    let mut m = [0x12u8, 0xff, 0xff];
    assert!(!increment_nonce(&mut m));
    assert_eq!(m, [0x13, 0, 0]);
}

#[test]
fn increment_wraps() {
    let mut n = [0xffu8; 12];
    assert!(increment_nonce(&mut n));
    assert_eq!(n, [0u8; 12]);
}

#[test]
fn increment_empty_wraps() {
    let mut n: [u8; 0] = [];
    assert!(increment_nonce(&mut n));
}

#[test]
fn increment_many_times() {
    let mut n = [0u8; 12];
    for _ in 0..300 {
        assert!(!increment_nonce(&mut n));
    }
    let mut expect = [0u8; 12];
    expect[10] = 1;
    expect[11] = 44;
    assert_eq!(n, expect);
}

#[test]
fn one_byte_nonce_period() {
    let start = [0x37u8];
    let mut n = start;
    let mut wraps = 0;
    for k in 0..256u32 {
        let r = increment_nonce(&mut n);
        let expect = (0x37u32 + k + 1) % 256;
        assert_eq!(n[0] as u32, expect);
        assert_eq!(r, expect == 0);
        if r {
            wraps += 1;
        }
    }
    assert_eq!(n, start);
    assert_eq!(wraps, 1);
}
