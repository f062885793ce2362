use btc_wallet::der::{is_valid_sec1, sec1_to_der};

fn sec1(r: [u8; 32], s: [u8; 32]) -> Vec<u8> {
    let mut v = r.to_vec();
    v.extend_from_slice(&s);
    v
}

#[test]
fn der_of_small_scalars() {
    let mut r = [0u8; 32];
    r[31] = 1;
    let mut s = [0u8; 32];
    s[30] = 0x01;
    s[31] = 0x02;
    assert_eq!(sec1_to_der(sec1(r, s)), vec![0x30, 0x07, 0x02, 0x01, 0x01, 0x02, 0x02, 0x01, 0x02]);
}

#[test]
fn der_guards_high_bit() {
    let r = [0x80u8; 32];
    let mut s = [0u8; 32];
    s[31] = 0x7f;
    let der = sec1_to_der(sec1(r, s));
    assert_eq!(der.len(), 2 + 2 + 33 + 2 + 1);
    assert_eq!(&der[..5], &[0x30, 38, 0x02, 33, 0x00]);
    assert_eq!(&der[5..37], &[0x80u8; 32]);
    assert_eq!(&der[37..], &[0x02, 0x01, 0x7f]);
}

fn parse_der(d: &[u8]) -> Vec<u8> {
    assert_eq!(d[0], 0x30);
    assert_eq!(d[1] as usize, d.len() - 2);
    assert_eq!(d[2], 0x02);
    let rl = d[3] as usize;
    let r = &d[4..4 + rl];
    assert_eq!(d[4 + rl], 0x02);
    let sl = d[5 + rl] as usize;
    let s = &d[6 + rl..6 + rl + sl];
    let mut out = Vec::new();
    for part in [r, s] {
        let stripped: Vec<u8> = part.iter().copied().skip_while(|b| *b == 0).collect();
        out.extend(std::iter::repeat(0u8).take(32 - stripped.len()));
        out.extend(stripped);
    }
    out
}

#[test]
fn der_parses_back_to_the_same_scalars() {
    let mut r = [0u8; 32];
    for (i, b) in r.iter_mut().enumerate() {
        *b = (i as u8).wrapping_mul(37).wrapping_add(3);
    }
    r[0] = 0;
    r[1] = 0x9a;
    let mut s = [0x11u8; 32];
    s[0] = 0x7f;
    let sig = sec1(r, s);
    assert_eq!(parse_der(&sec1_to_der(sig.clone())), sig);
}

#[test]
fn zero_scalar_is_not_a_valid_signature() {
    let mut s = [0u8; 32];
    s[5] = 9;
    assert!(!is_valid_sec1(&sec1([0u8; 32], s)));
    assert!(!is_valid_sec1(&vec![1u8; 63]));
    assert!(is_valid_sec1(&sec1([1u8; 32], s)));
}
