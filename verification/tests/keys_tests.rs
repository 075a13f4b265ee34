use musig2_party::keys::{KeyPair, Musig2Error, PrivateKey, PublicKey};

fn scalar(v: u8) -> PrivateKey {
    let mut b = [0u8; 32];
    b[31] = v;
    PrivateKey::parse(&b).unwrap()
}

/// The base point's coordinates, a known constant of the curve.
const GEN_X: [u8; 32] = [
    0x79, 0xBE, 0x66, 0x7E, 0xF9, 0xDC, 0xBB, 0xAC, 0x55, 0xA0, 0x62, 0x95, 0xCE, 0x87, 0x0B,
    0x07, 0x02, 0x9B, 0xFC, 0xDB, 0x2D, 0xCE, 0x28, 0xD9, 0x59, 0xF2, 0x81, 0x5B, 0x16, 0xF8,
    0x17, 0x98,
];

#[test]
fn generator_has_the_known_x_coordinate() {
    let one = scalar(1);
    let g = PublicKey::create_from_private_key(&one).unwrap();
    assert_eq!(g.x_coor(), GEN_X);
    assert!(!g.is_odd_y());
}

#[test]
fn scalar_arithmetic_matches_small_values() {
    let one = scalar(1);
    let two = scalar(2);
    let three = scalar(3);
    assert_eq!(one.add_scalar(&two).unwrap().serialize(), three.serialize());
    assert_eq!(two.mul_scalar(&three).unwrap().serialize(), scalar(6).serialize());
    // x + (-x) is zero modulo the order, which add_scalar refuses.
    assert!(matches!(one.add_scalar(&one.neg()), Err(Musig2Error::InvalidPrivateKey)));
}

#[test]
fn private_key_parse_enforces_range_and_length() {
    // The group order itself is not below the order: refused.
    let order: [u8; 32] = [
        0xFF, 0xFF, 0xFF, 0xFF, 0xFF, 0xFF, 0xFF, 0xFF, 0xFF, 0xFF, 0xFF, 0xFF, 0xFF, 0xFF,
        0xFF, 0xFE, 0xBA, 0xAE, 0xDC, 0xE6, 0xAF, 0x48, 0xA0, 0x3B, 0xBF, 0xD2, 0x5E, 0x8C,
        0xD0, 0x36, 0x41, 0x41,
    ];
    assert!(matches!(PrivateKey::parse(&order), Err(Musig2Error::InvalidPrivateKey)));
    let mut below = order;
    below[31] = 0x40;
    assert!(PrivateKey::parse(&below).is_ok());
    assert!(matches!(PrivateKey::parse_slice(&[1, 2, 3]), Err(Musig2Error::InvalidInputLength)));
    let sk = scalar(7);
    assert_eq!(PrivateKey::parse_slice(&sk.serialize()).unwrap().serialize(), sk.serialize());
}

#[test]
fn point_serialize_parse_round_trips() {
    let sk = scalar(5);
    let p = PublicKey::create_from_private_key(&sk).unwrap();
    let ser = p.serialize();
    let q = PublicKey::parse(&ser).unwrap();
    assert_eq!(q.serialize(), ser);

    let compressed = p.serialize_compressed();
    assert_eq!(compressed[0], if p.is_odd_y() { 3 } else { 2 });
    assert_eq!(&compressed[1..33], &ser[1..33]);
    assert_eq!(p.x_coor(), <[u8; 32]>::try_from(&ser[1..33]).unwrap());
    assert_eq!(p.y_coor(), <[u8; 32]>::try_from(&ser[33..65]).unwrap());
}

#[test]
fn point_parse_rejects_junk() {
    let junk = [7u8; 65];
    assert!(matches!(PublicKey::parse(&junk), Err(Musig2Error::InvalidPublicKey)));
}

#[test]
fn parse_x_coor_lifts_a_real_x() {
    let g = PublicKey::create_from_private_key(&scalar(1)).unwrap();
    let lifted = PublicKey::parse_x_coor(&g.x_coor()).unwrap();
    assert_eq!(lifted.x_coor(), g.x_coor());
    assert!(!lifted.is_odd_y());
    // An x with no point on the curve is refused.
    let bad = [0xFFu8; 32];
    assert!(matches!(PublicKey::parse_x_coor(&bad), Err(Musig2Error::XCoordinateNotExist)));
}

#[test]
fn point_addition_is_not_the_identity_on_its_argument() {
    let g = PublicKey::create_from_private_key(&scalar(1)).unwrap();
    let two_g = g.add_point(&g).unwrap();
    assert_ne!(two_g.serialize(), g.serialize());
    let also_two_g = PublicKey::create_from_private_key(&scalar(2)).unwrap();
    assert_eq!(two_g.serialize(), also_two_g.serialize());
    let three_g = g.mul_scalar(&scalar(3)).unwrap();
    assert_eq!(three_g.serialize(), two_g.add_point(&g).unwrap().serialize());
    assert_eq!(scalar(3).mul_point(&g).unwrap().serialize(), three_g.serialize());
}

#[test]
fn negation_flips_parity_and_cancels() {
    let p = PublicKey::create_from_private_key(&scalar(9)).unwrap();
    let np = p.neg().unwrap();
    assert_eq!(np.x_coor(), p.x_coor());
    assert_ne!(np.is_odd_y(), p.is_odd_y());
    // p + (-p) is the point at infinity, which add_point refuses.
    assert_eq!(p.add_point(&np).err(), Some(Musig2Error::InvalidPublicKey));
}

#[test]
fn convert_vec_round_trips() {
    let pks = vec![
        PublicKey::create_from_private_key(&scalar(1)).unwrap(),
        PublicKey::create_from_private_key(&scalar(2)).unwrap(),
    ];
    let raw = PublicKey::convert_to_vec(pks.clone());
    assert_eq!(raw.len(), 2);
    let back = PublicKey::convert_from_vec(raw);
    assert_eq!(back.len(), 2);
    assert_eq!(back[0].serialize(), pks[0].serialize());
    assert_eq!(back[1].serialize(), pks[1].serialize());
}

#[test]
fn seeded_key_pairs_are_deterministic_and_hashed() {
    let kp1 = KeyPair::create_from_seed(&[1u8; 32]).unwrap();
    let kp2 = KeyPair::create_from_seed(&[1u8; 32]).unwrap();
    let kp3 = KeyPair::create_from_seed(&[2u8; 32]).unwrap();
    assert_eq!(kp1.private_key.serialize(), kp2.private_key.serialize());
    assert_eq!(kp1.public_key.serialize(), kp2.public_key.serialize());
    assert_ne!(kp1.private_key.serialize(), kp3.private_key.serialize());
    // The digest is not the seed handed back unchanged.
    assert_ne!(kp1.private_key.serialize(), [1u8; 32]);
    // The public point is not the private scalar handed back unchanged.
    assert_ne!(&kp1.public_key.serialize()[1..33], &kp1.private_key.serialize()[..]);
}

#[test]
fn random_keys_are_valid() {
    let kp = KeyPair::create().unwrap();
    let again = PublicKey::create_from_private_key(&kp.private_key).unwrap();
    assert_eq!(kp.public_key.serialize(), again.serialize());
}
