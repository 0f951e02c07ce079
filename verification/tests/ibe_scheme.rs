use ibe_chl::ibe::{decrypt, encrypt, keygen, setup};
use ibe_chl::pairings::G2Element;
use rand_core::{OsRng, RngCore};

fn fresh_bytes() -> [u8; 32] {
    let mut b = [0u8; 32];
    OsRng.fill_bytes(&mut b);
    b
}

#[test]
fn test_ibe_basic() {
    let seed = fresh_bytes();
    let (pp, msk) = setup(&seed);
    let key = keygen(msk, b"id1");

    let sigma = fresh_bytes();
    let ciphertext = encrypt(&pp, b"id1", b"msg1", &sigma);

    let msg1_decrypted = decrypt(&pp, &key, &ciphertext);
    assert_eq!(msg1_decrypted.is_ok(), true);
    assert_eq!(msg1_decrypted.unwrap(), b"msg1");
}

#[test]
fn test_wrong_identity_key_fails() {
    let seed = fresh_bytes();
    let (pp, msk) = setup(&seed);
    let key = keygen(msk, b"other-id");

    let sigma = fresh_bytes();
    let ciphertext = encrypt(&pp, b"id1", b"msg1", &sigma);

    assert!(decrypt(&pp, &key, &ciphertext).is_err());
}

#[test]
fn test_tamper_detection() {
    let seed = fresh_bytes();
    let (pp, msk) = setup(&seed);
    let key = keygen(msk, b"id1");

    let sigma = fresh_bytes();
    let mut ct = encrypt(&pp, b"id1", b"tamper test msg", &sigma);
    assert!(decrypt(&pp, &key, &ct).is_ok());

    // Flip single bits of the masked seed v, in the first and last byte and
    // across one whole byte, restoring each before the next trial.
    let v_last = ct.v.len() - 1;
    for (i, bit) in [(0usize, 0u8), (v_last, 7u8), (16, 3u8)] {
        ct.v[i] ^= 1u8 << bit;
        assert!(decrypt(&pp, &key, &ct).is_err());
        ct.v[i] ^= 1u8 << bit;
    }

    // The same for the masked message w.
    let w_last = ct.w.len() - 1;
    for (i, bit) in [(0usize, 0u8), (w_last, 7u8), (7, 5u8)] {
        ct.w[i] ^= 1u8 << bit;
        assert!(decrypt(&pp, &key, &ct).is_err());
        ct.w[i] ^= 1u8 << bit;
    }

    // Tamper with the commitment point u through its byte encoding. The
    // flipped tag bit selects the negated point, which decodes fine but must
    // be rejected by decryption's integrity check.
    let u_bytes = ct.u.to_bytes();
    let mut flipped = u_bytes.clone();
    flipped[0] ^= 0x01;
    match G2Element::from_bytes(&flipped) {
        Ok(u2) => {
            ct.u = u2;
            assert!(decrypt(&pp, &key, &ct).is_err());
        },
        Err(_) => (),
    }
    // A flipped coordinate bit is caught at decoding or by the integrity
    // check.
    let mut flipped_x = u_bytes.clone();
    flipped_x[20] ^= 0x10;
    match G2Element::from_bytes(&flipped_x) {
        Ok(u3) => {
            ct.u = u3;
            assert!(decrypt(&pp, &key, &ct).is_err());
        },
        Err(_) => (),
    }
    // Restored ciphertext still decrypts.
    ct.u = G2Element::from_bytes(&u_bytes).unwrap();
    assert_eq!(decrypt(&pp, &key, &ct).unwrap(), b"tamper test msg");
}

#[test]
fn test_ciphertext_shape() {
    let seed = fresh_bytes();
    let (pp, _msk) = setup(&seed);
    let sigma = fresh_bytes();
    let ct = encrypt(&pp, b"id1", b"abcde", &sigma);
    // v is as long as the seed, w as long as the message.
    assert_eq!(ct.v.len(), 32);
    assert_eq!(ct.w.len(), 5);
    // The message is masked, not carried in the clear.
    assert_ne!(ct.w, b"abcde".to_vec());
}
