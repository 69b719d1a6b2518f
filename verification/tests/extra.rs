use ringct::account::Account;
use ringct::confidential_transaction::ConfidentialTransaction;
use ringct::error::Error;
use ringct::group::{
    basepoint_g1, basepoint_g2, bytes_to_point, bytes_to_scalar, get_random_scalar,
    point_to_bytes, smul,
};
use ringct::prove::NonnegativeProof;
use ringct::ring_confidential_transaction::RingCT;
use ringct::token::{EncryptoTokenSecret, Token};

fn mint_ct(owner: &Account, amount: u64) -> ConfidentialTransaction {
    let (one_time_account, blind_pair, symmetric_key) = owner.gen_one_time_account();
    let (token, token_secrt) = Token::mint(amount);
    let encrypto_token_secret = token_secrt.encrypt(&symmetric_key).unwrap();
    let nonnegative_proof = NonnegativeProof::new(&token_secrt);

    ConfidentialTransaction {
        one_time_account,
        blind_point: blind_pair.get_blind_point(),
        token,
        nonnegative_proof,
        encrypto_token_secret,
    }
}

#[test]
fn stealth_recovery_by_other_account_fails() {
    let account = Account::new();
    let intruder = Account::new();
    let (one_time_account, blind_pair, _) = account.gen_one_time_account();
    let r = one_time_account.get_private_key(&intruder, blind_pair.get_blind_point());
    assert_eq!(r.unwrap_err(), Error::NotRecipient);
}

#[test]
fn commitments_hide_and_bind() {
    let (t1, _) = Token::mint(42);
    let (t2, _) = Token::mint(42);
    let (t3, _) = Token::mint(43);
    // Fresh blindings make equal balances commit differently.
    assert_ne!(point_to_bytes(&t1.get_point()), point_to_bytes(&t2.get_point()));
    assert_ne!(point_to_bytes(&t1.get_point()), point_to_bytes(&t3.get_point()));
}

#[test]
fn decrypt_with_wrong_key_does_not_return_balance() {
    let (_, secret) = Token::mint(100);
    let key: Vec<u8> = "abcdefghijklmnopqrstuvwxyzabcdef".as_bytes().to_vec();
    let wrong: Vec<u8> = "ABCDEFGHIJKLMNOPQRSTUVWXYZABCDEF".as_bytes().to_vec();
    let enc = secret.encrypt(&key).unwrap();
    match enc.decrypt(&wrong) {
        Ok(ts) => assert_ne!(ts.balance, 100),
        Err(e) => assert_eq!(e, Error::DecryptError),
    }
}

#[test]
fn ciphertext_differs_from_plaintext() {
    let data = "datatoencrypt".as_bytes().to_vec();
    let key: Vec<u8> = "abcdefghijklmnopqrstuvwxyzabcdef".as_bytes().to_vec();
    let c = ringct::aes::encrypt(&data, &key).unwrap();
    assert_ne!(c, data);
    assert_eq!(c.len(), 16, "PKCS padding rounds up to the next block");
    assert_eq!(
        ringct::aes::encrypt(&data, &key).unwrap(),
        c,
        "the fixed-IV cipher is deterministic"
    );
}

#[test]
fn decrypt_rejects_oversized_padding_claims() {
    // A ciphertext whose final block decrypts to sixteen identical bytes
    // above sixteen claims an impossible pad width; it must be rejected,
    // not tear down the caller.
    let key = vec![7u8; 32];
    let plain = vec![0x77u8; 16];
    let c = ringct::aes::encrypt(&plain, &key).unwrap();
    assert_eq!(c.len(), 32);
    let truncated = c[..16].to_vec();
    assert_eq!(
        ringct::aes::decrypt(&truncated, &key).unwrap_err(),
        Error::CipherError
    );
}

#[test]
fn cipher_rejects_bad_keys_and_buffers() {
    let data = vec![1u8, 2, 3];
    let short_key = vec![0u8; 31];
    assert_eq!(ringct::aes::encrypt(&data, &short_key).unwrap_err(), Error::CipherError);
    let key = vec![7u8; 32];
    assert_eq!(ringct::aes::decrypt(&[1u8, 2, 3], &key).unwrap_err(), Error::CipherError);
    let garbage = EncryptoTokenSecret {
        balance_crypto: vec![1u8, 2, 3],
        blind_crypto: vec![4u8, 5, 6],
    };
    assert_eq!(garbage.decrypt(&key).unwrap_err(), Error::DecryptError);
}

#[test]
fn point_parsing_rejects_malformed_buffers() {
    assert_eq!(bytes_to_point(&[0u8; 31]).unwrap_err(), Error::ParseError);
    assert_eq!(bytes_to_point(&[0xffu8; 32]).unwrap_err(), Error::ParseError);
    let p = basepoint_g2();
    let bytes = point_to_bytes(&p);
    assert_eq!(point_to_bytes(&bytes_to_point(&bytes).unwrap()), bytes);
    assert_eq!(bytes_to_scalar(&[1u8; 31]).unwrap_err(), Error::ParseError);
}

#[test]
fn group_operations_move_points() {
    let s = get_random_scalar();
    let g1 = basepoint_g1();
    let g2 = basepoint_g2();
    assert_ne!(point_to_bytes(&g1), point_to_bytes(&g2));
    let sp = smul(&s, &g2);
    assert_ne!(point_to_bytes(&sp), point_to_bytes(&g2));
    assert_ne!(point_to_bytes(&sp), point_to_bytes(&g1));
}

#[test]
fn read_integer_exact_value() {
    let data = vec![1u8, 2, 3, 4, 5, 6, 7, 8, 0xff];
    assert_eq!(ringct::bytes::read_integer(&data), 0x0807060504030201u64);
    let v = ringct::bytes::to_bytes32_slice(&[9u8; 32]).unwrap();
    assert_eq!(v, vec![9u8; 32]);
    assert_eq!(ringct::bytes::to_bytes32_slice(&[9u8; 33]).unwrap_err(), Error::ParseError);
}

#[test]
fn single_spend_transfer_and_verify() {
    let admin = Account::new();
    let user1 = Account::new();
    let ct = mint_ct(&admin, 1000);

    let sign_tx = ct.transfer(&admin, &user1, 400).unwrap();
    assert!(sign_tx.verify().unwrap());

    let admin_output = &sign_tx.outputs[0];
    let user1_output = &sign_tx.outputs[1];
    let admin_key = admin_output
        .one_time_account
        .get_private_key(&admin, admin_output.blind_point)
        .unwrap();
    assert_eq!(admin_output.decrypt_token_secrt(admin_key).unwrap().balance, 600);
    let user1_key = user1_output
        .one_time_account
        .get_private_key(&user1, user1_output.blind_point)
        .unwrap();
    assert_eq!(user1_output.decrypt_token_secrt(user1_key).unwrap().balance, 400);
}

#[test]
fn single_spend_rejects_overdraft_and_strangers() {
    let admin = Account::new();
    let user1 = Account::new();
    let intruder = Account::new();
    let ct = mint_ct(&admin, 100);
    assert!(matches!(ct.transfer(&admin, &user1, 101), Err(Error::InsufficientBalance)));
    assert!(matches!(ct.transfer(&intruder, &user1, 10), Err(Error::NotRecipient)));
    let full = ct.transfer(&admin, &user1, 100).unwrap();
    assert!(full.verify().unwrap());
}

#[test]
fn mlsag_mutations_break_verification() {
    let decoy_size = 3;
    let key_size = 2;
    let msg = b"hello world";

    let scalars = ringct::material::get_random_scalars(key_size);
    let signer_kps: Vec<ringct::account::KeyPair> = scalars
        .into_iter()
        .map(|x| ringct::account::KeyPair {
            public_key: smul(&x, &basepoint_g2()),
            private_key: x,
        })
        .collect();
    let mut decoys = Vec::new();
    for _ in 0..decoy_size {
        let ds = ringct::material::get_random_scalars(key_size);
        let kps: Vec<ringct::account::KeyPair> = ds
            .into_iter()
            .map(|x| ringct::account::KeyPair {
                public_key: smul(&x, &basepoint_g2()),
                private_key: ringct::group::Scalar::zero(),
            })
            .collect();
        decoys.push(ringct::material::Material::new_decoys(kps));
    }
    let mlsag = ringct::mlsag::Mlsag {
        signer: ringct::material::Material::new_signer(signer_kps),
        decoys,
    };
    let sig = mlsag.sign(msg);
    assert!(sig.verify(msg));
    assert!(!sig.verify(b"hello worle"));

    let mut tampered_response = mlsag.sign(msg);
    tampered_response.s[0][0] = get_random_scalar();
    assert!(!tampered_response.verify(msg));

    let mut tampered_key = mlsag.sign(msg);
    tampered_key.public_keys[1][0] = smul(&get_random_scalar(), &basepoint_g2());
    assert!(!tampered_key.verify(msg));
}

#[test]
fn ring_transfer_conserves_value() {
    let owner = Account::new();
    let decoy_owner_a = Account::new();
    let decoy_owner_b = Account::new();
    let out1 = Account::new();
    let out2 = Account::new();

    let input_tx = vec![mint_ct(&owner, 60), mint_ct(&owner, 40)];
    let decoys = vec![
        vec![mint_ct(&decoy_owner_a, 17), mint_ct(&decoy_owner_a, 4)],
        vec![mint_ct(&decoy_owner_b, 9), mint_ct(&decoy_owner_b, 55)],
    ];
    let ring_ct = RingCT {
        ownership_account: owner,
        input_tx,
        output_account: vec![(out1, 30), (out2, 70)],
        decoys,
    };
    let ring_sig = ring_ct.transfer().unwrap();
    assert!(ring_sig.verify());
}

#[test]
fn ring_transfer_rejects_bad_shapes() {
    let owner = Account::new();
    let decoy_owner = Account::new();
    let out1 = Account::new();

    // A decoy set with a mismatched input count is rejected before signing.
    let ring_ct = RingCT {
        ownership_account: owner.clone(),
        input_tx: vec![mint_ct(&owner, 100)],
        output_account: vec![(out1.clone(), 100)],
        decoys: vec![vec![mint_ct(&decoy_owner, 5), mint_ct(&decoy_owner, 6)]],
    };
    assert!(matches!(ring_ct.transfer(), Err(Error::ShapeError)));

    // Amounts that do not balance are rejected.
    let ring_ct = RingCT {
        ownership_account: owner.clone(),
        input_tx: vec![mint_ct(&owner, 100)],
        output_account: vec![(out1.clone(), 90)],
        decoys: vec![vec![mint_ct(&decoy_owner, 5)]],
    };
    assert!(matches!(ring_ct.transfer(), Err(Error::ShapeError)));

    // Input balances beyond 64 bits are rejected.
    let ring_ct = RingCT {
        ownership_account: owner.clone(),
        input_tx: vec![mint_ct(&owner, u64::MAX), mint_ct(&owner, 1)],
        output_account: vec![(out1, 1)],
        decoys: vec![],
    };
    assert!(matches!(ring_ct.transfer(), Err(Error::AmountOverflow)));
}

#[test]
fn ring_transfer_with_no_decoys() {
    let owner = Account::new();
    let out = Account::new();
    let ring_ct = RingCT {
        ownership_account: owner.clone(),
        input_tx: vec![mint_ct(&owner, 5)],
        output_account: vec![(out, 5)],
        decoys: vec![],
    };
    let ring_sig = ring_ct.transfer().unwrap();
    assert!(ring_sig.verify());
}

#[test]
fn ring_key_images_are_stable_per_spending_key() {
    let owner = Account::new();
    let out = Account::new();
    let ring_ct = RingCT {
        ownership_account: owner.clone(),
        input_tx: vec![mint_ct(&owner, 60), mint_ct(&owner, 40)],
        output_account: vec![(out, 100)],
        decoys: vec![],
    };
    let s1 = ring_ct.transfer().unwrap();
    let s2 = ring_ct.transfer().unwrap();
    assert_eq!(s1.get_outputs().len(), 1);
    let k1 = s1.get_key_images();
    let k2 = s2.get_key_images();
    assert_eq!(k1.len(), 3);
    // The images of the real spending keys are deterministic, so a ledger
    // can link a reuse of the same input across signatures.
    assert_eq!(point_to_bytes(&k1[0]), point_to_bytes(&k2[0]));
    assert_eq!(point_to_bytes(&k1[1]), point_to_bytes(&k2[1]));
    // The synthetic conservation image depends on the fresh output
    // blindings and differs between the two spends.
    assert_ne!(point_to_bytes(&k1[2]), point_to_bytes(&k2[2]));
}
