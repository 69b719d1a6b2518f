use ringct::account::{Account, KeyPair};
use ringct::group::{basepoint_g2, get_random_scalar, point_to_bytes, scalar_to_bytes, smul, Scalar};
use ringct::hash::Hasher;
use ringct::material::{get_random_scalars, Material};
use ringct::mlsag::Mlsag;
use ringct::prove::{NonnegativeProof, SumProof};
use ringct::token::Token;

#[test]
fn one_time_account_test() {
    let account = Account::new();
    let (one_time_account, blind_secret, _) = account.gen_one_time_account();
    let key = one_time_account
        .get_private_key(&account, blind_secret.get_blind_point())
        .unwrap();
    let expect_one_time_account = smul(&key, &basepoint_g2());
    assert_eq!(one_time_account.get_point(), expect_one_time_account);
}

#[test]
fn aes_test() {
    let data = "datatoencrypt".as_bytes().to_vec();
    let key: Vec<u8> = "abcdefghijklmnopqrstuvwxyzabcdef".as_bytes().to_vec();
    match ringct::aes::encrypt(&data, &key) {
        Ok(v) => match ringct::aes::decrypt(&v, &key) {
            Ok(expect_data) => {
                assert_eq!(expect_data, data)
            }
            Err(e) => panic!("{:?}", e),
        },
        Err(e) => panic!("{:?}", e),
    }
}

#[test]
fn sign_verify_test() {
    let msg: Vec<u8> = vec![1, 2, 3, 4, 5, 6];
    let key = get_random_scalar();
    let key_point = smul(&key, &basepoint_g2());

    let sign_msg = ringct::signature::sign(key, &mut msg.to_vec());
    let verify_result = ringct::signature::verify(key_point, &sign_msg, &mut msg.to_vec());
    assert_eq!(true, verify_result);

    let key_point = smul(&get_random_scalar(), &basepoint_g2());
    let verify_result = ringct::signature::verify(key_point, &sign_msg, &mut msg.to_vec());
    assert_eq!(false, verify_result);
}

fn generator_singer_material(size: usize) -> Material {
    let scalars = get_random_scalars(size);
    let key_pairs = scalars
        .into_iter()
        .map(|x| KeyPair {
            public_key: smul(&x, &basepoint_g2()),
            private_key: x,
        })
        .collect();
    Material::new_signer(key_pairs)
}

fn generator_decoys_material(decoy_size: usize, key_size: usize) -> Vec<Material> {
    let mut decoys_material = Vec::with_capacity(decoy_size);
    for _ in 0..decoy_size {
        let scalars = get_random_scalars(key_size);
        let key_pairs = scalars
            .into_iter()
            .map(|x| KeyPair {
                private_key: Scalar::zero(),
                public_key: smul(&x, &basepoint_g2()),
            })
            .collect();
        decoys_material.push(Material::new_decoys(key_pairs));
    }
    decoys_material
}

#[test]
fn mlsag_test() {
    let decoy_size = 5;
    let key_size = 3;
    let msg = b"hello world";

    let singer_material = generator_singer_material(key_size);
    let decoys_material = generator_decoys_material(decoy_size, key_size);
    let mlsag = Mlsag {
        signer: singer_material,
        decoys: decoys_material,
    };
    let sig = mlsag.sign(msg);
    assert!(sig.verify(msg))
}

#[test]
fn sum_proof_test() {
    let (input, input_secret) = Token::mint(100);
    let (output1, output_secret_1) = Token::mint(90);
    let (output2, output_secret_2) = Token::mint(10);

    let proof = SumProof::new_sum_proof(&input_secret, &output_secret_1, &output_secret_2);
    let verify = proof.verify_sum_proof(&input, &output1, &output2);
    assert_eq!(true, verify.unwrap());

    let (output2, output_secret_2) = Token::mint(110);
    let proof = SumProof::new_sum_proof(&input_secret, &output_secret_1, &output_secret_2);
    let verify = proof.verify_sum_proof(&input, &output1, &output2);
    assert_eq!(false, verify.unwrap())
}

#[test]
fn nonnegative_proof_test() {
    let (token, secret) = Token::mint(20);

    let pc_gens = bulletproofs::PedersenGens::default();
    let mut blind_bytes = [0u8; 32];
    blind_bytes.copy_from_slice(&scalar_to_bytes(&secret.blind));
    let blinding = curve25519_dalek_ng::scalar::Scalar::from_bits(blind_bytes);
    let commitment = pc_gens.commit(curve25519_dalek_ng::scalar::Scalar::from(20u64), blinding);
    assert_eq!(
        point_to_bytes(&token.get_point()),
        commitment.compress().to_bytes().to_vec()
    );

    let proof = NonnegativeProof::new(&secret);
    let verify = proof.verify(&token);
    assert!(verify)
}

#[test]
fn mint_test() {
    let (_, input_secret) = Token::mint(100);
    let key: Vec<u8> = "abcdefghijklmnopqrstuvwxyzabcdef".as_bytes().to_vec();
    let encry_input_secret = input_secret.encrypt(&key).unwrap();
    let expect_secrt = encry_input_secret.decrypt(&key).unwrap();
    assert_eq!(expect_secrt.balance, input_secret.balance);
    assert_eq!(expect_secrt.blind, input_secret.blind);
}

#[test]
fn sha_256_test() {
    let bytes = "example bytestring!";
    let result = Hasher::sha_256(bytes.as_bytes());
    let r = vec![
        152, 185, 148, 237, 204, 0, 101, 13, 162, 124, 114, 165, 29, 198, 179, 241, 44, 176, 105,
        181, 53, 221, 238, 76, 129, 94, 197, 124, 152, 133, 189, 36,
    ];
    assert_eq!(result, r);
}

#[test]
fn test() {
    let data = 100000u64;
    let data = data.to_ne_bytes().to_vec();
    println!("{}", ringct::bytes::read_integer(&data))
}
