use vanity_search::keys::{generate, key_material, KeyMaterial, KEYPAIR_BYTES};

#[test]
fn key_material_encodes_the_bytes_in_base58() {
    let bytes = vec![0x04u8, 0x30, 0x5e, 0x2b, 0x24, 0x73, 0xf0, 0x58];
    let material = key_material("Address".to_string(), &bytes);
    assert_eq!(
        material,
        KeyMaterial {
            public_address: "Address".to_string(),
            private_key_encoding: "he11owor1d".to_string(),
        }
    );
}

#[test]
fn leading_zero_bytes_become_ones() {
    assert_eq!(key_material(String::new(), &vec![0u8, 0, 1]).private_key_encoding, "112");
    assert_eq!(key_material(String::new(), &vec![]).private_key_encoding, "");
    assert_eq!(key_material(String::new(), &vec![0u8]).private_key_encoding, "1");
    assert_eq!(key_material(String::new(), &vec![57u8]).private_key_encoding, "z");
    assert_eq!(key_material(String::new(), &vec![58u8]).private_key_encoding, "21");
}

#[test]
fn generated_key_pair_is_consistent() {
    let material = generate();
    let bytes = bs58::decode(material.private_key_encoding.as_str()).into_vec().unwrap();
    assert_eq!(bytes.len(), KEYPAIR_BYTES);
    assert_eq!(KEYPAIR_BYTES, 64);
    let address = bs58::encode(&bytes[32..]).into_string();
    assert_eq!(material.public_address, address);
    let pubkey = bs58::decode(material.public_address.as_str()).into_vec().unwrap();
    assert_eq!(pubkey.len(), 32);
}

#[test]
fn generated_key_pairs_differ() {
    let a = generate();
    let b = generate();
    assert_ne!(a.public_address, b.public_address);
    assert_ne!(a.private_key_encoding, b.private_key_encoding);
}
