use ossuary::{generate_auth_keypair, ConnectionType, OssuaryConnection, KEY_LEN};

#[test]
fn keypair_public_belongs_to_secret() {
    let (secret, public) = generate_auth_keypair().unwrap();
    assert_eq!(secret.len(), KEY_LEN);
    let sk = ed25519_dalek::SecretKey::from_bytes(&secret).unwrap();
    let pk: ed25519_dalek::PublicKey = (&sk).into();
    assert_eq!(pk.to_bytes(), public);
    assert_ne!(secret, public);
}

#[test]
fn keypairs_differ() {
    let (s1, _) = generate_auth_keypair().unwrap();
    let (s2, _) = generate_auth_keypair().unwrap();
    assert_ne!(s1, s2);
}

#[test]
fn default_connection_is_fresh_client() {
    let conn = OssuaryConnection::default();
    assert_eq!(conn.connection_type(), ConnectionType::Client);
    assert_eq!(conn.reset_count(), 0);
}
