use base64::Engine;
use hmac::Mac;
use link::auth::{SharedSecretAuth, SHARED_SECRET_ALG};

fn expected_signature(key: &str, secret: &str, serial: &str, timestamp: u64) -> String {
    let salt = format!(
        "NH1:device-socket:shared-secret:connect\n\nx-nh-alg={SHARED_SECRET_ALG}\nx-nh-key={key}\nx-nh-time={timestamp}"
    );
    let mut derived = [0u8; 32];
    pbkdf2::pbkdf2_hmac::<sha2::Sha256>(secret.as_bytes(), salt.as_bytes(), 1000, &mut derived);
    let mut mac = hmac::Hmac::<sha2::Sha256>::new_from_slice(&derived).unwrap();
    mac.update(serial.as_bytes());
    base64::engine::general_purpose::STANDARD.encode(mac.finalize().into_bytes())
}

#[test]
fn shared_secret_headers_carry_algorithm_key_time_and_signature() {
    let auth = SharedSecretAuth::new("key-1", "super-secret");
    let headers = auth.auth_headers("device-1234", 1_700_000_000);
    assert_eq!(headers.len(), 4);
    assert_eq!(headers[0], ("x-nh-alg".to_string(), "NH1-HMAC-sha256-1000-32".to_string()));
    assert_eq!(headers[1], ("x-nh-key".to_string(), "key-1".to_string()));
    assert_eq!(headers[2], ("x-nh-time".to_string(), "1700000000".to_string()));
    assert_eq!(headers[3].0, "x-nh-signature");
    assert_eq!(
        headers[3].1,
        expected_signature("key-1", "super-secret", "device-1234", 1_700_000_000)
    );
}

#[test]
fn shared_secret_salt_names_the_connect_purpose() {
    let auth = SharedSecretAuth::new("k", "s");
    assert_eq!(
        auth.salt(42),
        "NH1:device-socket:shared-secret:connect\n\nx-nh-alg=NH1-HMAC-sha256-1000-32\nx-nh-key=k\nx-nh-time=42"
    );
    assert_eq!(auth.algorithm(), SHARED_SECRET_ALG);
}

#[test]
fn shared_secret_signature_depends_on_secret_serial_and_time() {
    let a = SharedSecretAuth::new("k", "secret-a").auth_headers("dev", 1);
    let b = SharedSecretAuth::new("k", "secret-b").auth_headers("dev", 1);
    let c = SharedSecretAuth::new("k", "secret-a").auth_headers("other", 1);
    let d = SharedSecretAuth::new("k", "secret-a").auth_headers("dev", 2);
    let again = SharedSecretAuth::new("k", "secret-a").auth_headers("dev", 1);
    assert_ne!(a[3].1, b[3].1);
    assert_ne!(a[3].1, c[3].1);
    assert_ne!(a[3].1, d[3].1);
    assert_eq!(a[3].1, again[3].1);
}
