use nino::crypto::{jwt_from_map, jwt_to_map, password_hash, password_verify};
use nino::ops::{nino_get_user_jwt, nino_password_hash, nino_password_verify};

#[test]
fn test_jwt_hashing() {
    let secret = String::from("nino");
    let mut map: Vec<(String, String)> = Vec::new();
    map.push(("key".to_owned(), "value".to_owned()));
    let jwt = jwt_from_map(&secret, map).unwrap();
    assert!(!jwt.is_empty());
    let map_decoded = jwt_to_map(&secret, &jwt).unwrap();
    let found = map_decoded.iter().find(|(k, _)| k == "key").unwrap();
    assert!("value" == found.1);
}

#[test]
fn test_password_hashing() {
    let password = String::from("p@ssw0rd");
    let hash = password_hash(&password).unwrap();
    assert!(password_verify(&password, &hash).unwrap());
    assert!(!password_verify("test", &hash).unwrap());
}

#[test]
fn test_print_password_hash() {
    let password = String::from("admin");
    let hash = password_hash(&password).unwrap();
    println!("password: {}", hash);
}

#[test]
fn jwt_claims_come_back_ordered_by_name() {
    let map = vec![
        ("user".to_owned(), "ann".to_owned()),
        ("a".to_owned(), "1".to_owned()),
    ];
    let jwt = jwt_from_map("nino", map).unwrap();
    let claims = jwt_to_map("nino", &jwt).unwrap();
    assert_eq!(
        claims,
        vec![("a".to_owned(), "1".to_owned()), ("user".to_owned(), "ann".to_owned())]
    );
}

#[test]
fn jwt_of_another_secret_is_turned_down() {
    let jwt = jwt_from_map("nino", vec![("user".to_owned(), "ann".to_owned())]).unwrap();
    assert!(jwt_to_map("other", &jwt).is_err());
    assert!(jwt_to_map("nino", "not.a.token").is_err());
    assert!(jwt_to_map("nino", "").is_err());
}

#[test]
fn jwt_is_three_parts_and_not_the_claims() {
    let jwt = nino_get_user_jwt("ann".to_owned()).unwrap();
    assert_eq!(jwt.split('.').count(), 3);
    assert_ne!(jwt, "ann");
    let claims = jwt_to_map("nino", &jwt).unwrap();
    assert_eq!(claims, vec![("user".to_owned(), "ann".to_owned())]);
}

#[test]
fn password_verify_turns_down_what_is_no_hash() {
    assert!(password_verify("secret", "secret").is_err());
    assert!(nino_password_verify("secret".to_owned(), String::new()).is_err());
}

#[test]
fn password_hash_is_salted() {
    let one = nino_password_hash("secret".to_owned()).unwrap();
    let two = nino_password_hash("secret".to_owned()).unwrap();
    assert_ne!(one, "secret");
    assert_ne!(one, two);
    assert!(nino_password_verify("secret".to_owned(), one).unwrap());
    assert!(nino_password_verify("secret".to_owned(), two).unwrap());
}
