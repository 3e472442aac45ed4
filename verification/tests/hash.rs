use base64::Engine;
use actix_web_csp::CspError;
use actix_web_csp::HashAlgorithm;
use actix_web_csp::HashGenerator;

#[test]
fn test_hash_algorithm_creation() {
    let sha256 = HashAlgorithm::Sha256;
    let sha384 = HashAlgorithm::Sha384;
    let sha512 = HashAlgorithm::Sha512;

    assert_eq!(sha256.name(), "sha256");
    assert_eq!(sha384.name(), "sha384");
    assert_eq!(sha512.name(), "sha512");
}

#[test]
fn test_hash_algorithm_prefix() {
    assert_eq!(HashAlgorithm::Sha256.prefix(), "'sha256-");
    assert_eq!(HashAlgorithm::Sha384.prefix(), "'sha384-");
    assert_eq!(HashAlgorithm::Sha512.prefix(), "'sha512-");
}

#[test]
fn test_hash_algorithm_display() {
    assert_eq!(HashAlgorithm::Sha256.to_string(), "sha256");
    assert_eq!(HashAlgorithm::Sha384.to_string(), "sha384");
    assert_eq!(HashAlgorithm::Sha512.to_string(), "sha512");
}

#[test]
fn test_hash_algorithm_try_from_valid() {
    assert_eq!(
        HashAlgorithm::try_from("sha256").unwrap(),
        HashAlgorithm::Sha256
    );
    assert_eq!(
        HashAlgorithm::try_from("sha384").unwrap(),
        HashAlgorithm::Sha384
    );
    assert_eq!(
        HashAlgorithm::try_from("sha512").unwrap(),
        HashAlgorithm::Sha512
    );
}

#[test]
fn test_hash_algorithm_try_from_invalid() {
    let result = HashAlgorithm::try_from("md5");
    assert!(result.is_err());

    if let Err(CspError::InvalidHashAlgorithm(algo)) = result {
        assert_eq!(algo, "md5");
    } else {
        panic!("Expected InvalidHashAlgorithm error");
    }
}

#[test]
fn test_hash_algorithm_equality() {
    let sha256_1 = HashAlgorithm::Sha256;
    let sha256_2 = HashAlgorithm::Sha256;
    let sha384 = HashAlgorithm::Sha384;

    assert_eq!(sha256_1, sha256_2);
    assert_ne!(sha256_1, sha384);
}

#[test]
fn test_hash_algorithm_digest_algorithm() {
    let sha256 = HashAlgorithm::Sha256;
    let digest_algo = sha256.digest_algorithm();

    assert_eq!(digest_algo, &ring::digest::SHA256);
}

#[test]
fn test_hash_generator_generate() {
    let content = b"console.log('Hello, World!');";

    let hash = HashGenerator::generate(HashAlgorithm::Sha256, content);
    assert!(!hash.is_empty());

    let hash2 = HashGenerator::generate(HashAlgorithm::Sha256, content);
    assert_eq!(hash, hash2);
}

#[test]
fn test_hash_generator_different_algorithms() {
    let content = b"test content";

    let sha256_hash = HashGenerator::generate(HashAlgorithm::Sha256, content);
    let sha384_hash = HashGenerator::generate(HashAlgorithm::Sha384, content);
    let sha512_hash = HashGenerator::generate(HashAlgorithm::Sha512, content);

    assert_ne!(sha256_hash, sha384_hash);
    assert_ne!(sha256_hash, sha512_hash);
    assert_ne!(sha384_hash, sha512_hash);

    assert_ne!(sha256_hash.len(), sha384_hash.len());
    assert_ne!(sha256_hash.len(), sha512_hash.len());
}

#[test]
fn test_hash_generator_empty_content() {
    let empty_content = b"";

    let hash = HashGenerator::generate(HashAlgorithm::Sha256, empty_content);
    assert!(!hash.is_empty());
}

#[test]
fn test_hash_generator_large_content() {
    let large_content = vec![b'a'; 10000];

    let hash = HashGenerator::generate(HashAlgorithm::Sha256, &large_content);
    assert!(!hash.is_empty());
}

#[test]
fn test_hash_generation_for_csp() {
    let content = b"console.log('Hello, World!');";
    let hash = HashGenerator::generate(HashAlgorithm::Sha256, content);

    assert!(!hash.is_empty());

    let hash2 = HashGenerator::generate(HashAlgorithm::Sha256, content);
    assert_eq!(hash, hash2);

    let different_content = b"alert('Hello, World!');";
    let hash3 = HashGenerator::generate(HashAlgorithm::Sha256, different_content);
    assert_ne!(hash, hash3);
}

#[test]
fn test_hash_source_generation() {
    let content = b"console.log('Hello, World!');";
    let source = HashGenerator::generate_source(HashAlgorithm::Sha256, content);

    assert!(source.contains_hash());

    let source_str = source.to_string();
    assert!(source_str.starts_with("'sha256-"));
    assert!(source_str.ends_with("'"));
}

#[test]
fn test_hash_generation_different_algorithms() {
    let content = b"test content";
    let sha256_hash = HashGenerator::generate(HashAlgorithm::Sha256, content);
    let sha384_hash = HashGenerator::generate(HashAlgorithm::Sha384, content);
    let sha512_hash = HashGenerator::generate(HashAlgorithm::Sha512, content);

    assert_ne!(sha256_hash, sha384_hash);
    assert_ne!(sha256_hash, sha512_hash);
    assert_ne!(sha384_hash, sha512_hash);
}

#[test]
fn test_hash_generation_empty_content() {
    let empty_content = b"";
    let hash = HashGenerator::generate(HashAlgorithm::Sha256, empty_content);

    assert!(!hash.is_empty());
}

#[test]
fn test_hash_generation_large_content() {
    let large_content = vec![b'a'; 10000];
    let hash = HashGenerator::generate(HashAlgorithm::Sha256, &large_content);

    assert!(!hash.is_empty());
}

#[test]
fn digest_text_of_known_inputs() {
    assert_eq!(
        HashGenerator::generate(HashAlgorithm::Sha256, b"abc"),
        "ungWv48Bz+pBQUDeXa4iI7ADYaOWF3qctBD/YfIAFa0="
    );
    assert_eq!(
        HashGenerator::generate(HashAlgorithm::Sha256, b""),
        "47DEQpj8HBSa+/TImW+5JCeuQeRkm5NMpJWZG3hSuFU="
    );
    assert_eq!(
        HashGenerator::generate(HashAlgorithm::Sha384, b"abc"),
        "ywB1P0WjXou1oD1pmsZQBycsMqsO3tFjGotgWkP/W+2AhgcroefMI1i67KE0yCWn"
    );
    assert_eq!(
        HashGenerator::generate(HashAlgorithm::Sha512, b"abc"),
        "3a81oZNherrMQXNJriBBMRLm+k6JqX6iCp7u5ktV05ohkpkqJ0/BqDa6PCOj/uu9RU1EI2Q86A4qmslPpUyknw=="
    );
}

#[test]
fn digest_of_long_input_is_the_one_shot_digest() {
    let mut data: Vec<u8> = Vec::new();
    for i in 0..50_000u32 {
        data.push((i % 251) as u8);
    }
    for algorithm in [
        HashAlgorithm::Sha256,
        HashAlgorithm::Sha384,
        HashAlgorithm::Sha512,
    ] {
        let through_library = HashGenerator::generate(algorithm, &data);
        let one_shot = ring::digest::digest(algorithm.digest_algorithm(), &data);
        let expected = base64_of(one_shot.as_ref());
        assert_eq!(through_library, expected);
    }
}

fn base64_of(bytes: &[u8]) -> String {
    base64::engine::general_purpose::STANDARD.encode(bytes)
}

#[test]
fn hash_round_trip_for_every_algorithm() {
    let empty: Vec<u8> = Vec::new();
    let large: Vec<u8> = vec![7u8; 20_000];
    for algorithm in [
        HashAlgorithm::Sha256,
        HashAlgorithm::Sha384,
        HashAlgorithm::Sha512,
    ] {
        for data in [&empty, &large] {
            let digest = HashGenerator::generate(algorithm, data);
            assert!(HashGenerator::verify_hash(algorithm, data, &digest));
        }
        let digest = HashGenerator::generate(algorithm, &large);
        let mut changed = large.clone();
        changed[12_345] = 8;
        assert!(!HashGenerator::verify_hash(algorithm, &changed, &digest));
        assert!(!HashGenerator::verify_hash(algorithm, &large, "not-a-digest"));
    }
}

#[test]
fn generate_multiple_answers_in_order() {
    let requests: Vec<(HashAlgorithm, &[u8])> = vec![
        (HashAlgorithm::Sha512, b"abc"),
        (HashAlgorithm::Sha256, b"abc"),
        (HashAlgorithm::Sha256, b""),
    ];
    let digests = HashGenerator::generate_multiple(&requests);
    assert_eq!(digests.len(), 3);
    assert_eq!(
        digests[0],
        "3a81oZNherrMQXNJriBBMRLm+k6JqX6iCp7u5ktV05ohkpkqJ0/BqDa6PCOj/uu9RU1EI2Q86A4qmslPpUyknw=="
    );
    assert_eq!(digests[1], "ungWv48Bz+pBQUDeXa4iI7ADYaOWF3qctBD/YfIAFa0=");
    assert_eq!(digests[2], "47DEQpj8HBSa+/TImW+5JCeuQeRkm5NMpJWZG3hSuFU=");
}

#[test]
fn batch_verify_answers_at_the_positions_of_the_requests() {
    let abc256 = "ungWv48Bz+pBQUDeXa4iI7ADYaOWF3qctBD/YfIAFa0=";
    let abc384 = "ywB1P0WjXou1oD1pmsZQBycsMqsO3tFjGotgWkP/W+2AhgcroefMI1i67KE0yCWn";
    let requests: Vec<(HashAlgorithm, &[u8], &str)> = vec![
        (HashAlgorithm::Sha384, b"abc", abc384),
        (HashAlgorithm::Sha256, b"abd", abc256),
        (HashAlgorithm::Sha256, b"abc", abc256),
        (HashAlgorithm::Sha512, b"abc", abc256),
        (HashAlgorithm::Sha384, b"abc", abc256),
    ];
    assert_eq!(
        HashGenerator::batch_verify(&requests),
        vec![true, false, true, false, false]
    );
    let nothing: Vec<(HashAlgorithm, &[u8], &str)> = Vec::new();
    assert!(HashGenerator::batch_verify(&nothing).is_empty());
}

#[test]
fn generate_with_nonce_digests_data_then_nonce() {
    let joined = HashGenerator::generate(HashAlgorithm::Sha256, b"abcdef");
    assert_eq!(
        HashGenerator::generate_with_nonce(HashAlgorithm::Sha256, b"abc", "def"),
        joined
    );
    assert_ne!(
        HashGenerator::generate_with_nonce(HashAlgorithm::Sha256, b"abc", "deg"),
        joined
    );
}

#[test]
fn generate_hash_is_sha256_of_the_text() {
    let generator = HashGenerator;
    assert_eq!(
        generator.generate_hash("abc").unwrap(),
        "ungWv48Bz+pBQUDeXa4iI7ADYaOWF3qctBD/YfIAFa0="
    );
}

#[test]
fn digest_algorithm_round_trip() {
    for algorithm in [
        HashAlgorithm::Sha256,
        HashAlgorithm::Sha384,
        HashAlgorithm::Sha512,
    ] {
        assert_eq!(
            HashAlgorithm::from_digest_algorithm(algorithm.digest_algorithm()),
            Some(algorithm)
        );
    }
    assert_eq!(
        HashAlgorithm::from_digest_algorithm(&ring::digest::SHA512_256),
        None
    );
}
