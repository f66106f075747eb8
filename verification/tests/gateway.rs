use vdf::VDFParams;
use vdf::VDF;
use vdf_gateway::verify;
use vdf_gateway::VdfError;

/// The known-good Pietrzak solution for challenge 0xaa at difficulty 100
/// under a 512-bit modulus, as the backend in use here computes it.
const KNOWN_SOLUTION_HEX: &str = "00115db316804d9eb49572ebffa6d9995702a8bddd33c8c58957f0e0d08a763802fffdd5f3bd6edf124081850075ee50cf58e98fc2eced1e0d6405a181b85b3f3469";

fn known_challenge() -> Vec<u8> {
    hex::decode("aa").unwrap()
}

fn known_solution() -> Vec<u8> {
    hex::decode(KNOWN_SOLUTION_HEX).unwrap()
}

#[test]
fn sanity_test_vdf() {
    let security: u64 = 512;
    let difficulty: u64 = 100;
    let challenge = known_challenge();
    let solution = known_solution();
    assert_eq!(
        verify(&challenge, &solution, difficulty, security, false),
        Ok(true)
    );
}

#[test]
fn round_trip() {
    let pietrzak_vdf = vdf::PietrzakVDFParams(512).new();
    let solution = pietrzak_vdf.solve(b"\xaa", 100).unwrap();
    assert!(pietrzak_vdf.verify(b"\xaa", 100, &solution).is_ok());
    let challenge: Vec<u8> = b"\xaa".to_vec();
    assert_eq!(verify(&challenge, &solution, 100, 512, false), Ok(true));
}

#[test]
fn round_trip_wesolowski() {
    let wesolowski_vdf = vdf::WesolowskiVDFParams(512).new();
    let solution = wesolowski_vdf.solve(b"\xaa", 100).unwrap();
    let challenge: Vec<u8> = b"\xaa".to_vec();
    assert_eq!(verify(&challenge, &solution, 100, 512, true), Ok(true));
}

#[test]
fn rejects_oversized_security() {
    let challenge = known_challenge();
    let solution = known_solution();
    assert_eq!(
        verify(&challenge, &solution, 100, 2049, false),
        Err(VdfError::ResourceLimitExceeded)
    );
    assert_eq!(
        verify(&challenge, &solution, 100, 2049, true),
        Err(VdfError::ResourceLimitExceeded)
    );
    // A value that would wrap a 16-bit narrowing is refused by the same path.
    assert_eq!(
        verify(&challenge, &solution, 100, 70_000, true),
        Err(VdfError::ResourceLimitExceeded)
    );
    assert_eq!(
        verify(&challenge, &solution, 100, u64::MAX, false),
        Err(VdfError::ResourceLimitExceeded)
    );
}

#[test]
fn rejects_oversized_difficulty() {
    let challenge = known_challenge();
    let solution = known_solution();
    assert_eq!(
        verify(&challenge, &solution, 3_000_000_002, 512, false),
        Err(VdfError::ResourceLimitExceeded)
    );
    assert_eq!(
        verify(&challenge, &solution, 3_000_000_002, 512, true),
        Err(VdfError::ResourceLimitExceeded)
    );
    assert_eq!(
        verify(&challenge, &solution, u64::MAX, 512, true),
        Err(VdfError::ResourceLimitExceeded)
    );
}

#[test]
fn pietrzak_difficulty_ceiling_is_tighter() {
    let challenge = known_challenge();
    let solution: Vec<u8> = Vec::new();
    // Above Pietrzak's ceiling but within the global one: Pietrzak refuses...
    assert_eq!(
        verify(&challenge, &solution, 900_000_001, 512, false),
        Err(VdfError::ResourceLimitExceeded)
    );
    // ...while Wesolowski proceeds to the scheme, which rejects the empty
    // solution as a plain verification failure.
    assert_eq!(verify(&challenge, &solution, 900_000_001, 512, true), Ok(false));
}

#[test]
fn ceiling_values_reach_the_scheme() {
    let challenge = known_challenge();
    let solution: Vec<u8> = Vec::new();
    // Values equal to a ceiling are allowed through to the scheme; the empty
    // solution then fails verification rather than the parameter check.
    assert_eq!(verify(&challenge, &solution, 100, 2048, false), Ok(false));
    assert_eq!(verify(&challenge, &solution, 900_000_000, 512, false), Ok(false));
    assert_eq!(verify(&challenge, &solution, 3_000_000_001, 512, true), Ok(false));
}

#[test]
fn tampered_solution_fails() {
    let challenge = known_challenge();
    let solution = known_solution();
    for i in 0..solution.len() {
        let mut tampered = solution.clone();
        tampered[i] ^= 0x01;
        assert_eq!(verify(&challenge, &tampered, 100, 512, false), Ok(false));
    }
    let mut high_bit = solution.clone();
    high_bit[0] ^= 0x80;
    assert_eq!(verify(&challenge, &high_bit, 100, 512, false), Ok(false));
}

#[test]
fn wrong_scheme_fails() {
    let challenge = known_challenge();
    let solution = known_solution();
    assert_eq!(verify(&challenge, &solution, 100, 512, true), Ok(false));
}

#[test]
fn zero_led_solution_is_rejected() {
    let challenge = known_challenge();
    // An all-zero solution of plausible length decodes to degenerate group
    // elements; the gateway refuses it as unverified.
    let pietrzak_zeroes: Vec<u8> = vec![0u8; 66];
    assert_eq!(verify(&challenge, &pietrzak_zeroes, 100, 512, false), Ok(false));
    let wesolowski_zeroes: Vec<u8> = vec![0u8; 132];
    assert_eq!(verify(&challenge, &wesolowski_zeroes, 100, 512, true), Ok(false));
}

#[test]
fn most_negative_half_is_rejected() {
    let challenge = known_challenge();
    // A solution whose second coefficient half is the most-negative
    // two's-complement pattern; the gateway refuses it as unverified.
    let mut pietrzak_bad: Vec<u8> = vec![0u8; 66];
    pietrzak_bad[32] = 0x01; // leading half not all zero
    pietrzak_bad[33] = 0x80; // trailing half is 80 00 .. 00
    assert_eq!(verify(&challenge, &pietrzak_bad, 100, 512, false), Ok(false));
    let mut wesolowski_bad: Vec<u8> = vec![0u8; 132];
    wesolowski_bad[32] = 0x01;
    wesolowski_bad[33] = 0x80;
    wesolowski_bad[98] = 0x01;
    assert_eq!(verify(&challenge, &wesolowski_bad, 100, 512, true), Ok(false));
}

#[test]
fn sub_floor_security_is_unverified() {
    let challenge = known_challenge();
    let solution = known_solution();
    // Below the security floor nothing is verified, whatever the scheme.
    assert_eq!(verify(&challenge, &solution, 100, 0, false), Ok(false));
    assert_eq!(verify(&challenge, &solution, 100, 0, true), Ok(false));
    assert_eq!(verify(&challenge, &solution, 100, 63, false), Ok(false));
    assert_eq!(verify(&challenge, &solution, 100, 63, true), Ok(false));
    // The floor itself reaches the scheme; the empty solution then fails
    // verification rather than the parameter check.
    let empty: Vec<u8> = Vec::new();
    assert_eq!(verify(&challenge, &empty, 100, 64, false), Ok(false));
    assert_eq!(verify(&challenge, &empty, 100, 64, true), Ok(false));
}
