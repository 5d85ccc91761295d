use drand_verify::{
    g1_from_fixed, g1_from_fixed_unchecked, g1_from_variable, g1_generator, g2_from_fixed,
    g2_from_fixed_unchecked, g2_from_variable, g2_generator, point_from_variable, InvalidPoint,
    Point,
};

const G1_PK_HEX: &str = "868f005eb8e6e4ca0a47c8a77ceaa5309a47978a7c71bc5cce96366b5d7a569937c529eeda66c7293784a9402801af31";
const G2_SIG_HEX: &str = "82f5d3d2de4db19d40a6980e8aa37842a0e55d1df06bd68bddc8d60002e8e959eb9cfa368b3c1b77d18f02a54fe047b80f0989315f83b12a74fd8679c4f12aae86eaf6ab5690b34f1fddd50ee3cc6f6cdf59e95526d5a5d82aaa84fa6f181e42";

fn bytes48(s: &str) -> [u8; 48] {
    hex::decode(s).unwrap().try_into().unwrap()
}

fn bytes96(s: &str) -> [u8; 96] {
    hex::decode(s).unwrap().try_into().unwrap()
}

#[test]
fn g1_from_variable_works() {
    let result = g1_from_variable(&hex::decode("868f005eb8e6e4ca0a47c8a77ceaa5309a47978a7c71bc5cce96366b5d7a569937c529eeda66c7293784a9402801af31").unwrap());
    assert!(result.is_ok());

    let result = g1_from_variable(&hex::decode("868f005eb8e6e4ca0a47c8a77ceaa5309a47978a7c71bc5cce96366b5d7a569937c529eeda66c7293784a9402801af").unwrap());
    match result.unwrap_err() {
        InvalidPoint::UnexpectedLength { expected, actual } => {
            assert_eq!(expected, 48);
            assert_eq!(actual, 47);
        }
        err => panic!("Unexpected error: {:?}", err),
    }
}

#[test]
fn g2_from_variable_works() {
    let result = g2_from_variable(&hex::decode("82f5d3d2de4db19d40a6980e8aa37842a0e55d1df06bd68bddc8d60002e8e959eb9cfa368b3c1b77d18f02a54fe047b80f0989315f83b12a74fd8679c4f12aae86eaf6ab5690b34f1fddd50ee3cc6f6cdf59e95526d5a5d82aaa84fa6f181e42").unwrap());
    assert!(result.is_ok());

    let result = g2_from_variable(&hex::decode("82f5d3d2de4db19d40a6980e8aa37842a0e55d1df06bd68bddc8d60002e8e959eb9cfa368b3c1b77d18f02a54fe047b80f0989315f83b12a74fd8679c4f12aae86eaf6ab5690b34f1fddd50ee3cc6f6cdf59e95526d5a5d82aaa84fa6f181e").unwrap());
    match result.unwrap_err() {
        InvalidPoint::UnexpectedLength { expected, actual } => {
            assert_eq!(expected, 96);
            assert_eq!(actual, 95);
        }
        err => panic!("Unexpected error: {:?}", err),
    }
}

#[test]
fn g1_from_fixed_works() {
    let result = g1_from_fixed(bytes48("868f005eb8e6e4ca0a47c8a77ceaa5309a47978a7c71bc5cce96366b5d7a569937c529eeda66c7293784a9402801af31"));
    assert!(result.is_ok());

    let result = g1_from_fixed(bytes48("118f005eb8e6e4ca0a47c8a77ceaa5309a47978a7c71bc5cce96366b5d7a569937c529eeda66c7293784a9402801af31"));
    match result.unwrap_err() {
        InvalidPoint::DecodingError {} => {}
        err => panic!("Unexpected error: {:?}", err),
    }

    let result = g1_from_fixed(bytes48("868f005eb8e6e4ca0a47c8a77ceaa5309a47978a7c71bc5cce96366b5d7a569937c529eeda66c7293784a9402801af22"));
    match result.unwrap_err() {
        InvalidPoint::DecodingError {} => {}
        err => panic!("Unexpected error: {:?}", err),
    }
}

#[test]
fn g1_from_fixed_unchecked_works() {
    let data = bytes48("868f005eb8e6e4ca0a47c8a77ceaa5309a47978a7c71bc5cce96366b5d7a569937c529eeda66c7293784a9402801af31");
    let a = g1_from_fixed_unchecked(data).unwrap();
    let b = g1_from_fixed(data).unwrap();
    assert_eq!(a, b);
}

#[test]
fn g2_from_fixed_works() {
    let result = g2_from_fixed(bytes96("82f5d3d2de4db19d40a6980e8aa37842a0e55d1df06bd68bddc8d60002e8e959eb9cfa368b3c1b77d18f02a54fe047b80f0989315f83b12a74fd8679c4f12aae86eaf6ab5690b34f1fddd50ee3cc6f6cdf59e95526d5a5d82aaa84fa6f181e42"));
    assert!(result.is_ok());

    let result = g2_from_fixed(bytes96("11f5d3d2de4db19d40a6980e8aa37842a0e55d1df06bd68bddc8d60002e8e959eb9cfa368b3c1b77d18f02a54fe047b80f0989315f83b12a74fd8679c4f12aae86eaf6ab5690b34f1fddd50ee3cc6f6cdf59e95526d5a5d82aaa84fa6f181e42"));
    match result.unwrap_err() {
        InvalidPoint::DecodingError {} => {}
        err => panic!("Unexpected error: {:?}", err),
    }

    let result = g2_from_fixed(bytes96("82f5d3d2de4db19d40a6980e8aa37842a0e55d1df06bd68bddc8d60002e8e959eb9cfa368b3c1b77d18f02a54fe047b80f0989315f83b12a74fd8679c4f12aae86eaf6ab5690b34f1fddd50ee3cc6f6cdf59e95526d5a5d82aaa84fa6f181e44"));
    match result.unwrap_err() {
        InvalidPoint::DecodingError {} => {}
        err => panic!("Unexpected error: {:?}", err),
    }
}

#[test]
fn g2_from_fixed_unchecked_works() {
    let data = bytes96("82f5d3d2de4db19d40a6980e8aa37842a0e55d1df06bd68bddc8d60002e8e959eb9cfa368b3c1b77d18f02a54fe047b80f0989315f83b12a74fd8679c4f12aae86eaf6ab5690b34f1fddd50ee3cc6f6cdf59e95526d5a5d82aaa84fa6f181e42");
    let a = g2_from_fixed_unchecked(data).unwrap();
    let b = g2_from_fixed(data).unwrap();
    assert_eq!(a, b);
}

#[test]
fn decode_then_encode_gives_back_the_bytes() {
    let g1 = bytes48(G1_PK_HEX);
    assert_eq!(g1_from_fixed(g1).unwrap().to_compressed(), g1);
    assert_eq!(g1_from_fixed_unchecked(g1).unwrap().to_compressed(), g1);
    let g2 = bytes96(G2_SIG_HEX);
    assert_eq!(g2_from_fixed(g2).unwrap().to_compressed(), g2);
    assert_eq!(g2_from_fixed_unchecked(g2).unwrap().to_compressed(), g2);
}

#[test]
fn identity_round_trips() {
    let mut g1 = [0u8; 48];
    g1[0] = 0xc0;
    assert_eq!(g1_from_fixed(g1).unwrap().to_compressed(), g1);
    let mut g2 = [0u8; 96];
    g2[0] = 0xc0;
    assert_eq!(g2_from_fixed(g2).unwrap().to_compressed(), g2);
}

#[test]
fn generators_have_standard_encodings() {
    assert_eq!(
        hex::encode(g1_generator().to_compressed()),
        "97f1d3a73197d7942695638c4fa9ac0fc3688c4f9774b905a14e3a3f171bac586c55e83ff97a1aeffb3af00adb22c6bb"
    );
    assert_eq!(
        hex::encode(g2_generator().to_compressed()),
        "93e02b6052719f607dacd3a088274f65596bd0d09920b61ab5da61bbdc7f5049334cf11213945d57e5ac7d055d042b7e024aa2b2f08f0a91260805272dc51051c6e47ad4fa403b02b4510b647ae3d1770bac0326a805bbefd48056c8c121bdb8"
    );
}

#[test]
fn empty_buffer_is_an_unexpected_length() {
    assert_eq!(
        g1_from_variable(&[]).unwrap_err(),
        InvalidPoint::UnexpectedLength { expected: 48, actual: 0 }
    );
    assert_eq!(
        g2_from_variable(&[0u8; 48]).unwrap_err(),
        InvalidPoint::UnexpectedLength { expected: 96, actual: 48 }
    );
}

#[test]
fn variable_buffer_of_right_length_that_does_not_decode() {
    let mut data = hex::decode(G1_PK_HEX).unwrap();
    data[0] = 0x11;
    assert_eq!(g1_from_variable(&data).unwrap_err(), InvalidPoint::DecodingError {});
}

#[test]
fn point_from_variable_dispatches_on_length() {
    match point_from_variable(&hex::decode(G1_PK_HEX).unwrap()).unwrap() {
        Point::OnG1(p) => assert_eq!(p.to_compressed(), bytes48(G1_PK_HEX)),
        Point::OnG2(_) => panic!("expected a point of G1"),
    }
    match point_from_variable(&hex::decode(G2_SIG_HEX).unwrap()).unwrap() {
        Point::OnG2(p) => assert_eq!(p.to_compressed(), bytes96(G2_SIG_HEX)),
        Point::OnG1(_) => panic!("expected a point of G2"),
    }
    assert_eq!(
        point_from_variable(&[0u8; 50]).unwrap_err(),
        InvalidPoint::InvalidLength { actual: 50 }
    );
    assert_eq!(
        point_from_variable(&[0u8; 48]).unwrap_err(),
        InvalidPoint::DecodingError {}
    );
}

#[test]
fn invalid_point_messages() {
    assert_eq!(
        InvalidPoint::UnexpectedLength { expected: 48, actual: 47 }.to_string(),
        "Invalid input length for point (must be in compressed format): Expected 48, actual: 47"
    );
    assert_eq!(
        InvalidPoint::InvalidLength { actual: 1234 }.to_string(),
        "Invalid input length for point (must be in compressed format): actual: 1234"
    );
    assert_eq!(
        InvalidPoint::UnexpectedLength { expected: 96, actual: 0 }.to_string(),
        "Invalid input length for point (must be in compressed format): Expected 96, actual: 0"
    );
    assert_eq!(InvalidPoint::DecodingError {}.to_string(), "Invalid point");
}
