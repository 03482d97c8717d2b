use confidential_assets::prover::{
    accept_balances_after, accept_commitments, accept_envelope, burn_balances_after,
    burn_commitments, burn_output, burn_proof, credit_commitment, debit_commitment, encode_link,
    mint_balances_after, mint_commitments, mint_output, mint_proof, pad_or_trim_32, parse_sender_bundle,
    receiver_accept_output, sender_balance_after, sender_bundle, sender_output, ProverError,
};
use curve25519_dalek::constants::RISTRETTO_BASEPOINT_POINT;
use curve25519_dalek::scalar::Scalar;

/// The compressed Ristretto basepoint.
const BASEPOINT: [u8; 32] = [
    0xe2, 0xf2, 0xae, 0x0a, 0x6a, 0xbc, 0x4e, 0x71, 0xa8, 0x84, 0xa9, 0x61, 0xc5, 0x00, 0x51, 0x5f,
    0x58, 0xe3, 0x0b, 0x6a, 0xa5, 0x82, 0xdd, 0x8d, 0xb6, 0xa6, 0x59, 0x45, 0xe0, 0x8d, 0x2d, 0x76,
];

#[test]
fn pad_or_trim_32_pads_and_trims() {
    let mut expected = [0u8; 32];
    expected[..10].copy_from_slice(b"TEST_ASSET");
    assert_eq!(pad_or_trim_32(b"TEST_ASSET"), expected);
    let long: Vec<u8> = (0..40u8).collect();
    let trimmed: Vec<u8> = (0..32u8).collect();
    assert_eq!(pad_or_trim_32(&long).to_vec(), trimmed);
    assert_eq!(pad_or_trim_32(&[]), [0u8; 32]);
    assert_eq!(pad_or_trim_32(&0u128.to_le_bytes()), [0u8; 32]);
}

#[test]
fn encode_link_concatenates() {
    let link = encode_link(&[1; 32], &[2; 32], &[3; 32], &[4; 32], &[5; 32], &[6; 32]);
    for (i, chunk) in link.chunks(32).enumerate() {
        assert_eq!(chunk, &[(i + 1) as u8; 32]);
    }
}

#[test]
fn sender_bundle_and_envelope_shapes() {
    let range = vec![0xaa; 672];
    let bundle = sender_bundle(&BASEPOINT, &[7u8; 192], &range);
    assert_eq!(bundle.len(), 32 + 192 + 2 + 672 + 2);
    assert_eq!(&bundle[224..226], &672u16.to_le_bytes());
    assert_eq!(&bundle[bundle.len() - 2..], &[0, 0]);
    let env = accept_envelope(&BASEPOINT, &[1u8; 3], &[2u8; 4]);
    assert_eq!(env, [&BASEPOINT[..], &[3, 0, 1, 1, 1, 4, 0, 2, 2, 2, 2]].concat());
}

#[test]
fn sender_bundle_parses_back() {
    let range = vec![0x5a; 300];
    let bundle = sender_bundle(&BASEPOINT, &[7u8; 192], &range);
    let p = parse_sender_bundle(&bundle).unwrap();
    assert_eq!(p.delta_comm, BASEPOINT);
    assert_eq!(p.link_raw_192, [7u8; 192]);
    assert_eq!(p.range_from_new, range);
    assert!(p.range_to_new.is_empty());
}

#[test]
fn parse_rejects_invalid_point_and_short_bundles() {
    let bundle = sender_bundle(&[1u8; 32], &[7u8; 192], &[1, 2, 3]);
    assert!(parse_sender_bundle(&bundle).is_err());
    let bundle = sender_bundle(&[0u8; 32], &[7u8; 192], &[1, 2, 3]);
    assert!(parse_sender_bundle(&bundle).is_ok());
    let bundle = sender_bundle(&BASEPOINT, &[7u8; 192], &[1, 2, 3]);
    assert!(parse_sender_bundle(&bundle[..bundle.len() - 1]).is_err());
    assert!(parse_sender_bundle(&bundle[..227]).is_err());
    let mut tampered = bundle.clone();
    tampered[224] = 200;
    assert!(parse_sender_bundle(&tampered).is_err());
}

#[test]
fn mint_and_burn_layouts() {
    let m = mint_proof(&[9u8; 64], &BASEPOINT, &[7u8; 192], &[1, 1], &[2]);
    assert_eq!(m.len(), 64 + 32 + 192 + 2 + 2 + 2 + 1);
    assert_eq!(&m[288..], &[2, 0, 1, 1, 1, 0, 2]);
    let b = burn_proof(&BASEPOINT, &[7u8; 192], &[1], &[2, 2], 111);
    assert_eq!(&b[224..], &[1, 0, 1, 2, 0, 2, 2, 111, 0, 0, 0, 0, 0, 0, 0]);
}

#[test]
fn balance_arithmetic_and_overflow_errors() {
    assert_eq!(sender_balance_after(1234, 111), Ok(1123));
    assert_eq!(sender_balance_after(100, 101), Err(ProverError::Overflow("sender balance - delta")));
    assert_eq!(accept_balances_after(0, 111, 111), Ok((111, 0)));
    assert_eq!(accept_balances_after(u64::MAX, 5, 1), Err(ProverError::Overflow("available balance + delta")));
    assert_eq!(accept_balances_after(0, 5, 6), Err(ProverError::Overflow("pending balance - delta")));
    assert_eq!(mint_balances_after(1, 2, 3), Ok((4, 5)));
    assert_eq!(mint_balances_after(u64::MAX, 0, 1), Err(ProverError::Overflow("pending balance + mint amount")));
    assert_eq!(mint_balances_after(0, u64::MAX, 1), Err(ProverError::Overflow("total supply + mint amount")));
    assert_eq!(burn_balances_after(10, 20, 5), Ok((5, 15)));
    assert_eq!(burn_balances_after(4, 20, 5), Err(ProverError::Overflow("available balance - burn amount")));
    assert_eq!(burn_balances_after(10, 4, 5), Err(ProverError::Overflow("total supply - burn amount")));
}

/// The compressed point `n * G`.
fn multiple_of_g(n: u64) -> [u8; 32] {
    (Scalar::from(n) * RISTRETTO_BASEPOINT_POINT).compress().to_bytes()
}

#[test]
fn commitments_move_by_delta() {
    let identity = [0u8; 32];
    assert_eq!(multiple_of_g(1), BASEPOINT);
    assert_eq!(credit_commitment(&BASEPOINT, &identity), Ok(BASEPOINT));
    assert_eq!(credit_commitment(&BASEPOINT, &BASEPOINT), Ok(multiple_of_g(2)));
    assert_eq!(debit_commitment(&multiple_of_g(5), &multiple_of_g(3)), Ok(multiple_of_g(2)));
    assert_eq!(debit_commitment(&BASEPOINT, &BASEPOINT), Ok(identity));
    let credited = credit_commitment(&multiple_of_g(7), &multiple_of_g(4)).unwrap();
    assert_eq!(debit_commitment(&credited, &multiple_of_g(4)), Ok(multiple_of_g(7)));
}

#[test]
fn commitments_reject_invalid_points() {
    let bad = [1u8; 32];
    assert!(matches!(credit_commitment(&bad, &BASEPOINT), Err(ProverError::InvalidInput(_))));
    assert!(matches!(debit_commitment(&BASEPOINT, &bad), Err(ProverError::InvalidInput(_))));
    assert!(matches!(accept_commitments(&BASEPOINT, &BASEPOINT, &bad), Err(ProverError::InvalidInput(_))));
    assert!(matches!(mint_commitments(&bad, &BASEPOINT, &BASEPOINT), Err(ProverError::InvalidInput(_))));
    assert!(matches!(burn_commitments(&BASEPOINT, &bad, &BASEPOINT), Err(ProverError::InvalidInput(_))));
}

#[test]
fn accept_mint_burn_commitment_updates() {
    let (d, av, pe, tot) = (multiple_of_g(3), multiple_of_g(10), multiple_of_g(4), multiple_of_g(100));
    assert_eq!(accept_commitments(&av, &pe, &d), Ok((multiple_of_g(13), multiple_of_g(1))));
    assert_eq!(mint_commitments(&pe, &tot, &d), Ok((multiple_of_g(7), multiple_of_g(103))));
    assert_eq!(burn_commitments(&av, &tot, &d), Ok((multiple_of_g(7), multiple_of_g(97))));
}

#[test]
fn sender_output_moves_delta_between_commitments() {
    let (d, from_old, to_old) = (multiple_of_g(3), multiple_of_g(10), multiple_of_g(4));
    let out = sender_output(&[5u8; 64], &d, &[7u8; 192], &[1, 2, 3], &from_old, &to_old, 10, 3).unwrap();
    assert_eq!(out.delta_ct_bytes, [5u8; 64]);
    assert_eq!(out.delta_comm_bytes, d);
    assert_eq!(&out.sender_bundle_bytes[..32], &d);
    assert_eq!(out.sender_bundle_bytes, sender_bundle(&d, &[7u8; 192], &[1, 2, 3]));
    assert_eq!(out.from_new_c, multiple_of_g(7));
    assert_eq!(out.to_new_c, multiple_of_g(7));
    let err = sender_output(&[5u8; 64], &d, &[7u8; 192], &[], &from_old, &to_old, 2, 3).err();
    assert_eq!(err, Some(ProverError::Overflow("sender balance - delta")));
    let err = sender_output(&[5u8; 64], &[1u8; 32], &[7u8; 192], &[], &from_old, &to_old, 10, 3).err();
    assert!(matches!(err, Some(ProverError::InvalidInput(_))));
}

#[test]
fn receiver_mint_burn_outputs() {
    let d = multiple_of_g(2);
    let acc = receiver_accept_output(&d, &[1], &[2, 2], &multiple_of_g(5), &multiple_of_g(6), 5, 6, 2).unwrap();
    assert_eq!(acc.accept_envelope, accept_envelope(&d, &[1], &[2, 2]));
    assert_eq!((acc.avail_new_c, acc.pending_new_c), (multiple_of_g(7), multiple_of_g(4)));
    assert_eq!(
        receiver_accept_output(&d, &[], &[], &multiple_of_g(5), &multiple_of_g(1), 5, 1, 2).err(),
        Some(ProverError::Overflow("pending balance - delta"))
    );
    let m = mint_output(&[8u8; 64], &d, &[7u8; 192], &[1], &[2], &multiple_of_g(1), &multiple_of_g(9), 1, 9, 2).unwrap();
    assert_eq!(m.minted_ct_bytes, [8u8; 64]);
    assert_eq!(m.proof_bytes, mint_proof(&[8u8; 64], &d, &[7u8; 192], &[1], &[2]));
    assert_eq!((m.to_pending_new_c, m.total_new_c), (multiple_of_g(3), multiple_of_g(11)));
    assert_eq!(
        mint_output(&[8u8; 64], &d, &[7u8; 192], &[], &[], &d, &d, u64::MAX, 0, 2).err(),
        Some(ProverError::Overflow("pending balance + mint amount"))
    );
    let b = burn_output(&[6u8; 64], &d, &[7u8; 192], &[1], &[2], &multiple_of_g(5), &multiple_of_g(9), 5, 9, 2).unwrap();
    assert_eq!(b.amount_ct_bytes, [6u8; 64]);
    assert_eq!(b.proof_bytes, burn_proof(&d, &[7u8; 192], &[1], &[2], 2));
    assert_eq!((b.from_avail_new_c, b.total_new_c), (multiple_of_g(3), multiple_of_g(7)));
    assert_eq!(
        burn_output(&[6u8; 64], &d, &[7u8; 192], &[], &[], &d, &d, 5, 1, 2).err(),
        Some(ProverError::Overflow("total supply - burn amount"))
    );
}
