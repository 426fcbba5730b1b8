use fee_collection_contract::{build_invocation, generate};

use fuel_core_types::fuel_asm::op;

#[test]
fn generated_program_layout() {
    let address: [u8; 32] = [0x5A; 32];
    let code = generate(&address);

    // One jump word, 32 address bytes, ten body words.
    assert_eq!(code.len(), 4 + 32 + 40);

    // The leading word is a jump-immediate to word 9 = 1 + ceil(32 / 4).
    assert_eq!(&code[0..4], &[0x90, 0x00, 0x00, 0x09]);
    let decoded_target =
        ((code[1] as u32) << 16) | ((code[2] as u32) << 8) | (code[3] as u32);
    assert_eq!(decoded_target, 9);

    // The embedded address follows immediately, byte for byte.
    assert_eq!(&code[4..36], &address[..]);

    // The body is nonempty and fixed.
    assert!(!code[36..].is_empty());
}

#[test]
fn generated_body_words_exact() {
    let address: [u8; 32] = [0x00; 32];
    let code = generate(&address);
    let body = &code[36..];

    let expected: Vec<u8> = vec![
        0x61, 0x40, 0x00, 0x0A, // gtf   r16, r0, 0x00A (script data pointer)
        0x50, 0x4D, 0x00, 0x20, // addi  r19, r16, 32
        0x5D, 0x4D, 0x30, 0x00, // lw    r19, r19, 0
        0x1A, 0x48, 0x60, 0x00, // move  r18, fp
        0x49, 0x45, 0x04, 0x80, // bal   r17, r16, r18
        0x76, 0x44, 0x00, 0x01, // jnzf  r17, r0, 1
        0x24, 0x04, 0x00, 0x00, // ret   r1
        0x50, 0x50, 0xC0, 0x04, // addi  r20, is, 4
        0x3D, 0x51, 0x34, 0x50, // tro   r20, r19, r17, r16
        0x24, 0x04, 0x00, 0x00, // ret   r1
    ];
    assert_eq!(body, &expected[..]);
}

#[test]
fn generated_words_match_assembler() {
    let address: [u8; 32] = [0xC3; 32];
    let code = generate(&address);

    assert_eq!(&code[0..4], &op::ji(9).to_bytes());
    assert_eq!(&code[36..40], &op::gtf(0x10, 0x00, 0x00A).to_bytes());
    assert_eq!(&code[40..44], &op::addi(0x13, 0x10, 32).to_bytes());
    assert_eq!(&code[44..48], &op::lw(0x13, 0x13, 0).to_bytes());
    assert_eq!(&code[48..52], &op::move_(0x12, 0x06).to_bytes());
    assert_eq!(&code[52..56], &op::bal(0x11, 0x10, 0x12).to_bytes());
    assert_eq!(&code[56..60], &op::jnzf(0x11, 0x00, 1).to_bytes());
    assert_eq!(&code[60..64], &op::ret(0x01).to_bytes());
    assert_eq!(&code[64..68], &op::addi(0x14, 0x0C, 4).to_bytes());
    assert_eq!(&code[68..72], &op::tro(0x14, 0x13, 0x11, 0x10).to_bytes());
    assert_eq!(&code[72..76], &op::ret(0x01).to_bytes());
}

#[test]
fn generate_embeds_each_address() {
    let zero: [u8; 32] = [0x00; 32];
    let ones: [u8; 32] = [0xFF; 32];
    let mut mixed: [u8; 32] = [0x00; 32];
    let mut i: usize = 0;
    while i < 32 {
        mixed[i] = i as u8;
        i += 1;
    }

    for address in [zero, ones, mixed] {
        let code = generate(&address);
        assert_eq!(&code[4..36], &address[..]);
        // Everything outside the embedded address is independent of it.
        let baseline = generate(&zero);
        assert_eq!(&code[0..4], &baseline[0..4]);
        assert_eq!(&code[36..], &baseline[36..]);
    }
}

#[test]
fn generate_is_deterministic() {
    let address: [u8; 32] = [0x7E; 32];
    assert_eq!(generate(&address), generate(&address));
}

#[test]
fn invocation_script_words_exact() {
    let asset_id: [u8; 32] = [0x01; 32];
    let contract_id: [u8; 32] = [0x02; 32];
    let (script, _) = build_invocation(&asset_id, 1, &contract_id);

    let expected: Vec<u8> = vec![
        0x61, 0x40, 0x00, 0x0A, // gtf   r16, r0, 0x00A (script data pointer)
        0x50, 0x41, 0x00, 0x28, // addi  r16, r16, 40
        0x2D, 0x40, 0x00, 0x0A, // call  r16, r0, r0, cgas
        0x24, 0x04, 0x00, 0x00, // ret   r1
    ];
    assert_eq!(script, expected);

    assert_eq!(&script[0..4], &op::gtf(0x10, 0x00, 0x00A).to_bytes());
    assert_eq!(&script[4..8], &op::addi(0x10, 0x10, 40).to_bytes());
    assert_eq!(&script[8..12], &op::call(0x10, 0x00, 0x00, 0x0A).to_bytes());
    assert_eq!(&script[12..16], &op::ret(0x01).to_bytes());
}

#[test]
fn invocation_data_blob_layout() {
    let asset_id: [u8; 32] = [0xAA; 32];
    let contract_id: [u8; 32] = [0xBB; 32];
    let output_index: u64 = 0x0102030405060708;
    let (_, data) = build_invocation(&asset_id, output_index, &contract_id);

    assert_eq!(data.len(), 32 + 8 + 32 + 8 + 8);
    assert_eq!(&data[0..32], &asset_id[..]);
    // The output index, most significant byte first.
    assert_eq!(
        &data[32..40],
        &[0x01, 0x02, 0x03, 0x04, 0x05, 0x06, 0x07, 0x08]
    );
    assert_eq!(&data[40..72], &contract_id[..]);
    // The two reserved call parameters, always zero.
    assert_eq!(&data[72..88], &[0x00; 16]);
}

#[test]
fn invocation_index_edge_values() {
    let asset_id: [u8; 32] = [0x00; 32];
    let contract_id: [u8; 32] = [0x00; 32];

    let (_, data) = build_invocation(&asset_id, 0, &contract_id);
    assert_eq!(&data[32..40], &[0x00; 8]);

    let (_, data) = build_invocation(&asset_id, u64::MAX, &contract_id);
    assert_eq!(&data[32..40], &[0xFF; 8]);

    let (_, data) = build_invocation(&asset_id, 1, &contract_id);
    assert_eq!(&data[32..40], &[0x00, 0x00, 0x00, 0x00, 0x00, 0x00, 0x00, 0x01]);
}

#[test]
fn build_invocation_is_deterministic() {
    let asset_id: [u8; 32] = [0x11; 32];
    let contract_id: [u8; 32] = [0x22; 32];
    let first = build_invocation(&asset_id, 3, &contract_id);
    let second = build_invocation(&asset_id, 3, &contract_id);
    assert_eq!(first, second);
}
