use pbb_poc::bytecode::{bytecode_to_evmcode, to_analysed, AnalyzedBytecode, Bytecode};

fn analyzed_of(b: Bytecode) -> AnalyzedBytecode {
    match b {
        Bytecode::LegacyAnalyzed(a) => a,
        Bytecode::LegacyRaw(_) => panic!("expected analyzed bytecode"),
    }
}

#[test]
fn push_data_byte_is_not_a_jump_dest() {
    // PUSH1 0x5b STOP: the 0x5b at offset 1 is push data, not a JUMPDEST.
    let raw = vec![0x60u8, 0x5b, 0x00];
    let a = analyzed_of(to_analysed(Bytecode::LegacyRaw(raw)));
    assert!(!a.is_valid_jump_dest(1));
    assert!(!a.is_valid_jump_dest(0));
    assert!(!a.is_valid_jump_dest(2));
}

#[test]
fn jumpdest_at_offset_zero_is_valid() {
    // JUMPDEST STOP: offset 0 is a valid jump destination.
    let raw = vec![0x5bu8, 0x00];
    let a = analyzed_of(to_analysed(Bytecode::LegacyRaw(raw)));
    assert!(a.is_valid_jump_dest(0));
    assert!(!a.is_valid_jump_dest(1));
    assert!(!a.is_valid_jump_dest(1000));
}

#[test]
fn push32_hides_a_window_of_jumpdest_bytes() {
    // PUSH32 followed by 32 bytes of 0x5b, then a real JUMPDEST.
    let mut raw = vec![0x7fu8];
    raw.extend(std::iter::repeat(0x5bu8).take(32));
    raw.push(0x5b);
    let a = analyzed_of(to_analysed(Bytecode::LegacyRaw(raw)));
    for off in 1..33 {
        assert!(!a.is_valid_jump_dest(off));
    }
    assert!(a.is_valid_jump_dest(33));
}

#[test]
fn analysis_pads_with_33_zero_bytes_and_keeps_length() {
    let raw = vec![0x5bu8, 0x60, 0x01];
    let a = analyzed_of(to_analysed(Bytecode::LegacyRaw(raw.clone())));
    assert_eq!(a.original_len, 3);
    assert_eq!(a.bytecode.len(), 3 + 33);
    assert_eq!(&a.bytecode[..3], &raw[..]);
    assert!(a.bytecode[3..].iter().all(|&b| b == 0));
    assert_eq!(a.jump_table.len(), a.bytecode.len());
}

#[test]
fn analyzing_analyzed_code_returns_it_unchanged() {
    let raw = vec![0x5bu8, 0x60, 0x5b, 0x00];
    let first = analyzed_of(to_analysed(Bytecode::LegacyRaw(raw)));
    let bytes = first.bytecode.clone();
    let len = first.original_len;
    let bits: Vec<bool> = (0..first.jump_table.len()).map(|i| first.jump_table.get_bit(i)).collect();
    let again = analyzed_of(to_analysed(Bytecode::LegacyAnalyzed(first)));
    assert_eq!(again.bytecode, bytes);
    assert_eq!(again.original_len, len);
    assert_eq!(again.jump_table.len(), bits.len());
    for (i, b) in bits.iter().enumerate() {
        assert_eq!(again.jump_table.get_bit(i), *b);
    }
}

#[test]
fn empty_code_has_no_jump_dests() {
    let a = analyzed_of(to_analysed(Bytecode::LegacyRaw(Vec::new())));
    assert_eq!(a.original_len, 0);
    assert_eq!(a.bytecode.len(), 33);
    for i in 0..a.bytecode.len() {
        assert!(!a.is_valid_jump_dest(i));
    }
}

#[test]
fn evmcode_conversion_keeps_the_analysis() {
    let raw = vec![0x60u8, 0x5b, 0x5b];
    let code = bytecode_to_evmcode(Bytecode::LegacyRaw(raw));
    assert_eq!(code.original_len, 3);
    assert_eq!(code.bytecode.len(), 36);
    assert!(!code.jump_table.get_bit(0));
    assert!(!code.jump_table.get_bit(1));
    assert!(code.jump_table.get_bit(2));
}

#[test]
fn evmcode_conversion_of_analyzed_code_copies_fields() {
    let raw = vec![0x5bu8];
    let a = analyzed_of(to_analysed(Bytecode::LegacyRaw(raw)));
    let bytes = a.bytecode.clone();
    let len = a.original_len;
    let code = bytecode_to_evmcode(Bytecode::LegacyAnalyzed(a));
    assert_eq!(code.bytecode, bytes);
    assert_eq!(code.original_len, len);
    assert!(code.jump_table.get_bit(0));
}
