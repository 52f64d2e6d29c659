use spectre::assembler::{compile_mnemonic, CompileError};

#[test]
fn test_compile_mnemonic() {
    let code = compile_mnemonic(
        r#"
            PUSH1 0x60
            PUSH1 0x40
            MSTORE
            PUSH1 0x00
            RETURN
            "#
            .as_bytes(),
    )
    .unwrap();
    assert_eq!(code, vec![0x61, 0x60, 0x61, 0x40, 0x52, 0x61, 0x00, 0xf3]);

    let code = compile_mnemonic(
        r#"
            PUSH0
            PUSH1 0x01
            DUP1
            SWAP1
            LOG0
            "#
            .as_bytes(),
    )
    .unwrap();
    assert_eq!(code, vec![0x60, 0x61, 0x01, 0x80, 0x90, 0xa0]);
}

#[test]
fn simple_opcodes_and_case() {
    assert_eq!(compile_mnemonic(b"STOP").unwrap(), vec![0x00]);
    assert_eq!(compile_mnemonic(b"stop").unwrap(), vec![0x00]);
    assert_eq!(compile_mnemonic(b"Add\nmul").unwrap(), vec![0x01, 0x02]);
    assert_eq!(compile_mnemonic(b"SELFDESTRUCT").unwrap(), vec![0xff]);
    assert_eq!(compile_mnemonic(b"").unwrap(), Vec::<u8>::new());
    assert_eq!(compile_mnemonic(b"\n\n  \n").unwrap(), Vec::<u8>::new());
}

#[test]
fn push_operand_padding() {
    // The operand is left-padded with zeros to the declared width.
    assert_eq!(compile_mnemonic(b"PUSH4 0xff").unwrap(), vec![0x64, 0, 0, 0, 0xff]);
    // A bare operand without the 0x prefix decodes the same way.
    assert_eq!(compile_mnemonic(b"PUSH2 abcd").unwrap(), vec![0x62, 0xab, 0xcd]);
}

#[test]
fn push_errors() {
    match compile_mnemonic(b"PUSH1").unwrap_err() {
        CompileError::MissingValue { opcode, line } => {
            assert_eq!(opcode, b"PUSH1".to_vec());
            assert_eq!(line, 0);
        },
        e => panic!("unexpected error: {:?}", e),
    }
    match compile_mnemonic(b"STOP\nPUSH1 0xzz").unwrap_err() {
        CompileError::InvalidPushValueHex { line } => assert_eq!(line, 1),
        e => panic!("unexpected error: {:?}", e),
    }
    match compile_mnemonic(b"PUSH1 0xaabb").unwrap_err() {
        CompileError::InvalidPushValueLength { line, expected, length } => {
            assert_eq!((line, expected, length), (0, 1, 2));
        },
        e => panic!("unexpected error: {:?}", e),
    }
    match compile_mnemonic(b"PUSH33 0x00").unwrap_err() {
        CompileError::InvalidOpcode { opcode, line } => {
            assert_eq!(opcode, b"PUSH33".to_vec());
            assert_eq!(line, 0);
        },
        e => panic!("unexpected error: {:?}", e),
    }
}

#[test]
fn family_bounds() {
    assert_eq!(compile_mnemonic(b"DUP16").unwrap(), vec![0x8f]);
    assert_eq!(compile_mnemonic(b"SWAP16").unwrap(), vec![0x9f]);
    assert_eq!(compile_mnemonic(b"LOG4").unwrap(), vec![0xa4]);
    assert!(matches!(
        compile_mnemonic(b"DUP0").unwrap_err(),
        CompileError::InvalidOpcode { .. }
    ));
    assert!(matches!(
        compile_mnemonic(b"DUP17").unwrap_err(),
        CompileError::InvalidOpcode { .. }
    ));
    assert!(matches!(
        compile_mnemonic(b"SWAP0").unwrap_err(),
        CompileError::InvalidOpcode { .. }
    ));
    assert!(matches!(
        compile_mnemonic(b"LOG5").unwrap_err(),
        CompileError::InvalidOpcode { .. }
    ));
    assert!(matches!(
        compile_mnemonic(b"FROB").unwrap_err(),
        CompileError::InvalidOpcode { .. }
    ));
}
