use chissa::{Operations, DATA_LENGTH, NUM_COMMANDS};

#[test]
fn every_symbol_decodes_to_its_operation() {
    assert_eq!(Operations::from(b'>'), Operations::IncrementPointer);
    assert_eq!(Operations::from(b'<'), Operations::DecrementPointer);
    assert_eq!(Operations::from(b'['), Operations::PlaceMark);
    assert_eq!(Operations::from(b']'), Operations::GotoMark);
    assert_eq!(Operations::from(b'j'), Operations::SkipIfZero);
    assert_eq!(Operations::from(b'i'), Operations::Input);
    assert_eq!(Operations::from(b'o'), Operations::Output);
    assert_eq!(Operations::from(b'+'), Operations::IncrementValue);
    assert_eq!(Operations::from(b'-'), Operations::DecrementValue);
    assert_eq!(Operations::from(b'^'), Operations::IncrementValue10);
    assert_eq!(Operations::from(b'v'), Operations::DecrementValue10);
    assert_eq!(Operations::from(b'r'), Operations::Replace);
    assert_eq!(Operations::from(b'0'), Operations::SetZero);
    assert_eq!(Operations::from(b'c'), Operations::CopyValue);
    assert_eq!(Operations::from(b'p'), Operations::PasteValue);
    assert_eq!(Operations::from(b'('), Operations::BeginComment);
    assert_eq!(Operations::from(b')'), Operations::EndComment);
}

#[test]
fn the_digits_one_to_nine_decode_to_repeats() {
    for (digit, count) in (b'1'..=b'9').zip(1usize..=9) {
        assert_eq!(Operations::from(digit), Operations::Repeat(count));
    }
    assert_eq!(Operations::from(b'0'), Operations::SetZero);
}

#[test]
fn every_other_byte_is_a_no_op() {
    let symbols = b"><[]jio+-^v123456789r0cp()";
    let mut operations = 0;
    for byte in 0u8..=255 {
        if symbols.contains(&byte) {
            assert_ne!(Operations::from(byte), Operations::Nop);
            operations += 1;
        } else {
            assert_eq!(Operations::from(byte), Operations::Nop);
        }
    }
    assert_eq!(operations, NUM_COMMANDS);
}

#[test]
fn a_character_decodes_as_its_byte() {
    for byte in 0u8..=127 {
        assert_eq!(Operations::from(byte as char), Operations::from(byte));
    }
    assert_eq!(Operations::from('>'), Operations::IncrementPointer);
    assert_eq!(Operations::from('7'), Operations::Repeat(7));
    assert_eq!(Operations::from(' '), Operations::Nop);
}

#[test]
fn a_character_outside_ascii_is_a_no_op() {
    assert_eq!(Operations::from('é'), Operations::Nop);
    assert_eq!(Operations::from('\u{13e}'), Operations::Nop);
    assert_eq!(Operations::from('日'), Operations::Nop);
    assert_eq!(Operations::from('\u{10ffff}'), Operations::Nop);
}

#[test]
fn the_tape_has_128_cells() {
    assert_eq!(DATA_LENGTH, 128);
    assert_eq!(chissa::Interpreter::new().data().len(), DATA_LENGTH);
}

#[test]
fn the_symbol_table_keeps_its_order() {
    let table = b"><[]jio+-^v123456789r0cp()";
    for (key, symbol) in table.iter().enumerate() {
        assert_eq!(chissa::ops::symbol_for_key(key as u8), *symbol);
    }
}

#[test]
fn every_table_entry_decodes_to_its_own_operation() {
    let mut seen = Vec::new();
    for key in 0..26u8 {
        let op = Operations::from(chissa::ops::symbol_for_key(key));
        assert_ne!(op, Operations::Nop);
        assert!(!seen.contains(&op));
        seen.push(op);
    }
    assert_eq!(seen.len(), NUM_COMMANDS);
}
