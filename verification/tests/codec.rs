use tsl256x::{decode_word, encode_word, timing_byte, Command, Gain, IntegrationTime, Register, SlaveAddr};

const REGISTERS: [(Register, u8); 13] = [
    (Register::CONTROL, 0x0),
    (Register::TIMING, 0x1),
    (Register::THRESHLOWLOW, 0x2),
    (Register::THRESHLOWHIGH, 0x3),
    (Register::THRESHHIGHLOW, 0x4),
    (Register::THRESHHIGHHIGH, 0x5),
    (Register::INTERRUPT, 0x6),
    (Register::CRC, 0x8),
    (Register::ID, 0xA),
    (Register::DATA0LOW, 0xC),
    (Register::DATA0HIGH, 0xD),
    (Register::DATA1LOW, 0xE),
    (Register::DATA1HIGH, 0xF),
];

#[test]
fn register_addresses_match_the_register_map() {
    for (register, address) in REGISTERS {
        assert_eq!(register.addr(), address, "{:?}", register);
    }
}

#[test]
fn register_addresses_are_distinct_nibbles() {
    for (i, (a, _)) in REGISTERS.iter().enumerate() {
        assert!(a.addr() <= 0x0F);
        for (b, _) in &REGISTERS[i + 1..] {
            assert_ne!(a.addr(), b.addr());
        }
    }
}

#[test]
fn every_plain_command_has_the_command_bit() {
    for (register, address) in REGISTERS {
        let byte = Command::new(register).value();
        assert_eq!(byte & 0x80, 0x80, "{:?}", register);
        assert_eq!(byte, 0x80 | address, "{:?}", register);
    }
}

#[test]
fn plain_control_command_is_0x80() {
    assert_eq!(Command::new(Register::CONTROL).value(), 0x80);
}

#[test]
fn plain_timing_command_is_0x81() {
    assert_eq!(Command::new(Register::TIMING).value(), 0x81);
}

#[test]
fn word_command_for_channel_0_is_0xac() {
    assert_eq!(Command::new(Register::DATA0LOW).enable_word_protocol().value(), 0xAC);
}

#[test]
fn word_command_for_channel_1_is_0xae() {
    assert_eq!(Command::new(Register::DATA1LOW).enable_word_protocol().value(), 0xAE);
}

#[test]
fn new_command_has_no_flag_set() {
    let command = Command::new(Register::ID);
    assert_eq!(command, Command { clear: false, word: false, block: false, register: Register::ID });
}

#[test]
fn enable_word_protocol_sets_only_the_word_flag() {
    let before = Command { clear: true, word: false, block: true, register: Register::INTERRUPT };
    let after = before.enable_word_protocol();
    assert_eq!(after, Command { word: true, ..before });
    assert_eq!(after.enable_word_protocol(), after);
}

#[test]
fn each_flag_has_its_own_bit() {
    let plain = Command::new(Register::CONTROL);
    assert_eq!(Command { block: true, ..plain }.value(), 0x90);
    assert_eq!(Command { word: true, ..plain }.value(), 0xA0);
    assert_eq!(Command { clear: true, ..plain }.value(), 0xC0);
    assert_eq!(Command { clear: true, word: true, block: true, register: Register::DATA1HIGH }.value(), 0xFF);
}

#[test]
fn command_byte_reads_back_into_its_parts() {
    for (register, address) in REGISTERS {
        for flags in 0u8..8 {
            let command = Command {
                block: flags & 1 != 0,
                word: flags & 2 != 0,
                clear: flags & 4 != 0,
                register,
            };
            let byte = command.value();
            assert_eq!(byte & 0x0F, address);
            assert_eq!(byte & 0x10 != 0, command.block);
            assert_eq!(byte & 0x20 != 0, command.word);
            assert_eq!(byte & 0x40 != 0, command.clear);
            assert_eq!(byte & 0x80, 0x80);
        }
    }
}

#[test]
fn decode_word_puts_the_low_byte_first() {
    assert_eq!(decode_word(0x34, 0x12), 0x1234);
}

#[test]
fn decode_word_covers_the_whole_range() {
    assert_eq!(decode_word(0x00, 0x00), 0);
    assert_eq!(decode_word(0xFF, 0x00), 255);
    assert_eq!(decode_word(0x00, 0x01), 256);
    assert_eq!(decode_word(0xFF, 0xFF), 65535);
}

#[test]
fn encode_word_puts_the_low_byte_first() {
    assert_eq!(encode_word(0x1234), [0x34, 0x12]);
    assert_eq!(encode_word(0), [0, 0]);
    assert_eq!(encode_word(0xFFFF), [0xFF, 0xFF]);
}

#[test]
fn every_word_survives_encoding_and_decoding() {
    for word in 0..=u16::MAX {
        let bytes = encode_word(word);
        assert_eq!(decode_word(bytes[0], bytes[1]), word);
    }
}

#[test]
fn every_byte_pair_survives_decoding_and_encoding() {
    for low in 0..=u8::MAX {
        for high in 0..=u8::MAX {
            assert_eq!(encode_word(decode_word(low, high)), [low, high]);
        }
    }
}

#[test]
fn integration_time_codes() {
    assert_eq!(IntegrationTime::ms_13.bits(), 0);
    assert_eq!(IntegrationTime::ms_101.bits(), 1);
    assert_eq!(IntegrationTime::ms_402.bits(), 2);
}

#[test]
fn gain_codes() {
    assert_eq!(Gain::Low.bits(), 0);
    assert_eq!(Gain::High.bits(), 1);
}

#[test]
fn timing_byte_of_longest_time_and_high_gain_is_0x12() {
    assert_eq!(timing_byte(IntegrationTime::ms_402, Gain::High), 0x12);
}

#[test]
fn timing_byte_of_shortest_time_and_low_gain_is_zero() {
    assert_eq!(timing_byte(IntegrationTime::ms_13, Gain::Low), 0x00);
}

#[test]
fn timing_byte_of_every_pair() {
    assert_eq!(timing_byte(IntegrationTime::ms_13, Gain::High), 0x10);
    assert_eq!(timing_byte(IntegrationTime::ms_101, Gain::Low), 0x01);
    assert_eq!(timing_byte(IntegrationTime::ms_101, Gain::High), 0x11);
    assert_eq!(timing_byte(IntegrationTime::ms_402, Gain::Low), 0x02);
}

#[test]
fn slave_addresses() {
    assert_eq!(SlaveAddr::ADDR_0x39.addr(), 0x39);
    assert_eq!(SlaveAddr::ADDR_0x29.addr(), 0x29);
    assert_eq!(SlaveAddr::ADDR_0x49.addr(), 0x49);
}

#[test]
fn default_slave_address_is_0x39() {
    assert_eq!(SlaveAddr::default(), SlaveAddr::ADDR_0x39);
    assert_eq!(SlaveAddr::default().addr(), 0x39);
}
