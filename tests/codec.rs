use eva::catalog::{OpCode, OPCODE_COUNT};
use eva::codec::{Decoder, Encoder};
use eva::header::BytecodeHeader;

fn encode_with<F: FnOnce(&mut Encoder)>(x64: bool, f: F) -> Vec<u8> {
    let mut e = Encoder::new(x64);
    f(&mut e);
    e.into_bytes()
}

#[test]
fn u16_is_big_endian() {
    assert_eq!(encode_with(false, |e| e.write(0x0102u16)), vec![0x01, 0x02]);
}

#[test]
fn u32_is_big_endian() {
    assert_eq!(encode_with(false, |e| e.write(0x01020304u32)), vec![0x01, 0x02, 0x03, 0x04]);
}

#[test]
fn u64_is_big_endian() {
    assert_eq!(
        encode_with(false, |e| e.write(0x0102030405060708u64)),
        vec![1, 2, 3, 4, 5, 6, 7, 8]
    );
}

#[test]
fn signed_values_use_twos_complement() {
    assert_eq!(encode_with(false, |e| e.write(-1i8)), vec![0xFF]);
    assert_eq!(encode_with(false, |e| e.write(-2i16)), vec![0xFF, 0xFE]);
    assert_eq!(encode_with(false, |e| e.write(-1i32)), vec![0xFF; 4]);
    assert_eq!(encode_with(false, |e| e.write(i64::MIN)), vec![0x80, 0, 0, 0, 0, 0, 0, 0]);
}

#[test]
fn pointer_width_follows_configuration() {
    assert_eq!(encode_with(false, |e| e.write(0x0102usize)), vec![0, 0, 1, 2]);
    assert_eq!(encode_with(true, |e| e.write(0x0102usize)), vec![0, 0, 0, 0, 0, 0, 1, 2]);
    assert_eq!(encode_with(false, |e| e.write(-1isize)), vec![0xFF; 4]);
    assert_eq!(encode_with(true, |e| e.write(-1isize)), vec![0xFF; 8]);
}

#[test]
fn bool_and_opcode_take_one_byte() {
    assert_eq!(encode_with(false, |e| e.write(true)), vec![1]);
    assert_eq!(encode_with(false, |e| e.write(false)), vec![0]);
    assert_eq!(encode_with(false, |e| e.write(OpCode::IAdd32)), vec![24]);
    assert_eq!(encode_with(false, |e| e.write(OpCode::RegAddr)), vec![92]);
}

#[test]
fn round_trip_every_scalar() {
    for x64 in [false, true] {
        let bytes = encode_with(x64, |e| {
            e.write(0xABu8);
            e.write(true);
            e.write(0xBEEFu16);
            e.write(0xDEADBEEFu32);
            e.write(0x0123456789ABCDEFu64);
            e.write(0x7FFF_FFFFusize);
            e.write(-128i8);
            e.write(-12345i16);
            e.write(i32::MIN);
            e.write(-0x0123456789ABCDEFi64);
            e.write(-5isize);
        });
        let mut d = Decoder::new(&bytes, x64);
        assert_eq!(d.read::<u8>(), Some(0xAB));
        assert_eq!(d.read::<bool>(), Some(true));
        assert_eq!(d.read::<u16>(), Some(0xBEEF));
        assert_eq!(d.read::<u32>(), Some(0xDEADBEEF));
        assert_eq!(d.read::<u64>(), Some(0x0123456789ABCDEF));
        assert_eq!(d.read::<usize>(), Some(0x7FFF_FFFF));
        assert_eq!(d.read::<i8>(), Some(-128));
        assert_eq!(d.read::<i16>(), Some(-12345));
        assert_eq!(d.read::<i32>(), Some(i32::MIN));
        assert_eq!(d.read::<i64>(), Some(-0x0123456789ABCDEF));
        assert_eq!(d.read::<isize>(), Some(-5));
        assert_eq!(d.remaining(), 0);
    }
}

#[test]
fn float_bits_round_trip() {
    let x = 1.5f32.to_bits();
    let y = (-2.25f64).to_bits();
    let bytes = encode_with(false, |e| {
        e.write(x);
        e.write(y);
    });
    let mut d = Decoder::new(&bytes, false);
    assert_eq!(f32::from_bits(d.read::<u32>().unwrap()), 1.5f32);
    assert_eq!(f64::from_bits(d.read::<u64>().unwrap()), -2.25f64);
}

#[test]
fn reading_past_the_end_moves_nothing() {
    let bytes = [1u8, 2, 3];
    let mut d = Decoder::new(&bytes, false);
    assert_eq!(d.read::<u32>(), None);
    assert_eq!(d.offset(), 0);
    assert_eq!(d.read::<u16>(), Some(0x0102));
    assert_eq!(d.read::<u16>(), None);
    assert_eq!(d.read_byte(), Some(3));
    assert_eq!(d.read_byte(), None);
}

#[test]
fn forks_move_the_cursor() {
    let bytes = [10u8, 20, 30, 40];
    let d = Decoder::new(&bytes, false);
    let mut a = d.fork_abs(2);
    assert_eq!(a.read_byte(), Some(30));
    let mut b = a.fork_inc(0);
    assert_eq!(b.read_byte(), Some(40));
    let mut c = b.fork_dec(3);
    assert_eq!(c.offset(), 1);
    assert_eq!(c.read_byte(), Some(20));
}

#[test]
fn opcode_tags_follow_declaration_order() {
    assert_eq!(OpCode::Nop.tag(), 0);
    assert_eq!(OpCode::Const32.tag(), 3);
    assert_eq!(OpCode::IDivI32.tag(), 38);
    assert_eq!(OpCode::ILrot8.tag(), 84);
    assert_eq!(OpCode::RegAddr.tag(), OPCODE_COUNT - 1);
    for b in 0..OPCODE_COUNT {
        assert_eq!(OpCode::from_tag(b).unwrap().tag(), b);
    }
    assert_eq!(OpCode::from_tag(OPCODE_COUNT), None);
    assert_eq!(OpCode::from_tag(255), None);
}

#[test]
fn unknown_opcode_tag_is_rejected() {
    let bytes = [OPCODE_COUNT];
    let mut d = Decoder::new(&bytes, false);
    assert_eq!(d.read_opcode(), Err(OPCODE_COUNT));
    let bytes = [OPCODE_COUNT - 1];
    let mut d = Decoder::new(&bytes, false);
    assert_eq!(d.read_opcode(), Ok(Some(OpCode::RegAddr)));
    assert_eq!(d.read_opcode(), Ok(None));
}

#[test]
fn header_flags() {
    let h = BytecodeHeader { format: 0 };
    assert!(!h.is_x64());
    assert!(!h.is_exec());
    let h = BytecodeHeader { format: 1 };
    assert!(h.is_x64());
    assert!(!h.is_exec());
    let h = BytecodeHeader { format: 2 };
    assert!(!h.is_x64());
    assert!(h.is_exec());
    let h = BytecodeHeader::new(true, true);
    assert_eq!(h.format, 3);
    let bytes = encode_with(false, |e| e.write(BytecodeHeader::new(true, false)));
    assert_eq!(bytes, vec![1]);
    let mut d = Decoder::new(&bytes, false);
    assert_eq!(d.read::<BytecodeHeader>(), Some(BytecodeHeader { format: 1 }));
}

#[test]
fn read_slice_borrows_the_next_bytes() {
    let bytes = [1u8, 2, 3, 4, 5];
    let mut d = Decoder::new(&bytes, false);
    assert_eq!(d.read_slice(0), Some(&[][..]));
    assert_eq!(d.read_slice(2), Some(&[1u8, 2][..]));
    assert_eq!(d.read_slice(4), None);
    assert_eq!(d.offset(), 2);
    assert_eq!(d.read_slice(3), Some(&[3u8, 4, 5][..]));
    assert_eq!(d.remaining(), 0);
}

#[test]
fn opcode_round_trips_through_read() {
    for b in 0..OPCODE_COUNT {
        let op = OpCode::from_tag(b).unwrap();
        let bytes = encode_with(false, |e| e.write(op));
        assert_eq!(bytes, vec![b]);
        let mut d = Decoder::new(&bytes, false);
        assert_eq!(d.read::<OpCode>(), Some(op));
        assert_eq!(d.offset(), 1);
    }
    let bytes = [OPCODE_COUNT];
    let mut d = Decoder::new(&bytes, false);
    assert_eq!(d.read::<OpCode>(), None);
    assert_eq!(d.offset(), 0);
}
