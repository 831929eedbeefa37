use canopen_od::data::{Data, DataError, DataType};
use canopen_od::slice_buffer::{Slice, SliceBuffer};

/// A DOMAIN value over the whole of a 1024-byte arena.
fn domain_1024() -> (SliceBuffer<1024>, Data) {
    let mut arena = SliceBuffer::<1024>::new();
    let region = arena.take_slice(1024).unwrap();
    (arena, Data::DOMAIN(region))
}

#[test]
fn check_invalid_access() {
    let x = [0u8; 10];
    let mut arena = SliceBuffer::<10>::new();
    let a = Data::UNSIGNED32(5);
    assert_eq!(a.try_get_domain(&arena), Err(DataError::InvalidDataTypeAcess));
    assert_eq!(
        a.try_set_domain(&mut arena, 0, &x),
        Err(DataError::InvalidDataTypeAcess)
    );
}

#[test]
fn set_by_iterator_fits() {
    const START: usize = 10;
    let (mut arena, dut) = domain_1024();
    let mut a = [0u8; 50];
    a[5] = 25;
    a[7] = 50;
    a[49] = 10;
    a[0] = 5;
    dut.try_set_domain(&mut arena, START, &a).unwrap();
    let res = dut.try_get_domain(&arena).unwrap();
    assert_eq!(res[START + 5], 25);
    assert_eq!(res[START + 7], 50);
    assert_eq!(res[START + 49], 10);
    assert_eq!(res[START + 0], 5);
}

#[test]
fn set_by_iterator_too_long() {
    const START: usize = 0;
    let (mut arena, dut) = domain_1024();
    let a = [0u8; 1025];
    assert_eq!(
        dut.try_set_domain(&mut arena, START, &a),
        Err(DataError::DomainSetSizeOutOfBounds)
    );
}

#[test]
fn set_by_iterator_start_offset_oob() {
    const START: usize = 1024;
    let (mut arena, dut) = domain_1024();
    let a = [0u8; 0];
    assert_eq!(
        dut.try_set_domain(&mut arena, START, &a),
        Err(DataError::DomainSetStartOutOfBounds)
    );
}

#[test]
fn set_by_iterator_iter_overlaps_oob() {
    const START: usize = 1020;
    let (mut arena, dut) = domain_1024();
    let a = [0u8; 5];
    assert_eq!(
        dut.try_set_domain(&mut arena, START, &a),
        Err(DataError::DomainSetSizeOutOfBounds)
    );
}

#[test]
fn set_by_iterator_write_fitting_iterator() {
    const START: usize = 0;
    let (mut arena, dut) = domain_1024();
    let mut a = [0u8; 1024];
    let mut cnt: u16 = 0;
    for k in &mut a {
        *k = cnt as u8;
        cnt += 1;
        if cnt == 256 {
            cnt = 0;
        }
    }
    assert_eq!(dut.try_set_domain(&mut arena, START, &a), Ok(()));

    let res = dut.try_get_domain(&arena).unwrap();
    let mut expect: u16 = 0;
    for k in res {
        assert_eq!(*k, expect as u8);
        expect += 1;
        if expect == 256 {
            expect = 0;
        }
    }
}

#[test]
fn domain_write_leaves_other_bytes() {
    let before: Vec<u8> = (0..1024u32).map(|i| (i % 251) as u8).collect();
    let (mut arena, dut) = domain_1024();
    dut.try_set_domain(&mut arena, 0, &before).unwrap();
    let mut a = [0u8; 50];
    a[5] = 25;
    a[7] = 50;
    a[49] = 10;
    dut.try_set_domain(&mut arena, 10, &a).unwrap();
    let res = dut.try_get_domain(&arena).unwrap();
    assert_eq!(res[15], 25);
    assert_eq!(res[17], 50);
    assert_eq!(res[59], 10);
    assert_eq!(res[10], 0);
    assert_eq!(&res[..10], &before[..10]);
    assert_eq!(&res[60..], &before[60..]);
}

#[test]
fn failed_domain_write_changes_nothing() {
    let before: Vec<u8> = (0..1024u32).map(|i| (i % 7) as u8).collect();
    let (mut arena, dut) = domain_1024();
    dut.try_set_domain(&mut arena, 0, &before).unwrap();
    assert_eq!(
        dut.try_set_domain(&mut arena, 1020, &[9u8; 5]),
        Err(DataError::DomainSetSizeOutOfBounds)
    );
    assert_eq!(dut.try_get_domain(&arena).unwrap(), &before[..]);
    assert_eq!(
        dut.try_set_domain(&mut arena, 1024, &[]),
        Err(DataError::DomainSetStartOutOfBounds)
    );
    assert_eq!(dut.try_get_domain(&arena).unwrap(), &before[..]);
    assert_eq!(dut.try_set_domain(&mut arena, 1023, &[9u8]), Ok(()));
    assert_eq!(dut.try_get_domain(&arena).unwrap()[1023], 9);
}

#[test]
fn blob_values_share_one_arena() {
    let mut arena = SliceBuffer::<16>::new();
    let o = Data::OCTETSTRING(arena.take_slice(4).unwrap());
    let v = Data::VISIBLESTRING(arena.take_slice(3).unwrap());
    let d = Data::DOMAIN(arena.take_slice(9).unwrap());
    assert_eq!(o.try_set_octetstring(&mut arena, 0, &[1, 2, 3, 4]), Ok(()));
    assert_eq!(o.try_set_octetstring(&mut arena, 1, &[7, 8]), Ok(()));
    assert_eq!(o.try_get_octetstring(&arena), Ok(&[1u8, 7, 8, 4][..]));
    assert_eq!(o.try_get_domain(&arena), Err(DataError::InvalidDataTypeAcess));
    assert_eq!(
        o.try_set_visiblestring(&mut arena, 0, &[1]),
        Err(DataError::InvalidDataTypeAcess)
    );
    assert_eq!(v.try_set_visiblestring(&mut arena, 0, b"abc"), Ok(()));
    assert_eq!(
        v.try_set_visiblestring(&mut arena, 2, &[b'x', b'y']),
        Err(DataError::DomainSetSizeOutOfBounds)
    );
    assert_eq!(v.try_set_visiblestring(&mut arena, 2, b"z"), Ok(()));
    assert_eq!(v.try_get_visiblestring(&arena), Ok(&b"abz"[..]));
    assert_eq!(d.try_set_domain(&mut arena, 0, &[0xFF; 9]), Ok(()));
    assert_eq!(o.try_get_octetstring(&arena), Ok(&[1u8, 7, 8, 4][..]));
    assert_eq!(v.try_get_visiblestring(&arena), Ok(&b"abz"[..]));
    assert_eq!(&arena.buffer()[7..], &[0xFFu8; 9][..]);
}

#[test]
fn data_type_of_each_variant() {
    let s = Slice { start: 0, len: 2 };
    assert_eq!(DataType::from(Data::NIL), DataType::NIL);
    assert_eq!(DataType::from(Data::UNSIGNED8(0)), DataType::UNSIGNED8);
    assert_eq!(DataType::from(Data::INTEGER56(-3)), DataType::INTEGER56);
    assert_eq!(DataType::from(Data::REAL32(1.5f32.to_bits())), DataType::REAL32);
    assert_eq!(DataType::from(Data::OCTETSTRING(s)), DataType::OCTETSTRING);
    assert_eq!(DataType::from(Data::VISIBLESTRING(s)), DataType::VISIBLESTRING);
    assert_eq!(DataType::from(Data::DOMAIN(s)), DataType::DOMAIN);
    let t: DataType = Data::UNSIGNED8(false as u8).into();
    assert_eq!(t, DataType::UNSIGNED8);
    assert_eq!(Data::VOID(4).data_type(), DataType::VOID);
}

#[test]
fn int_value_of_variants() {
    assert_eq!(Data::UNSIGNED64(u64::MAX).int_value(), Some(u64::MAX as i128));
    assert_eq!(Data::INTEGER64(i64::MIN).int_value(), Some(i64::MIN as i128));
    assert_eq!(Data::BOOLEAN(true).int_value(), None);
    assert_eq!(Data::DOMAIN(Slice { start: 0, len: 0 }).int_value(), None);
}

#[test]
fn round_trip_bool() {
    let mut dut = Data::BOOLEAN(true);
    assert_eq!(dut.try_get_bool(), Ok(true));
    assert_eq!(dut.try_set_bool(false), Ok(()));
    assert_eq!(dut.try_get_bool(), Ok(false));
    assert_eq!(dut.try_get_u8(), Err(DataError::InvalidDataTypeAcess));
}

#[test]
fn mismatched_set_changes_nothing() {
    let mut dut = Data::UNSIGNED16(7);
    assert_eq!(dut.try_set_u32(9), Err(DataError::InvalidDataTypeAcess));
    assert_eq!(dut.try_set_i16(9), Err(DataError::InvalidDataTypeAcess));
    assert_eq!(dut, Data::UNSIGNED16(7));
    assert_eq!(dut.try_get_u32(), Err(DataError::InvalidDataTypeAcess));
}

#[test]
fn round_trip_u8() {
    let mut dut = Data::UNSIGNED8(u8::MAX);
    assert_eq!(dut.try_get_u8(), Ok(u8::MAX));
    assert_eq!(dut.try_get_domain(&SliceBuffer::<0>::new()), Err(DataError::InvalidDataTypeAcess));
    assert_eq!(dut.try_set_u8(u8::MIN), Ok(()));
    assert_eq!(dut.try_get_u8(), Ok(u8::MIN));
    assert_eq!(dut.data_type(), DataType::UNSIGNED8);
}

#[test]
fn round_trip_u16() {
    let mut dut = Data::UNSIGNED16(u16::MAX);
    assert_eq!(dut.try_get_u16(), Ok(u16::MAX));
    assert_eq!(dut.try_get_domain(&SliceBuffer::<0>::new()), Err(DataError::InvalidDataTypeAcess));
    assert_eq!(dut.try_set_u16(u16::MIN), Ok(()));
    assert_eq!(dut.try_get_u16(), Ok(u16::MIN));
    assert_eq!(dut.data_type(), DataType::UNSIGNED16);
}

#[test]
fn round_trip_u24() {
    let mut dut = Data::UNSIGNED24(i32::MAX);
    assert_eq!(dut.try_get_u24(), Ok(i32::MAX));
    assert_eq!(dut.try_get_domain(&SliceBuffer::<0>::new()), Err(DataError::InvalidDataTypeAcess));
    assert_eq!(dut.try_set_u24(i32::MIN), Ok(()));
    assert_eq!(dut.try_get_u24(), Ok(i32::MIN));
    assert_eq!(dut.data_type(), DataType::UNSIGNED24);
}

#[test]
fn round_trip_u32() {
    let mut dut = Data::UNSIGNED32(u32::MAX);
    assert_eq!(dut.try_get_u32(), Ok(u32::MAX));
    assert_eq!(dut.try_get_domain(&SliceBuffer::<0>::new()), Err(DataError::InvalidDataTypeAcess));
    assert_eq!(dut.try_set_u32(u32::MIN), Ok(()));
    assert_eq!(dut.try_get_u32(), Ok(u32::MIN));
    assert_eq!(dut.data_type(), DataType::UNSIGNED32);
}

#[test]
fn round_trip_u40() {
    let mut dut = Data::UNSIGNED40(u64::MAX);
    assert_eq!(dut.try_get_u40(), Ok(u64::MAX));
    assert_eq!(dut.try_get_domain(&SliceBuffer::<0>::new()), Err(DataError::InvalidDataTypeAcess));
    assert_eq!(dut.try_set_u40(u64::MIN), Ok(()));
    assert_eq!(dut.try_get_u40(), Ok(u64::MIN));
    assert_eq!(dut.data_type(), DataType::UNSIGNED40);
}

#[test]
fn round_trip_u48() {
    let mut dut = Data::UNSIGNED48(u64::MAX);
    assert_eq!(dut.try_get_u48(), Ok(u64::MAX));
    assert_eq!(dut.try_get_domain(&SliceBuffer::<0>::new()), Err(DataError::InvalidDataTypeAcess));
    assert_eq!(dut.try_set_u48(u64::MIN), Ok(()));
    assert_eq!(dut.try_get_u48(), Ok(u64::MIN));
    assert_eq!(dut.data_type(), DataType::UNSIGNED48);
}

#[test]
fn round_trip_u56() {
    let mut dut = Data::UNSIGNED56(u64::MAX);
    assert_eq!(dut.try_get_u56(), Ok(u64::MAX));
    assert_eq!(dut.try_get_domain(&SliceBuffer::<0>::new()), Err(DataError::InvalidDataTypeAcess));
    assert_eq!(dut.try_set_u56(u64::MIN), Ok(()));
    assert_eq!(dut.try_get_u56(), Ok(u64::MIN));
    assert_eq!(dut.data_type(), DataType::UNSIGNED56);
}

#[test]
fn round_trip_u64() {
    let mut dut = Data::UNSIGNED64(u64::MAX);
    assert_eq!(dut.try_get_u64(), Ok(u64::MAX));
    assert_eq!(dut.try_get_domain(&SliceBuffer::<0>::new()), Err(DataError::InvalidDataTypeAcess));
    assert_eq!(dut.try_set_u64(u64::MIN), Ok(()));
    assert_eq!(dut.try_get_u64(), Ok(u64::MIN));
    assert_eq!(dut.data_type(), DataType::UNSIGNED64);
}

#[test]
fn round_trip_i8() {
    let mut dut = Data::INTEGER8(i8::MAX);
    assert_eq!(dut.try_get_i8(), Ok(i8::MAX));
    assert_eq!(dut.try_get_domain(&SliceBuffer::<0>::new()), Err(DataError::InvalidDataTypeAcess));
    assert_eq!(dut.try_set_i8(i8::MIN), Ok(()));
    assert_eq!(dut.try_get_i8(), Ok(i8::MIN));
    assert_eq!(dut.data_type(), DataType::INTEGER8);
}

#[test]
fn round_trip_i16() {
    let mut dut = Data::INTEGER16(i16::MAX);
    assert_eq!(dut.try_get_i16(), Ok(i16::MAX));
    assert_eq!(dut.try_get_domain(&SliceBuffer::<0>::new()), Err(DataError::InvalidDataTypeAcess));
    assert_eq!(dut.try_set_i16(i16::MIN), Ok(()));
    assert_eq!(dut.try_get_i16(), Ok(i16::MIN));
    assert_eq!(dut.data_type(), DataType::INTEGER16);
}

#[test]
fn round_trip_i24() {
    let mut dut = Data::INTEGER24(i32::MAX);
    assert_eq!(dut.try_get_i24(), Ok(i32::MAX));
    assert_eq!(dut.try_get_domain(&SliceBuffer::<0>::new()), Err(DataError::InvalidDataTypeAcess));
    assert_eq!(dut.try_set_i24(i32::MIN), Ok(()));
    assert_eq!(dut.try_get_i24(), Ok(i32::MIN));
    assert_eq!(dut.data_type(), DataType::INTEGER24);
}

#[test]
fn round_trip_i32() {
    let mut dut = Data::INTEGER32(i32::MAX);
    assert_eq!(dut.try_get_i32(), Ok(i32::MAX));
    assert_eq!(dut.try_get_domain(&SliceBuffer::<0>::new()), Err(DataError::InvalidDataTypeAcess));
    assert_eq!(dut.try_set_i32(i32::MIN), Ok(()));
    assert_eq!(dut.try_get_i32(), Ok(i32::MIN));
    assert_eq!(dut.data_type(), DataType::INTEGER32);
}

#[test]
fn round_trip_i40() {
    let mut dut = Data::INTEGER40(i64::MAX);
    assert_eq!(dut.try_get_i40(), Ok(i64::MAX));
    assert_eq!(dut.try_get_domain(&SliceBuffer::<0>::new()), Err(DataError::InvalidDataTypeAcess));
    assert_eq!(dut.try_set_i40(i64::MIN), Ok(()));
    assert_eq!(dut.try_get_i40(), Ok(i64::MIN));
    assert_eq!(dut.data_type(), DataType::INTEGER40);
}

#[test]
fn round_trip_i48() {
    let mut dut = Data::INTEGER48(i64::MAX);
    assert_eq!(dut.try_get_i48(), Ok(i64::MAX));
    assert_eq!(dut.try_get_domain(&SliceBuffer::<0>::new()), Err(DataError::InvalidDataTypeAcess));
    assert_eq!(dut.try_set_i48(i64::MIN), Ok(()));
    assert_eq!(dut.try_get_i48(), Ok(i64::MIN));
    assert_eq!(dut.data_type(), DataType::INTEGER48);
}

#[test]
fn round_trip_i56() {
    let mut dut = Data::INTEGER56(i64::MAX);
    assert_eq!(dut.try_get_i56(), Ok(i64::MAX));
    assert_eq!(dut.try_get_domain(&SliceBuffer::<0>::new()), Err(DataError::InvalidDataTypeAcess));
    assert_eq!(dut.try_set_i56(i64::MIN), Ok(()));
    assert_eq!(dut.try_get_i56(), Ok(i64::MIN));
    assert_eq!(dut.data_type(), DataType::INTEGER56);
}

#[test]
fn round_trip_i64() {
    let mut dut = Data::INTEGER64(i64::MAX);
    assert_eq!(dut.try_get_i64(), Ok(i64::MAX));
    assert_eq!(dut.try_get_domain(&SliceBuffer::<0>::new()), Err(DataError::InvalidDataTypeAcess));
    assert_eq!(dut.try_set_i64(i64::MIN), Ok(()));
    assert_eq!(dut.try_get_i64(), Ok(i64::MIN));
    assert_eq!(dut.data_type(), DataType::INTEGER64);
}

#[test]
fn real_bits_round_trip() {
    let mut d = Data::REAL32(1.5f32.to_bits());
    assert_eq!(d.try_get_real32_bits(), Ok(1.5f32.to_bits()));
    assert_eq!(d.try_set_real32_bits((-2.25f32).to_bits()), Ok(()));
    assert_eq!(f32::from_bits(d.try_get_real32_bits().unwrap()), -2.25f32);
    assert_eq!(d.try_get_real64_bits(), Err(DataError::InvalidDataTypeAcess));
    let mut e = Data::REAL64(0.5f64.to_bits());
    assert_eq!(e.try_set_real64_bits(3.0f64.to_bits()), Ok(()));
    assert_eq!(f64::from_bits(e.try_get_real64_bits().unwrap()), 3.0f64);
    assert_eq!(e.int_value(), None);
}

#[test]
fn order_key_follows_value() {
    let k = |x: f32| Data::REAL32(x.to_bits()).order_key().unwrap();
    assert!(k(-2.0) < k(-1.0));
    assert_eq!(k(-0.0), k(0.0));
    assert!(Data::REAL32(f32::NAN.to_bits()).order_key().is_none());
    assert!(Data::REAL64((-f64::NAN).to_bits()).order_key().is_none());
    assert!(Data::REAL64((-3.0f64).to_bits()).order_key() < Data::REAL64(0.5f64.to_bits()).order_key());
    assert!(k(0.0) < k(1.0));
    assert!(k(1.0) < k(f32::INFINITY));
    assert!(k(f32::NEG_INFINITY) < k(-1.0));
    assert_eq!(Data::INTEGER8(-3).order_key(), Some(-3));
    assert_eq!(Data::DOMAIN(Slice { start: 0, len: 0 }).order_key(), None);
}
