use canopen_od::data::{Data, DataType};
use canopen_od::object::{
    EntryError, LimitCheck, Object, ObjectAccess, ObjectEntry, ObjectType, Objectifiable,
};

#[test]
fn trai() {
    let mut a = Object::<'static, 5>::default();
    let entry_1 = ObjectEntry::default();
    let mut entry_2 = ObjectEntry::default();
    entry_2.name = "ssss";
    a.push_entry(entry_1).unwrap();
    a.push_entry(entry_2).unwrap();
    let mut map =
        heapless::FnvIndexMap::<u16, &mut dyn Objectifiable<Item = ObjectEntry>, 4>::new();

    map.insert(1, &mut a).unwrap();

    let res = map.get_mut(&1).unwrap();
    {
        let en = res.get_entry_mut(0).unwrap();
        assert_eq!(en.get_name(), "empty");
    }
    {
        let en_2 = res.get_entry_mut(1).unwrap();
        assert_eq!(en_2.get_name(), "ssss");
    }
}

#[test]
fn entries_past_the_last_fail() {
    let mut a = Object::<'static, 5>::default();
    let mut second = ObjectEntry::default();
    second.name = "second";
    a.push_entry(ObjectEntry::default()).unwrap();
    a.push_entry(second).unwrap();
    assert_eq!(a.get_entry_mut(0).unwrap().get_name(), "empty");
    assert_eq!(a.get_entry_mut(1).unwrap().get_name(), "second");
    assert!(a.get_entry(2).is_none());
    assert!(a.get_entry(5).is_none());
    assert!(a.get_entry_mut(5).is_none());
    a.get_entry_mut(0).unwrap().name = "first";
    assert_eq!(a.get_entry(0).unwrap().get_name(), "first");
    assert_eq!(a.get_entry(1).unwrap().get_name(), "second");
}

#[test]
fn object_capacity_is_kept() {
    let mut a = Object::<'static, 2>::new();
    assert!(a.push_entry(ObjectEntry::default()).is_ok());
    assert!(a.push_entry(ObjectEntry::default()).is_ok());
    let mut third = ObjectEntry::default();
    third.name = "third";
    let back = a.push_entry(third).unwrap_err();
    assert_eq!(back.get_name(), "third");
    assert_eq!(a.len(), 2);
}

#[test]
fn object_identity() {
    let a = Object::<'static, 3>::new();
    assert_eq!(a.get_name(), "test");
    assert_eq!(a.get_index(), 5);
    assert_eq!(a.get_object_type(), ObjectType::Array);
    assert_eq!(a.len(), 0);
    let b = Object::<'static, 3>::default();
    assert_eq!(b.get_name(), "empty");
    assert_eq!(b.get_index(), 0);
    assert_eq!(b.get_object_type(), ObjectType::Variable);
}

#[test]
fn default_entry() {
    let e = ObjectEntry::default();
    assert_eq!(e.get_name(), "empty");
    assert_eq!(e.datatype, DataType::NIL);
    assert_eq!(e.access, ObjectAccess::Constant);
    assert!(e.limit.is_none());
    assert!(e.default.is_none());
    assert!(e.value.is_none());
}

fn entry(access: ObjectAccess) -> ObjectEntry<'static> {
    ObjectEntry {
        name: "speed",
        datatype: DataType::UNSIGNED16,
        access,
        limit: Some(LimitCheck::new(Data::UNSIGNED16(10), Data::UNSIGNED16(20))),
        default: Some(Data::UNSIGNED16(15)),
        value: Some(Data::UNSIGNED16(15)),
    }
}

#[test]
fn entry_write_checks() {
    let mut e = entry(ObjectAccess::ReadWrite);
    assert_eq!(e.write(Data::UNSIGNED16(20)), Ok(()));
    assert_eq!(e.read(), Ok(&Data::UNSIGNED16(20)));
    assert_eq!(e.write(Data::UNSIGNED16(10)), Ok(()));
    assert_eq!(e.write(Data::UNSIGNED16(21)), Err(EntryError::OutOfLimits));
    assert_eq!(e.write(Data::UNSIGNED16(9)), Err(EntryError::OutOfLimits));
    assert_eq!(e.write(Data::UNSIGNED32(15)), Err(EntryError::TypeMismatch));
    assert_eq!(e.read(), Ok(&Data::UNSIGNED16(10)));
    e.limit = None;
    assert_eq!(e.write(Data::UNSIGNED16(500)), Ok(()));
    assert_eq!(e.read(), Ok(&Data::UNSIGNED16(500)));
}

#[test]
fn entry_access_policy() {
    let mut c = entry(ObjectAccess::Constant);
    assert_eq!(c.write(Data::UNSIGNED16(12)), Err(EntryError::WriteDenied));
    assert_eq!(c.read(), Ok(&Data::UNSIGNED16(15)));
    let mut r = entry(ObjectAccess::ReadOnly);
    assert_eq!(r.write(Data::UNSIGNED16(12)), Err(EntryError::WriteDenied));
    let mut w = entry(ObjectAccess::WriteOnly);
    assert_eq!(w.read(), Err(EntryError::ReadDenied));
    assert_eq!(w.write(Data::UNSIGNED16(12)), Ok(()));
    assert_eq!(w.value, Some(Data::UNSIGNED16(12)));
    let mut empty = entry(ObjectAccess::ReadWrite);
    empty.value = None;
    assert_eq!(empty.read(), Err(EntryError::NoValue));
}

#[test]
fn limits_of_another_variant_refuse() {
    let mut e = entry(ObjectAccess::ReadWrite);
    e.limit = Some(LimitCheck::new(Data::UNSIGNED8(0), Data::UNSIGNED8(255)));
    assert_eq!(e.write(Data::UNSIGNED16(12)), Err(EntryError::OutOfLimits));
    let mut b = ObjectEntry {
        name: "flag",
        datatype: DataType::BOOLEAN,
        access: ObjectAccess::ReadWrite,
        limit: Some(LimitCheck::new(Data::BOOLEAN(false), Data::BOOLEAN(false))),
        default: None,
        value: None,
    };
    assert_eq!(b.write(Data::BOOLEAN(true)), Ok(()));
}

#[test]
fn float_limits_compare_by_value() {
    let mut e = ObjectEntry {
        name: "gain",
        datatype: DataType::REAL32,
        access: ObjectAccess::ReadWrite,
        limit: Some(LimitCheck::new(
            Data::REAL32((-1.5f32).to_bits()),
            Data::REAL32(2.0f32.to_bits()),
        )),
        default: None,
        value: None,
    };
    assert_eq!(e.write(Data::REAL32(0.0f32.to_bits())), Ok(()));
    assert_eq!(e.write(Data::REAL32((-1.5f32).to_bits())), Ok(()));
    assert_eq!(e.write(Data::REAL32((-1.0f32).to_bits())), Ok(()));
    assert_eq!(e.write(Data::REAL32(2.0f32.to_bits())), Ok(()));
    assert_eq!(e.write(Data::REAL32(2.5f32.to_bits())), Err(EntryError::OutOfLimits));
    assert_eq!(e.write(Data::REAL32((-2.0f32).to_bits())), Err(EntryError::OutOfLimits));
    assert_eq!(e.write(Data::REAL32(f32::NAN.to_bits())), Err(EntryError::OutOfLimits));
    let mut d = ObjectEntry {
        name: "ratio",
        datatype: DataType::REAL64,
        access: ObjectAccess::ReadWrite,
        limit: Some(LimitCheck::new(Data::REAL64(0.0f64.to_bits()), Data::REAL64(1.0f64.to_bits()))),
        default: None,
        value: None,
    };
    assert_eq!(d.write(Data::REAL64(0.25f64.to_bits())), Ok(()));
    assert_eq!(d.write(Data::REAL64((-0.0f64).to_bits())), Ok(()));
    assert_eq!(d.write(Data::REAL64((-1e-300f64).to_bits())), Err(EntryError::OutOfLimits));
    assert_eq!(d.write(Data::REAL64(f64::NAN.to_bits())), Err(EntryError::OutOfLimits));
    assert_eq!(d.write(Data::REAL64(1.5f64.to_bits())), Err(EntryError::OutOfLimits));
}

#[test]
fn object_with_own_identity() {
    let mut a = Object::<'static, 4>::with_identity("device type", ObjectType::Record, 0x1000);
    assert_eq!(a.get_name(), "device type");
    assert_eq!(a.get_index(), 0x1000);
    assert_eq!(a.get_object_type(), ObjectType::Record);
    assert_eq!(a.len(), 0);
    assert!(a.get_entry(0).is_none());
    a.push_entry(ObjectEntry::default()).unwrap();
    assert_eq!(a.get_entry(0).unwrap().get_name(), "empty");
}
