use vstd::prelude::*;
use crate::slice_buffer::{Slice, SliceBuffer, region_write};

verus! {

/// A value of the dictionary. The variant is fixed when the value is built:
/// setters replace the payload and never change the variant.
///
/// `REAL32` and `REAL64` hold the IEEE 754 bit pattern of the float.
/// `OCTETSTRING`, `VISIBLESTRING` and `DOMAIN` refer to a region handed out
/// by a [`SliceBuffer`]; their bytes are read and written through that arena.
#[derive(Debug, Clone, Copy, PartialEq, Eq, Structural)]
pub enum Data {
    NIL,
    BOOLEAN(bool),
    VOID(usize),
    UNSIGNED8(u8),
    UNSIGNED16(u16),
    UNSIGNED24(i32),
    UNSIGNED32(u32),
    UNSIGNED40(u64),
    UNSIGNED48(u64),
    UNSIGNED56(u64),
    UNSIGNED64(u64),
    INTEGER8(i8),
    INTEGER16(i16),
    INTEGER24(i32),
    INTEGER32(i32),
    INTEGER40(i64),
    INTEGER48(i64),
    INTEGER56(i64),
    INTEGER64(i64),
    REAL32(u32),
    REAL64(u64),
    OCTETSTRING(Slice),
    VISIBLESTRING(Slice),
    DOMAIN(Slice),
}

/// The variant of a [`Data`] without its payload.
#[derive(Debug, Clone, Copy, PartialEq, Eq, Structural)]
pub enum DataType {
    NIL,
    BOOLEAN,
    VOID,
    UNSIGNED8,
    UNSIGNED16,
    UNSIGNED24,
    UNSIGNED32,
    UNSIGNED40,
    UNSIGNED48,
    UNSIGNED56,
    UNSIGNED64,
    INTEGER8,
    INTEGER16,
    INTEGER24,
    INTEGER32,
    INTEGER40,
    INTEGER48,
    INTEGER56,
    INTEGER64,
    REAL32,
    REAL64,
    OCTETSTRING,
    VISIBLESTRING,
    DOMAIN,
}

/// Why an access to a [`Data`] value was refused.
#[derive(Debug, Clone, Copy, PartialEq, Eq, Structural)]
pub enum DataError {
    InvalidDataTypeAcess,
    DomainSetStartOutOfBounds,
    DomainSetSizeOutOfBounds,
    DomainSetInvalidIterator,
}

/// The tag of a value: each variant maps to the tag of the same name.
pub open spec fn type_of(d: Data) -> DataType {
    match d {
        Data::NIL => DataType::NIL,
        Data::BOOLEAN(_) => DataType::BOOLEAN,
        Data::VOID(_) => DataType::VOID,
        Data::UNSIGNED8(_) => DataType::UNSIGNED8,
        Data::UNSIGNED16(_) => DataType::UNSIGNED16,
        Data::UNSIGNED24(_) => DataType::UNSIGNED24,
        Data::UNSIGNED32(_) => DataType::UNSIGNED32,
        Data::UNSIGNED40(_) => DataType::UNSIGNED40,
        Data::UNSIGNED48(_) => DataType::UNSIGNED48,
        Data::UNSIGNED56(_) => DataType::UNSIGNED56,
        Data::UNSIGNED64(_) => DataType::UNSIGNED64,
        Data::INTEGER8(_) => DataType::INTEGER8,
        Data::INTEGER16(_) => DataType::INTEGER16,
        Data::INTEGER24(_) => DataType::INTEGER24,
        Data::INTEGER32(_) => DataType::INTEGER32,
        Data::INTEGER40(_) => DataType::INTEGER40,
        Data::INTEGER48(_) => DataType::INTEGER48,
        Data::INTEGER56(_) => DataType::INTEGER56,
        Data::INTEGER64(_) => DataType::INTEGER64,
        Data::REAL32(_) => DataType::REAL32,
        Data::REAL64(_) => DataType::REAL64,
        Data::OCTETSTRING(_) => DataType::OCTETSTRING,
        Data::VISIBLESTRING(_) => DataType::VISIBLESTRING,
        Data::DOMAIN(_) => DataType::DOMAIN,
    }
}

/// The numeric value of an integer variant; `None` for every other variant.
pub open spec fn int_value_of(d: Data) -> Option<int> {
    match d {
        Data::UNSIGNED8(x) => Some(x as int),
        Data::UNSIGNED16(x) => Some(x as int),
        Data::UNSIGNED24(x) => Some(x as int),
        Data::UNSIGNED32(x) => Some(x as int),
        Data::UNSIGNED40(x) => Some(x as int),
        Data::UNSIGNED48(x) => Some(x as int),
        Data::UNSIGNED56(x) => Some(x as int),
        Data::UNSIGNED64(x) => Some(x as int),
        Data::INTEGER8(x) => Some(x as int),
        Data::INTEGER16(x) => Some(x as int),
        Data::INTEGER24(x) => Some(x as int),
        Data::INTEGER32(x) => Some(x as int),
        Data::INTEGER40(x) => Some(x as int),
        Data::INTEGER48(x) => Some(x as int),
        Data::INTEGER56(x) => Some(x as int),
        Data::INTEGER64(x) => Some(x as int),
        _ => None,
    }
}

/// The place of a 32-bit float, given by its bit pattern, on the number
/// line: both zeros at 0, order kept among all other non-NaN values; `None`
/// for NaN, which has no place.
pub open spec fn real32_order_key(b: u32) -> Option<int> {
    let m: int = if b >= 0x8000_0000u32 { b - 0x8000_0000int } else { b as int };
    if m > 0x7F80_0000 {
        None
    } else if b >= 0x8000_0000u32 {
        Some(-m)
    } else {
        Some(m)
    }
}

/// The place of a 64-bit float, given by its bit pattern, on the number
/// line; `None` for NaN.
pub open spec fn real64_order_key(b: u64) -> Option<int> {
    let m: int = if b >= 0x8000_0000_0000_0000u64 {
        b - 0x8000_0000_0000_0000int
    } else {
        b as int
    };
    if m > 0x7FF0_0000_0000_0000 {
        None
    } else if b >= 0x8000_0000_0000_0000u64 {
        Some(-m)
    } else {
        Some(m)
    }
}

/// Where a value stands in the order of its variant: the number of an
/// integer variant, the place of a non-NaN float; `None` otherwise.
pub open spec fn order_key_of(d: Data) -> Option<int> {
    match d {
        Data::REAL32(b) => real32_order_key(b),
        Data::REAL64(b) => real64_order_key(b),
        _ => int_value_of(d),
    }
}

/// The variant of `d` is ordered: an integer or a float variant.
pub open spec fn has_order(d: Data) -> bool {
    int_value_of(d) is Some || d is REAL32 || d is REAL64
}

/// The bytes of `b` after writing `d` at offset `start`, or the error that
/// refuses the write: the offset must be a valid index and the data must fit.
pub open spec fn write_outcome(b: Seq<u8>, start: int, d: Seq<u8>) -> Result<Seq<u8>, DataError> {
    if start >= b.len() {
        Err(DataError::DomainSetStartOutOfBounds)
    } else if start + d.len() > b.len() {
        Err(DataError::DomainSetSizeOutOfBounds)
    } else {
        Ok(Seq::new(b.len(), |i: int| if start <= i < start + d.len() { d[i - start] } else { b[i] }))
    }
}

impl From<Data> for DataType {
    fn from(i: Data) -> (r: DataType) {
        match i {
            Data::NIL => DataType::NIL,
            Data::BOOLEAN(_) => DataType::BOOLEAN,
            Data::VOID(_) => DataType::VOID,
            Data::UNSIGNED8(_) => DataType::UNSIGNED8,
            Data::UNSIGNED16(_) => DataType::UNSIGNED16,
            Data::UNSIGNED24(_) => DataType::UNSIGNED24,
            Data::UNSIGNED32(_) => DataType::UNSIGNED32,
            Data::UNSIGNED40(_) => DataType::UNSIGNED40,
            Data::UNSIGNED48(_) => DataType::UNSIGNED48,
            Data::UNSIGNED56(_) => DataType::UNSIGNED56,
            Data::UNSIGNED64(_) => DataType::UNSIGNED64,
            Data::INTEGER8(_) => DataType::INTEGER8,
            Data::INTEGER16(_) => DataType::INTEGER16,
            Data::INTEGER24(_) => DataType::INTEGER24,
            Data::INTEGER32(_) => DataType::INTEGER32,
            Data::INTEGER40(_) => DataType::INTEGER40,
            Data::INTEGER48(_) => DataType::INTEGER48,
            Data::INTEGER56(_) => DataType::INTEGER56,
            Data::INTEGER64(_) => DataType::INTEGER64,
            Data::REAL32(_) => DataType::REAL32,
            Data::REAL64(_) => DataType::REAL64,
            Data::OCTETSTRING(_) => DataType::OCTETSTRING,
            Data::VISIBLESTRING(_) => DataType::VISIBLESTRING,
            Data::DOMAIN(_) => DataType::DOMAIN,
        }
    }
}

impl vstd::std_specs::convert::FromSpecImpl<Data> for DataType {
    open spec fn obeys_from_spec() -> bool {
        true
    }

    open spec fn from_spec(i: Data) -> DataType {
        type_of(i)
    }
}

impl Data {
    /// The tag of this value.
    pub fn data_type(&self) -> (r: DataType)
        ensures
            r == type_of(*self),
    {
        match self {
            Data::NIL => DataType::NIL,
            Data::BOOLEAN(_) => DataType::BOOLEAN,
            Data::VOID(_) => DataType::VOID,
            Data::UNSIGNED8(_) => DataType::UNSIGNED8,
            Data::UNSIGNED16(_) => DataType::UNSIGNED16,
            Data::UNSIGNED24(_) => DataType::UNSIGNED24,
            Data::UNSIGNED32(_) => DataType::UNSIGNED32,
            Data::UNSIGNED40(_) => DataType::UNSIGNED40,
            Data::UNSIGNED48(_) => DataType::UNSIGNED48,
            Data::UNSIGNED56(_) => DataType::UNSIGNED56,
            Data::UNSIGNED64(_) => DataType::UNSIGNED64,
            Data::INTEGER8(_) => DataType::INTEGER8,
            Data::INTEGER16(_) => DataType::INTEGER16,
            Data::INTEGER24(_) => DataType::INTEGER24,
            Data::INTEGER32(_) => DataType::INTEGER32,
            Data::INTEGER40(_) => DataType::INTEGER40,
            Data::INTEGER48(_) => DataType::INTEGER48,
            Data::INTEGER56(_) => DataType::INTEGER56,
            Data::INTEGER64(_) => DataType::INTEGER64,
            Data::REAL32(_) => DataType::REAL32,
            Data::REAL64(_) => DataType::REAL64,
            Data::OCTETSTRING(_) => DataType::OCTETSTRING,
            Data::VISIBLESTRING(_) => DataType::VISIBLESTRING,
            Data::DOMAIN(_) => DataType::DOMAIN,
        }
    }

    /// The numeric value of an integer variant, `None` for the others.
    pub fn int_value(&self) -> (r: Option<i128>)
        ensures
            match int_value_of(*self) {
                Some(v) => r is Some && r->Some_0 as int == v,
                None => r is None,
            },
    {
        match self {
            Data::UNSIGNED8(x) => Some(*x as i128),
            Data::UNSIGNED16(x) => Some(*x as i128),
            Data::UNSIGNED24(x) => Some(*x as i128),
            Data::UNSIGNED32(x) => Some(*x as i128),
            Data::UNSIGNED40(x) => Some(*x as i128),
            Data::UNSIGNED48(x) => Some(*x as i128),
            Data::UNSIGNED56(x) => Some(*x as i128),
            Data::UNSIGNED64(x) => Some(*x as i128),
            Data::INTEGER8(x) => Some(*x as i128),
            Data::INTEGER16(x) => Some(*x as i128),
            Data::INTEGER24(x) => Some(*x as i128),
            Data::INTEGER32(x) => Some(*x as i128),
            Data::INTEGER40(x) => Some(*x as i128),
            Data::INTEGER48(x) => Some(*x as i128),
            Data::INTEGER56(x) => Some(*x as i128),
            Data::INTEGER64(x) => Some(*x as i128),
            _ => None,
        }
    }

    /// Where this value stands in the order of its variant; `None` for a
    /// NaN and for the variants that have no order.
    pub fn order_key(&self) -> (r: Option<i128>)
        ensures
            match order_key_of(*self) {
                Some(v) => r is Some && r->Some_0 as int == v,
                None => r is None,
            },
    {
        match self {
            Data::REAL32(b) => {
                let m: u32 = if *b >= 0x8000_0000u32 { *b - 0x8000_0000u32 } else { *b };
                if m > 0x7F80_0000u32 {
                    None
                } else if *b >= 0x8000_0000u32 {
                    Some(-(m as i128))
                } else {
                    Some(m as i128)
                }
            },
            Data::REAL64(b) => {
                let m: u64 = if *b >= 0x8000_0000_0000_0000u64 {
                    *b - 0x8000_0000_0000_0000u64
                } else {
                    *b
                };
                if m > 0x7FF0_0000_0000_0000u64 {
                    None
                } else if *b >= 0x8000_0000_0000_0000u64 {
                    Some(-(m as i128))
                } else {
                    Some(m as i128)
                }
            },
            _ => self.int_value(),
        }
    }

    /// Whether the variant of this value is ordered.
    pub fn has_order(&self) -> (r: bool)
        ensures
            r == has_order(*self),
    {
        match self {
            Data::REAL32(_) | Data::REAL64(_) => true,
            _ => self.int_value().is_some(),
        }
    }

    /// The payload of a `BOOLEAN` value.
    pub open spec fn get_bool_spec(self) -> Result<bool, DataError> {
        match self {
            Data::BOOLEAN(x) => Ok(x),
            _ => Err(DataError::InvalidDataTypeAcess),
        }
    }

    /// This value with its `BOOLEAN` payload replaced; other variants are kept.
    pub open spec fn set_bool_spec(self, v: bool) -> Data {
        match self {
            Data::BOOLEAN(_) => Data::BOOLEAN(v),
            _ => self,
        }
    }

    /// Reads the payload; fails unless the value is `BOOLEAN`.
    pub fn try_get_bool(&self) -> (r: Result<bool, DataError>)
        ensures
            r == self.get_bool_spec(),
    {
        match self {
            Data::BOOLEAN(x) => Ok(*x),
            _ => Err(DataError::InvalidDataTypeAcess),
        }
    }

    /// Replaces the payload; fails, changing nothing, unless the value is `BOOLEAN`.
    pub fn try_set_bool(&mut self, new_val: bool) -> (r: Result<(), DataError>)
        ensures
            *final(self) == old(self).set_bool_spec(new_val),
            r == (if *old(self) is BOOLEAN {
                Ok(())
            } else {
                Err::<(), DataError>(DataError::InvalidDataTypeAcess)
            }),
    {
        match self {
            Data::BOOLEAN(inner) => {
                *inner = new_val;
                Ok(())
            },
            _ => Err(DataError::InvalidDataTypeAcess),
        }
    }

    /// The payload of a `UNSIGNED8` value.
    pub open spec fn get_u8_spec(self) -> Result<u8, DataError> {
        match self {
            Data::UNSIGNED8(x) => Ok(x),
            _ => Err(DataError::InvalidDataTypeAcess),
        }
    }

    /// This value with its `UNSIGNED8` payload replaced; other variants are kept.
    pub open spec fn set_u8_spec(self, v: u8) -> Data {
        match self {
            Data::UNSIGNED8(_) => Data::UNSIGNED8(v),
            _ => self,
        }
    }

    /// Reads the payload; fails unless the value is `UNSIGNED8`.
    pub fn try_get_u8(&self) -> (r: Result<u8, DataError>)
        ensures
            r == self.get_u8_spec(),
    {
        match self {
            Data::UNSIGNED8(x) => Ok(*x),
            _ => Err(DataError::InvalidDataTypeAcess),
        }
    }

    /// Replaces the payload; fails, changing nothing, unless the value is `UNSIGNED8`.
    pub fn try_set_u8(&mut self, new_val: u8) -> (r: Result<(), DataError>)
        ensures
            *final(self) == old(self).set_u8_spec(new_val),
            r == (if *old(self) is UNSIGNED8 {
                Ok(())
            } else {
                Err::<(), DataError>(DataError::InvalidDataTypeAcess)
            }),
    {
        match self {
            Data::UNSIGNED8(inner) => {
                *inner = new_val;
                Ok(())
            },
            _ => Err(DataError::InvalidDataTypeAcess),
        }
    }

    /// The payload of a `UNSIGNED16` value.
    pub open spec fn get_u16_spec(self) -> Result<u16, DataError> {
        match self {
            Data::UNSIGNED16(x) => Ok(x),
            _ => Err(DataError::InvalidDataTypeAcess),
        }
    }

    /// This value with its `UNSIGNED16` payload replaced; other variants are kept.
    pub open spec fn set_u16_spec(self, v: u16) -> Data {
        match self {
            Data::UNSIGNED16(_) => Data::UNSIGNED16(v),
            _ => self,
        }
    }

    /// Reads the payload; fails unless the value is `UNSIGNED16`.
    pub fn try_get_u16(&self) -> (r: Result<u16, DataError>)
        ensures
            r == self.get_u16_spec(),
    {
        match self {
            Data::UNSIGNED16(x) => Ok(*x),
            _ => Err(DataError::InvalidDataTypeAcess),
        }
    }

    /// Replaces the payload; fails, changing nothing, unless the value is `UNSIGNED16`.
    pub fn try_set_u16(&mut self, new_val: u16) -> (r: Result<(), DataError>)
        ensures
            *final(self) == old(self).set_u16_spec(new_val),
            r == (if *old(self) is UNSIGNED16 {
                Ok(())
            } else {
                Err::<(), DataError>(DataError::InvalidDataTypeAcess)
            }),
    {
        match self {
            Data::UNSIGNED16(inner) => {
                *inner = new_val;
                Ok(())
            },
            _ => Err(DataError::InvalidDataTypeAcess),
        }
    }

    /// The payload of a `UNSIGNED24` value.
    pub open spec fn get_u24_spec(self) -> Result<i32, DataError> {
        match self {
            Data::UNSIGNED24(x) => Ok(x),
            _ => Err(DataError::InvalidDataTypeAcess),
        }
    }

    /// This value with its `UNSIGNED24` payload replaced; other variants are kept.
    pub open spec fn set_u24_spec(self, v: i32) -> Data {
        match self {
            Data::UNSIGNED24(_) => Data::UNSIGNED24(v),
            _ => self,
        }
    }

    /// Reads the payload; fails unless the value is `UNSIGNED24`.
    pub fn try_get_u24(&self) -> (r: Result<i32, DataError>)
        ensures
            r == self.get_u24_spec(),
    {
        match self {
            Data::UNSIGNED24(x) => Ok(*x),
            _ => Err(DataError::InvalidDataTypeAcess),
        }
    }

    /// Replaces the payload; fails, changing nothing, unless the value is `UNSIGNED24`.
    pub fn try_set_u24(&mut self, new_val: i32) -> (r: Result<(), DataError>)
        ensures
            *final(self) == old(self).set_u24_spec(new_val),
            r == (if *old(self) is UNSIGNED24 {
                Ok(())
            } else {
                Err::<(), DataError>(DataError::InvalidDataTypeAcess)
            }),
    {
        match self {
            Data::UNSIGNED24(inner) => {
                *inner = new_val;
                Ok(())
            },
            _ => Err(DataError::InvalidDataTypeAcess),
        }
    }

    /// The payload of a `UNSIGNED32` value.
    pub open spec fn get_u32_spec(self) -> Result<u32, DataError> {
        match self {
            Data::UNSIGNED32(x) => Ok(x),
            _ => Err(DataError::InvalidDataTypeAcess),
        }
    }

    /// This value with its `UNSIGNED32` payload replaced; other variants are kept.
    pub open spec fn set_u32_spec(self, v: u32) -> Data {
        match self {
            Data::UNSIGNED32(_) => Data::UNSIGNED32(v),
            _ => self,
        }
    }

    /// Reads the payload; fails unless the value is `UNSIGNED32`.
    pub fn try_get_u32(&self) -> (r: Result<u32, DataError>)
        ensures
            r == self.get_u32_spec(),
    {
        match self {
            Data::UNSIGNED32(x) => Ok(*x),
            _ => Err(DataError::InvalidDataTypeAcess),
        }
    }

    /// Replaces the payload; fails, changing nothing, unless the value is `UNSIGNED32`.
    pub fn try_set_u32(&mut self, new_val: u32) -> (r: Result<(), DataError>)
        ensures
            *final(self) == old(self).set_u32_spec(new_val),
            r == (if *old(self) is UNSIGNED32 {
                Ok(())
            } else {
                Err::<(), DataError>(DataError::InvalidDataTypeAcess)
            }),
    {
        match self {
            Data::UNSIGNED32(inner) => {
                *inner = new_val;
                Ok(())
            },
            _ => Err(DataError::InvalidDataTypeAcess),
        }
    }

    /// The payload of a `UNSIGNED40` value.
    pub open spec fn get_u40_spec(self) -> Result<u64, DataError> {
        match self {
            Data::UNSIGNED40(x) => Ok(x),
            _ => Err(DataError::InvalidDataTypeAcess),
        }
    }

    /// This value with its `UNSIGNED40` payload replaced; other variants are kept.
    pub open spec fn set_u40_spec(self, v: u64) -> Data {
        match self {
            Data::UNSIGNED40(_) => Data::UNSIGNED40(v),
            _ => self,
        }
    }

    /// Reads the payload; fails unless the value is `UNSIGNED40`.
    pub fn try_get_u40(&self) -> (r: Result<u64, DataError>)
        ensures
            r == self.get_u40_spec(),
    {
        match self {
            Data::UNSIGNED40(x) => Ok(*x),
            _ => Err(DataError::InvalidDataTypeAcess),
        }
    }

    /// Replaces the payload; fails, changing nothing, unless the value is `UNSIGNED40`.
    pub fn try_set_u40(&mut self, new_val: u64) -> (r: Result<(), DataError>)
        ensures
            *final(self) == old(self).set_u40_spec(new_val),
            r == (if *old(self) is UNSIGNED40 {
                Ok(())
            } else {
                Err::<(), DataError>(DataError::InvalidDataTypeAcess)
            }),
    {
        match self {
            Data::UNSIGNED40(inner) => {
                *inner = new_val;
                Ok(())
            },
            _ => Err(DataError::InvalidDataTypeAcess),
        }
    }

    /// The payload of a `UNSIGNED48` value.
    pub open spec fn get_u48_spec(self) -> Result<u64, DataError> {
        match self {
            Data::UNSIGNED48(x) => Ok(x),
            _ => Err(DataError::InvalidDataTypeAcess),
        }
    }

    /// This value with its `UNSIGNED48` payload replaced; other variants are kept.
    pub open spec fn set_u48_spec(self, v: u64) -> Data {
        match self {
            Data::UNSIGNED48(_) => Data::UNSIGNED48(v),
            _ => self,
        }
    }

    /// Reads the payload; fails unless the value is `UNSIGNED48`.
    pub fn try_get_u48(&self) -> (r: Result<u64, DataError>)
        ensures
            r == self.get_u48_spec(),
    {
        match self {
            Data::UNSIGNED48(x) => Ok(*x),
            _ => Err(DataError::InvalidDataTypeAcess),
        }
    }

    /// Replaces the payload; fails, changing nothing, unless the value is `UNSIGNED48`.
    pub fn try_set_u48(&mut self, new_val: u64) -> (r: Result<(), DataError>)
        ensures
            *final(self) == old(self).set_u48_spec(new_val),
            r == (if *old(self) is UNSIGNED48 {
                Ok(())
            } else {
                Err::<(), DataError>(DataError::InvalidDataTypeAcess)
            }),
    {
        match self {
            Data::UNSIGNED48(inner) => {
                *inner = new_val;
                Ok(())
            },
            _ => Err(DataError::InvalidDataTypeAcess),
        }
    }

    /// The payload of a `UNSIGNED56` value.
    pub open spec fn get_u56_spec(self) -> Result<u64, DataError> {
        match self {
            Data::UNSIGNED56(x) => Ok(x),
            _ => Err(DataError::InvalidDataTypeAcess),
        }
    }

    /// This value with its `UNSIGNED56` payload replaced; other variants are kept.
    pub open spec fn set_u56_spec(self, v: u64) -> Data {
        match self {
            Data::UNSIGNED56(_) => Data::UNSIGNED56(v),
            _ => self,
        }
    }

    /// Reads the payload; fails unless the value is `UNSIGNED56`.
    pub fn try_get_u56(&self) -> (r: Result<u64, DataError>)
        ensures
            r == self.get_u56_spec(),
    {
        match self {
            Data::UNSIGNED56(x) => Ok(*x),
            _ => Err(DataError::InvalidDataTypeAcess),
        }
    }

    /// Replaces the payload; fails, changing nothing, unless the value is `UNSIGNED56`.
    pub fn try_set_u56(&mut self, new_val: u64) -> (r: Result<(), DataError>)
        ensures
            *final(self) == old(self).set_u56_spec(new_val),
            r == (if *old(self) is UNSIGNED56 {
                Ok(())
            } else {
                Err::<(), DataError>(DataError::InvalidDataTypeAcess)
            }),
    {
        match self {
            Data::UNSIGNED56(inner) => {
                *inner = new_val;
                Ok(())
            },
            _ => Err(DataError::InvalidDataTypeAcess),
        }
    }

    /// The payload of a `UNSIGNED64` value.
    pub open spec fn get_u64_spec(self) -> Result<u64, DataError> {
        match self {
            Data::UNSIGNED64(x) => Ok(x),
            _ => Err(DataError::InvalidDataTypeAcess),
        }
    }

    /// This value with its `UNSIGNED64` payload replaced; other variants are kept.
    pub open spec fn set_u64_spec(self, v: u64) -> Data {
        match self {
            Data::UNSIGNED64(_) => Data::UNSIGNED64(v),
            _ => self,
        }
    }

    /// Reads the payload; fails unless the value is `UNSIGNED64`.
    pub fn try_get_u64(&self) -> (r: Result<u64, DataError>)
        ensures
            r == self.get_u64_spec(),
    {
        match self {
            Data::UNSIGNED64(x) => Ok(*x),
            _ => Err(DataError::InvalidDataTypeAcess),
        }
    }

    /// Replaces the payload; fails, changing nothing, unless the value is `UNSIGNED64`.
    pub fn try_set_u64(&mut self, new_val: u64) -> (r: Result<(), DataError>)
        ensures
            *final(self) == old(self).set_u64_spec(new_val),
            r == (if *old(self) is UNSIGNED64 {
                Ok(())
            } else {
                Err::<(), DataError>(DataError::InvalidDataTypeAcess)
            }),
    {
        match self {
            Data::UNSIGNED64(inner) => {
                *inner = new_val;
                Ok(())
            },
            _ => Err(DataError::InvalidDataTypeAcess),
        }
    }

    /// The payload of a `INTEGER8` value.
    pub open spec fn get_i8_spec(self) -> Result<i8, DataError> {
        match self {
            Data::INTEGER8(x) => Ok(x),
            _ => Err(DataError::InvalidDataTypeAcess),
        }
    }

    /// This value with its `INTEGER8` payload replaced; other variants are kept.
    pub open spec fn set_i8_spec(self, v: i8) -> Data {
        match self {
            Data::INTEGER8(_) => Data::INTEGER8(v),
            _ => self,
        }
    }

    /// Reads the payload; fails unless the value is `INTEGER8`.
    pub fn try_get_i8(&self) -> (r: Result<i8, DataError>)
        ensures
            r == self.get_i8_spec(),
    {
        match self {
            Data::INTEGER8(x) => Ok(*x),
            _ => Err(DataError::InvalidDataTypeAcess),
        }
    }

    /// Replaces the payload; fails, changing nothing, unless the value is `INTEGER8`.
    pub fn try_set_i8(&mut self, new_val: i8) -> (r: Result<(), DataError>)
        ensures
            *final(self) == old(self).set_i8_spec(new_val),
            r == (if *old(self) is INTEGER8 {
                Ok(())
            } else {
                Err::<(), DataError>(DataError::InvalidDataTypeAcess)
            }),
    {
        match self {
            Data::INTEGER8(inner) => {
                *inner = new_val;
                Ok(())
            },
            _ => Err(DataError::InvalidDataTypeAcess),
        }
    }

    /// The payload of a `INTEGER16` value.
    pub open spec fn get_i16_spec(self) -> Result<i16, DataError> {
        match self {
            Data::INTEGER16(x) => Ok(x),
            _ => Err(DataError::InvalidDataTypeAcess),
        }
    }

    /// This value with its `INTEGER16` payload replaced; other variants are kept.
    pub open spec fn set_i16_spec(self, v: i16) -> Data {
        match self {
            Data::INTEGER16(_) => Data::INTEGER16(v),
            _ => self,
        }
    }

    /// Reads the payload; fails unless the value is `INTEGER16`.
    pub fn try_get_i16(&self) -> (r: Result<i16, DataError>)
        ensures
            r == self.get_i16_spec(),
    {
        match self {
            Data::INTEGER16(x) => Ok(*x),
            _ => Err(DataError::InvalidDataTypeAcess),
        }
    }

    /// Replaces the payload; fails, changing nothing, unless the value is `INTEGER16`.
    pub fn try_set_i16(&mut self, new_val: i16) -> (r: Result<(), DataError>)
        ensures
            *final(self) == old(self).set_i16_spec(new_val),
            r == (if *old(self) is INTEGER16 {
                Ok(())
            } else {
                Err::<(), DataError>(DataError::InvalidDataTypeAcess)
            }),
    {
        match self {
            Data::INTEGER16(inner) => {
                *inner = new_val;
                Ok(())
            },
            _ => Err(DataError::InvalidDataTypeAcess),
        }
    }

    /// The payload of a `INTEGER24` value.
    pub open spec fn get_i24_spec(self) -> Result<i32, DataError> {
        match self {
            Data::INTEGER24(x) => Ok(x),
            _ => Err(DataError::InvalidDataTypeAcess),
        }
    }

    /// This value with its `INTEGER24` payload replaced; other variants are kept.
    pub open spec fn set_i24_spec(self, v: i32) -> Data {
        match self {
            Data::INTEGER24(_) => Data::INTEGER24(v),
            _ => self,
        }
    }

    /// Reads the payload; fails unless the value is `INTEGER24`.
    pub fn try_get_i24(&self) -> (r: Result<i32, DataError>)
        ensures
            r == self.get_i24_spec(),
    {
        match self {
            Data::INTEGER24(x) => Ok(*x),
            _ => Err(DataError::InvalidDataTypeAcess),
        }
    }

    /// Replaces the payload; fails, changing nothing, unless the value is `INTEGER24`.
    pub fn try_set_i24(&mut self, new_val: i32) -> (r: Result<(), DataError>)
        ensures
            *final(self) == old(self).set_i24_spec(new_val),
            r == (if *old(self) is INTEGER24 {
                Ok(())
            } else {
                Err::<(), DataError>(DataError::InvalidDataTypeAcess)
            }),
    {
        match self {
            Data::INTEGER24(inner) => {
                *inner = new_val;
                Ok(())
            },
            _ => Err(DataError::InvalidDataTypeAcess),
        }
    }

    /// The payload of a `INTEGER32` value.
    pub open spec fn get_i32_spec(self) -> Result<i32, DataError> {
        match self {
            Data::INTEGER32(x) => Ok(x),
            _ => Err(DataError::InvalidDataTypeAcess),
        }
    }

    /// This value with its `INTEGER32` payload replaced; other variants are kept.
    pub open spec fn set_i32_spec(self, v: i32) -> Data {
        match self {
            Data::INTEGER32(_) => Data::INTEGER32(v),
            _ => self,
        }
    }

    /// Reads the payload; fails unless the value is `INTEGER32`.
    pub fn try_get_i32(&self) -> (r: Result<i32, DataError>)
        ensures
            r == self.get_i32_spec(),
    {
        match self {
            Data::INTEGER32(x) => Ok(*x),
            _ => Err(DataError::InvalidDataTypeAcess),
        }
    }

    /// Replaces the payload; fails, changing nothing, unless the value is `INTEGER32`.
    pub fn try_set_i32(&mut self, new_val: i32) -> (r: Result<(), DataError>)
        ensures
            *final(self) == old(self).set_i32_spec(new_val),
            r == (if *old(self) is INTEGER32 {
                Ok(())
            } else {
                Err::<(), DataError>(DataError::InvalidDataTypeAcess)
            }),
    {
        match self {
            Data::INTEGER32(inner) => {
                *inner = new_val;
                Ok(())
            },
            _ => Err(DataError::InvalidDataTypeAcess),
        }
    }

    /// The payload of a `INTEGER40` value.
    pub open spec fn get_i40_spec(self) -> Result<i64, DataError> {
        match self {
            Data::INTEGER40(x) => Ok(x),
            _ => Err(DataError::InvalidDataTypeAcess),
        }
    }

    /// This value with its `INTEGER40` payload replaced; other variants are kept.
    pub open spec fn set_i40_spec(self, v: i64) -> Data {
        match self {
            Data::INTEGER40(_) => Data::INTEGER40(v),
            _ => self,
        }
    }

    /// Reads the payload; fails unless the value is `INTEGER40`.
    pub fn try_get_i40(&self) -> (r: Result<i64, DataError>)
        ensures
            r == self.get_i40_spec(),
    {
        match self {
            Data::INTEGER40(x) => Ok(*x),
            _ => Err(DataError::InvalidDataTypeAcess),
        }
    }

    /// Replaces the payload; fails, changing nothing, unless the value is `INTEGER40`.
    pub fn try_set_i40(&mut self, new_val: i64) -> (r: Result<(), DataError>)
        ensures
            *final(self) == old(self).set_i40_spec(new_val),
            r == (if *old(self) is INTEGER40 {
                Ok(())
            } else {
                Err::<(), DataError>(DataError::InvalidDataTypeAcess)
            }),
    {
        match self {
            Data::INTEGER40(inner) => {
                *inner = new_val;
                Ok(())
            },
            _ => Err(DataError::InvalidDataTypeAcess),
        }
    }

    /// The payload of a `INTEGER48` value.
    pub open spec fn get_i48_spec(self) -> Result<i64, DataError> {
        match self {
            Data::INTEGER48(x) => Ok(x),
            _ => Err(DataError::InvalidDataTypeAcess),
        }
    }

    /// This value with its `INTEGER48` payload replaced; other variants are kept.
    pub open spec fn set_i48_spec(self, v: i64) -> Data {
        match self {
            Data::INTEGER48(_) => Data::INTEGER48(v),
            _ => self,
        }
    }

    /// Reads the payload; fails unless the value is `INTEGER48`.
    pub fn try_get_i48(&self) -> (r: Result<i64, DataError>)
        ensures
            r == self.get_i48_spec(),
    {
        match self {
            Data::INTEGER48(x) => Ok(*x),
            _ => Err(DataError::InvalidDataTypeAcess),
        }
    }

    /// Replaces the payload; fails, changing nothing, unless the value is `INTEGER48`.
    pub fn try_set_i48(&mut self, new_val: i64) -> (r: Result<(), DataError>)
        ensures
            *final(self) == old(self).set_i48_spec(new_val),
            r == (if *old(self) is INTEGER48 {
                Ok(())
            } else {
                Err::<(), DataError>(DataError::InvalidDataTypeAcess)
            }),
    {
        match self {
            Data::INTEGER48(inner) => {
                *inner = new_val;
                Ok(())
            },
            _ => Err(DataError::InvalidDataTypeAcess),
        }
    }

    /// The payload of a `INTEGER56` value.
    pub open spec fn get_i56_spec(self) -> Result<i64, DataError> {
        match self {
            Data::INTEGER56(x) => Ok(x),
            _ => Err(DataError::InvalidDataTypeAcess),
        }
    }

    /// This value with its `INTEGER56` payload replaced; other variants are kept.
    pub open spec fn set_i56_spec(self, v: i64) -> Data {
        match self {
            Data::INTEGER56(_) => Data::INTEGER56(v),
            _ => self,
        }
    }

    /// Reads the payload; fails unless the value is `INTEGER56`.
    pub fn try_get_i56(&self) -> (r: Result<i64, DataError>)
        ensures
            r == self.get_i56_spec(),
    {
        match self {
            Data::INTEGER56(x) => Ok(*x),
            _ => Err(DataError::InvalidDataTypeAcess),
        }
    }

    /// Replaces the payload; fails, changing nothing, unless the value is `INTEGER56`.
    pub fn try_set_i56(&mut self, new_val: i64) -> (r: Result<(), DataError>)
        ensures
            *final(self) == old(self).set_i56_spec(new_val),
            r == (if *old(self) is INTEGER56 {
                Ok(())
            } else {
                Err::<(), DataError>(DataError::InvalidDataTypeAcess)
            }),
    {
        match self {
            Data::INTEGER56(inner) => {
                *inner = new_val;
                Ok(())
            },
            _ => Err(DataError::InvalidDataTypeAcess),
        }
    }

    /// The payload of a `INTEGER64` value.
    pub open spec fn get_i64_spec(self) -> Result<i64, DataError> {
        match self {
            Data::INTEGER64(x) => Ok(x),
            _ => Err(DataError::InvalidDataTypeAcess),
        }
    }

    /// This value with its `INTEGER64` payload replaced; other variants are kept.
    pub open spec fn set_i64_spec(self, v: i64) -> Data {
        match self {
            Data::INTEGER64(_) => Data::INTEGER64(v),
            _ => self,
        }
    }

    /// Reads the payload; fails unless the value is `INTEGER64`.
    pub fn try_get_i64(&self) -> (r: Result<i64, DataError>)
        ensures
            r == self.get_i64_spec(),
    {
        match self {
            Data::INTEGER64(x) => Ok(*x),
            _ => Err(DataError::InvalidDataTypeAcess),
        }
    }

    /// Replaces the payload; fails, changing nothing, unless the value is `INTEGER64`.
    pub fn try_set_i64(&mut self, new_val: i64) -> (r: Result<(), DataError>)
        ensures
            *final(self) == old(self).set_i64_spec(new_val),
            r == (if *old(self) is INTEGER64 {
                Ok(())
            } else {
                Err::<(), DataError>(DataError::InvalidDataTypeAcess)
            }),
    {
        match self {
            Data::INTEGER64(inner) => {
                *inner = new_val;
                Ok(())
            },
            _ => Err(DataError::InvalidDataTypeAcess),
        }
    }

    /// The payload of a `REAL32` value.
    pub open spec fn get_real32_bits_spec(self) -> Result<u32, DataError> {
        match self {
            Data::REAL32(x) => Ok(x),
            _ => Err(DataError::InvalidDataTypeAcess),
        }
    }

    /// This value with its `REAL32` payload replaced; other variants are kept.
    pub open spec fn set_real32_bits_spec(self, v: u32) -> Data {
        match self {
            Data::REAL32(_) => Data::REAL32(v),
            _ => self,
        }
    }

    /// Reads the payload; fails unless the value is `REAL32`.
    pub fn try_get_real32_bits(&self) -> (r: Result<u32, DataError>)
        ensures
            r == self.get_real32_bits_spec(),
    {
        match self {
            Data::REAL32(x) => Ok(*x),
            _ => Err(DataError::InvalidDataTypeAcess),
        }
    }

    /// Replaces the payload; fails, changing nothing, unless the value is `REAL32`.
    pub fn try_set_real32_bits(&mut self, new_val: u32) -> (r: Result<(), DataError>)
        ensures
            *final(self) == old(self).set_real32_bits_spec(new_val),
            r == (if *old(self) is REAL32 {
                Ok(())
            } else {
                Err::<(), DataError>(DataError::InvalidDataTypeAcess)
            }),
    {
        match self {
            Data::REAL32(inner) => {
                *inner = new_val;
                Ok(())
            },
            _ => Err(DataError::InvalidDataTypeAcess),
        }
    }

    /// The payload of a `REAL64` value.
    pub open spec fn get_real64_bits_spec(self) -> Result<u64, DataError> {
        match self {
            Data::REAL64(x) => Ok(x),
            _ => Err(DataError::InvalidDataTypeAcess),
        }
    }

    /// This value with its `REAL64` payload replaced; other variants are kept.
    pub open spec fn set_real64_bits_spec(self, v: u64) -> Data {
        match self {
            Data::REAL64(_) => Data::REAL64(v),
            _ => self,
        }
    }

    /// Reads the payload; fails unless the value is `REAL64`.
    pub fn try_get_real64_bits(&self) -> (r: Result<u64, DataError>)
        ensures
            r == self.get_real64_bits_spec(),
    {
        match self {
            Data::REAL64(x) => Ok(*x),
            _ => Err(DataError::InvalidDataTypeAcess),
        }
    }

    /// Replaces the payload; fails, changing nothing, unless the value is `REAL64`.
    pub fn try_set_real64_bits(&mut self, new_val: u64) -> (r: Result<(), DataError>)
        ensures
            *final(self) == old(self).set_real64_bits_spec(new_val),
            r == (if *old(self) is REAL64 {
                Ok(())
            } else {
                Err::<(), DataError>(DataError::InvalidDataTypeAcess)
            }),
    {
        match self {
            Data::REAL64(inner) => {
                *inner = new_val;
                Ok(())
            },
            _ => Err(DataError::InvalidDataTypeAcess),
        }
    }

    /// The bytes of the region in `arena`; fails unless the value is `DOMAIN`.
    pub fn try_get_domain<'b, const N: usize>(&self, arena: &'b SliceBuffer<N>) -> (r: Result<&'b [u8], DataError>)
        requires
            *self is DOMAIN ==> self->DOMAIN_0.end() <= N,
        ensures
            match *self {
                Data::DOMAIN(s) => r is Ok && r->Ok_0@ == arena.contents().subrange(s.start as int, s.end()),
                _ => r == Err::<&[u8], DataError>(DataError::InvalidDataTypeAcess),
            },
    {
        match self {
            Data::DOMAIN(s) => Ok(arena.get_slice(*s)),
            _ => Err(DataError::InvalidDataTypeAcess),
        }
    }

    /// Writes `data` into the value's region of `arena` from offset `start`
    /// within it on. Fails unless the value is `DOMAIN`, `start` is below the
    /// region's length and the data fits; a failed call changes nothing.
    pub fn try_set_domain<const N: usize>(&self, arena: &mut SliceBuffer<N>, start: usize, data: &[u8]) -> (r: Result<(), DataError>)
        requires
            old(arena).wf(),
            *self is DOMAIN ==> self->DOMAIN_0.end() <= N,
        ensures
            final(arena).wf(),
            final(arena).cursor() == old(arena).cursor(),
            match *self {
                Data::DOMAIN(s) => match region_write(old(arena).contents(), s, start as int, data@) {
                    Ok(c) => r is Ok && final(arena).contents() == c,
                    Err(e) => r == Err::<(), DataError>(e) && final(arena).contents() == old(arena).contents(),
                },
                _ => r == Err::<(), DataError>(DataError::InvalidDataTypeAcess) && final(arena).contents()
                    == old(arena).contents(),
            },
    {
        match self {
            Data::DOMAIN(s) => arena.try_set_region(*s, start, data),
            _ => Err(DataError::InvalidDataTypeAcess),
        }
    }

    /// The bytes of the region in `arena`; fails unless the value is `OCTETSTRING`.
    pub fn try_get_octetstring<'b, const N: usize>(&self, arena: &'b SliceBuffer<N>) -> (r: Result<&'b [u8], DataError>)
        requires
            *self is OCTETSTRING ==> self->OCTETSTRING_0.end() <= N,
        ensures
            match *self {
                Data::OCTETSTRING(s) => r is Ok && r->Ok_0@ == arena.contents().subrange(s.start as int, s.end()),
                _ => r == Err::<&[u8], DataError>(DataError::InvalidDataTypeAcess),
            },
    {
        match self {
            Data::OCTETSTRING(s) => Ok(arena.get_slice(*s)),
            _ => Err(DataError::InvalidDataTypeAcess),
        }
    }

    /// Writes `data` into the value's region of `arena` from offset `start`
    /// within it on. Fails unless the value is `OCTETSTRING`, `start` is below the
    /// region's length and the data fits; a failed call changes nothing.
    pub fn try_set_octetstring<const N: usize>(&self, arena: &mut SliceBuffer<N>, start: usize, data: &[u8]) -> (r: Result<(), DataError>)
        requires
            old(arena).wf(),
            *self is OCTETSTRING ==> self->OCTETSTRING_0.end() <= N,
        ensures
            final(arena).wf(),
            final(arena).cursor() == old(arena).cursor(),
            match *self {
                Data::OCTETSTRING(s) => match region_write(old(arena).contents(), s, start as int, data@) {
                    Ok(c) => r is Ok && final(arena).contents() == c,
                    Err(e) => r == Err::<(), DataError>(e) && final(arena).contents() == old(arena).contents(),
                },
                _ => r == Err::<(), DataError>(DataError::InvalidDataTypeAcess) && final(arena).contents()
                    == old(arena).contents(),
            },
    {
        match self {
            Data::OCTETSTRING(s) => arena.try_set_region(*s, start, data),
            _ => Err(DataError::InvalidDataTypeAcess),
        }
    }

    /// The bytes of the region in `arena`; fails unless the value is `VISIBLESTRING`.
    pub fn try_get_visiblestring<'b, const N: usize>(&self, arena: &'b SliceBuffer<N>) -> (r: Result<&'b [u8], DataError>)
        requires
            *self is VISIBLESTRING ==> self->VISIBLESTRING_0.end() <= N,
        ensures
            match *self {
                Data::VISIBLESTRING(s) => r is Ok && r->Ok_0@ == arena.contents().subrange(s.start as int, s.end()),
                _ => r == Err::<&[u8], DataError>(DataError::InvalidDataTypeAcess),
            },
    {
        match self {
            Data::VISIBLESTRING(s) => Ok(arena.get_slice(*s)),
            _ => Err(DataError::InvalidDataTypeAcess),
        }
    }

    /// Writes `data` into the value's region of `arena` from offset `start`
    /// within it on. Fails unless the value is `VISIBLESTRING`, `start` is below the
    /// region's length and the data fits; a failed call changes nothing.
    pub fn try_set_visiblestring<const N: usize>(&self, arena: &mut SliceBuffer<N>, start: usize, data: &[u8]) -> (r: Result<(), DataError>)
        requires
            old(arena).wf(),
            *self is VISIBLESTRING ==> self->VISIBLESTRING_0.end() <= N,
        ensures
            final(arena).wf(),
            final(arena).cursor() == old(arena).cursor(),
            match *self {
                Data::VISIBLESTRING(s) => match region_write(old(arena).contents(), s, start as int, data@) {
                    Ok(c) => r is Ok && final(arena).contents() == c,
                    Err(e) => r == Err::<(), DataError>(e) && final(arena).contents() == old(arena).contents(),
                },
                _ => r == Err::<(), DataError>(DataError::InvalidDataTypeAcess) && final(arena).contents()
                    == old(arena).contents(),
            },
    {
        match self {
            Data::VISIBLESTRING(s) => arena.try_set_region(*s, start, data),
            _ => Err(DataError::InvalidDataTypeAcess),
        }
    }

}

/// For every fixed-width variant, a value read back after a successful set
/// is the value set; on any other variant both the set and the read fail and
/// the set leaves the value unchanged.
pub proof fn lemma_scalar_round_trip(d: Data)
    ensures
        forall|x: bool|
            #[trigger] d.set_bool_spec(x).get_bool_spec() == (if d is BOOLEAN {
                Ok(x)
            } else {
                Err::<bool, DataError>(DataError::InvalidDataTypeAcess)
            }) && (!(d is BOOLEAN) ==> d.set_bool_spec(x) == d),
        forall|x: u8|
            #[trigger] d.set_u8_spec(x).get_u8_spec() == (if d is UNSIGNED8 {
                Ok(x)
            } else {
                Err::<u8, DataError>(DataError::InvalidDataTypeAcess)
            }) && (!(d is UNSIGNED8) ==> d.set_u8_spec(x) == d),
        forall|x: u16|
            #[trigger] d.set_u16_spec(x).get_u16_spec() == (if d is UNSIGNED16 {
                Ok(x)
            } else {
                Err::<u16, DataError>(DataError::InvalidDataTypeAcess)
            }) && (!(d is UNSIGNED16) ==> d.set_u16_spec(x) == d),
        forall|x: i32|
            #[trigger] d.set_u24_spec(x).get_u24_spec() == (if d is UNSIGNED24 {
                Ok(x)
            } else {
                Err::<i32, DataError>(DataError::InvalidDataTypeAcess)
            }) && (!(d is UNSIGNED24) ==> d.set_u24_spec(x) == d),
        forall|x: u32|
            #[trigger] d.set_u32_spec(x).get_u32_spec() == (if d is UNSIGNED32 {
                Ok(x)
            } else {
                Err::<u32, DataError>(DataError::InvalidDataTypeAcess)
            }) && (!(d is UNSIGNED32) ==> d.set_u32_spec(x) == d),
        forall|x: u64|
            #[trigger] d.set_u40_spec(x).get_u40_spec() == (if d is UNSIGNED40 {
                Ok(x)
            } else {
                Err::<u64, DataError>(DataError::InvalidDataTypeAcess)
            }) && (!(d is UNSIGNED40) ==> d.set_u40_spec(x) == d),
        forall|x: u64|
            #[trigger] d.set_u48_spec(x).get_u48_spec() == (if d is UNSIGNED48 {
                Ok(x)
            } else {
                Err::<u64, DataError>(DataError::InvalidDataTypeAcess)
            }) && (!(d is UNSIGNED48) ==> d.set_u48_spec(x) == d),
        forall|x: u64|
            #[trigger] d.set_u56_spec(x).get_u56_spec() == (if d is UNSIGNED56 {
                Ok(x)
            } else {
                Err::<u64, DataError>(DataError::InvalidDataTypeAcess)
            }) && (!(d is UNSIGNED56) ==> d.set_u56_spec(x) == d),
        forall|x: u64|
            #[trigger] d.set_u64_spec(x).get_u64_spec() == (if d is UNSIGNED64 {
                Ok(x)
            } else {
                Err::<u64, DataError>(DataError::InvalidDataTypeAcess)
            }) && (!(d is UNSIGNED64) ==> d.set_u64_spec(x) == d),
        forall|x: i8|
            #[trigger] d.set_i8_spec(x).get_i8_spec() == (if d is INTEGER8 {
                Ok(x)
            } else {
                Err::<i8, DataError>(DataError::InvalidDataTypeAcess)
            }) && (!(d is INTEGER8) ==> d.set_i8_spec(x) == d),
        forall|x: i16|
            #[trigger] d.set_i16_spec(x).get_i16_spec() == (if d is INTEGER16 {
                Ok(x)
            } else {
                Err::<i16, DataError>(DataError::InvalidDataTypeAcess)
            }) && (!(d is INTEGER16) ==> d.set_i16_spec(x) == d),
        forall|x: i32|
            #[trigger] d.set_i24_spec(x).get_i24_spec() == (if d is INTEGER24 {
                Ok(x)
            } else {
                Err::<i32, DataError>(DataError::InvalidDataTypeAcess)
            }) && (!(d is INTEGER24) ==> d.set_i24_spec(x) == d),
        forall|x: i32|
            #[trigger] d.set_i32_spec(x).get_i32_spec() == (if d is INTEGER32 {
                Ok(x)
            } else {
                Err::<i32, DataError>(DataError::InvalidDataTypeAcess)
            }) && (!(d is INTEGER32) ==> d.set_i32_spec(x) == d),
        forall|x: i64|
            #[trigger] d.set_i40_spec(x).get_i40_spec() == (if d is INTEGER40 {
                Ok(x)
            } else {
                Err::<i64, DataError>(DataError::InvalidDataTypeAcess)
            }) && (!(d is INTEGER40) ==> d.set_i40_spec(x) == d),
        forall|x: i64|
            #[trigger] d.set_i48_spec(x).get_i48_spec() == (if d is INTEGER48 {
                Ok(x)
            } else {
                Err::<i64, DataError>(DataError::InvalidDataTypeAcess)
            }) && (!(d is INTEGER48) ==> d.set_i48_spec(x) == d),
        forall|x: i64|
            #[trigger] d.set_i56_spec(x).get_i56_spec() == (if d is INTEGER56 {
                Ok(x)
            } else {
                Err::<i64, DataError>(DataError::InvalidDataTypeAcess)
            }) && (!(d is INTEGER56) ==> d.set_i56_spec(x) == d),
        forall|x: i64|
            #[trigger] d.set_i64_spec(x).get_i64_spec() == (if d is INTEGER64 {
                Ok(x)
            } else {
                Err::<i64, DataError>(DataError::InvalidDataTypeAcess)
            }) && (!(d is INTEGER64) ==> d.set_i64_spec(x) == d),
        forall|x: u32|
            #[trigger] d.set_real32_bits_spec(x).get_real32_bits_spec() == (if d is REAL32 {
                Ok(x)
            } else {
                Err::<u32, DataError>(DataError::InvalidDataTypeAcess)
            }) && (!(d is REAL32) ==> d.set_real32_bits_spec(x) == d),
        forall|x: u64|
            #[trigger] d.set_real64_bits_spec(x).get_real64_bits_spec() == (if d is REAL64 {
                Ok(x)
            } else {
                Err::<u64, DataError>(DataError::InvalidDataTypeAcess)
            }) && (!(d is REAL64) ==> d.set_real64_bits_spec(x) == d),
{
}

/// A setter never changes the variant of a value.
pub proof fn lemma_set_keeps_type(d: Data)
    ensures
        forall|x: bool| #[trigger] type_of(d.set_bool_spec(x)) == type_of(d),
        forall|x: u8| #[trigger] type_of(d.set_u8_spec(x)) == type_of(d),
        forall|x: u16| #[trigger] type_of(d.set_u16_spec(x)) == type_of(d),
        forall|x: i32| #[trigger] type_of(d.set_u24_spec(x)) == type_of(d),
        forall|x: u32| #[trigger] type_of(d.set_u32_spec(x)) == type_of(d),
        forall|x: u64| #[trigger] type_of(d.set_u40_spec(x)) == type_of(d),
        forall|x: u64| #[trigger] type_of(d.set_u48_spec(x)) == type_of(d),
        forall|x: u64| #[trigger] type_of(d.set_u56_spec(x)) == type_of(d),
        forall|x: u64| #[trigger] type_of(d.set_u64_spec(x)) == type_of(d),
        forall|x: i8| #[trigger] type_of(d.set_i8_spec(x)) == type_of(d),
        forall|x: i16| #[trigger] type_of(d.set_i16_spec(x)) == type_of(d),
        forall|x: i32| #[trigger] type_of(d.set_i24_spec(x)) == type_of(d),
        forall|x: i32| #[trigger] type_of(d.set_i32_spec(x)) == type_of(d),
        forall|x: i64| #[trigger] type_of(d.set_i40_spec(x)) == type_of(d),
        forall|x: i64| #[trigger] type_of(d.set_i48_spec(x)) == type_of(d),
        forall|x: i64| #[trigger] type_of(d.set_i56_spec(x)) == type_of(d),
        forall|x: i64| #[trigger] type_of(d.set_i64_spec(x)) == type_of(d),
        forall|x: u32| #[trigger] type_of(d.set_real32_bits_spec(x)) == type_of(d),
        forall|x: u64| #[trigger] type_of(d.set_real64_bits_spec(x)) == type_of(d),
{
}

} // verus!
