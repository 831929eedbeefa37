use vstd::prelude::*;
use crate::data::{Data, DataType, has_order, order_key_of, type_of};

verus! {

/// The kind of a dictionary object.
#[derive(Debug, Clone, Copy, PartialEq, Eq, Structural)]
pub enum ObjectType {
    Variable,
    Array,
    Record,
}

/// Who may read or write an entry's current value.
#[derive(Debug, Clone, Copy, PartialEq, Eq, Structural)]
pub enum ObjectAccess {
    Constant,
    ReadOnly,
    WriteOnly,
    ReadWrite,
}

/// An inclusive pair of bounds.
#[derive(Debug, Clone)]
pub struct LimitCheck<T> {
    pub lower: T,
    pub upper: T,
}

impl<T> LimitCheck<T> {
    pub fn new(lower: T, upper: T) -> (r: Self)
        ensures
            r.lower == lower,
            r.upper == upper,
    {
        LimitCheck { lower, upper }
    }
}

/// Why an entry refused a read or a write.
#[derive(Debug, Clone, Copy, PartialEq, Eq, Structural)]
pub enum EntryError {
    ReadDenied,
    WriteDenied,
    TypeMismatch,
    OutOfLimits,
    NoValue,
}

/// One sub-index of an object: a value with its name, declared type, access
/// policy, optional bounds and optional default.
#[derive(Debug)]
pub struct ObjectEntry<'a> {
    pub name: &'a str,
    pub datatype: DataType,
    pub access: ObjectAccess,
    pub limit: Option<LimitCheck<Data>>,
    pub default: Option<Data>,
    pub value: Option<Data>,
}

/// `v` lies within the bounds `l`: both bounds have the variant of `v`, and
/// for an integer or float variant `lower <= v <= upper` by value (the two
/// float zeros are equal; a NaN value or bound is never within). Other
/// variants carry no order.
pub open spec fn within_limit(v: Data, l: LimitCheck<Data>) -> bool {
    &&& type_of(l.lower) == type_of(v)
    &&& type_of(l.upper) == type_of(v)
    &&& has_order(v) ==> match (order_key_of(l.lower), order_key_of(v), order_key_of(l.upper)) {
        (Some(lo), Some(x), Some(hi)) => lo <= x && x <= hi,
        _ => false,
    }
}

/// What a write of `v` to an entry with the given policy, type and bounds
/// yields: the refusal, if any, in the order policy, type, bounds.
pub open spec fn write_check(
    access: ObjectAccess,
    datatype: DataType,
    limit: Option<LimitCheck<Data>>,
    v: Data,
) -> Result<(), EntryError> {
    if access == ObjectAccess::Constant || access == ObjectAccess::ReadOnly {
        Err(EntryError::WriteDenied)
    } else if type_of(v) != datatype {
        Err(EntryError::TypeMismatch)
    } else if limit is Some && !within_limit(v, limit->Some_0) {
        Err(EntryError::OutOfLimits)
    } else {
        Ok(())
    }
}

fn check_limit(v: &Data, l: &LimitCheck<Data>) -> (r: bool)
    ensures
        r == within_limit(*v, *l),
{
    let t = v.data_type();
    if l.lower.data_type() != t || l.upper.data_type() != t {
        return false;
    }
    if !v.has_order() {
        return true;
    }
    match (l.lower.order_key(), v.order_key(), l.upper.order_key()) {
        (Some(lo), Some(x), Some(hi)) => lo <= x && x <= hi,
        _ => false,
    }
}

impl<'a> ObjectEntry<'a> {
    pub fn get_name(&self) -> (r: &str)
        ensures
            r@ == self.name@,
    {
        self.name
    }

    /// The current value, unless the entry is write-only or holds none.
    pub fn read(&self) -> (r: Result<&Data, EntryError>)
        ensures
            self.access == ObjectAccess::WriteOnly ==> r == Err::<&Data, EntryError>(EntryError::ReadDenied),
            self.access != ObjectAccess::WriteOnly && self.value is None ==> r == Err::<&Data, EntryError>(EntryError::NoValue),
            self.access != ObjectAccess::WriteOnly && self.value is Some ==> r is Ok && *r->Ok_0 == self.value->Some_0,
    {
        match self.access {
            ObjectAccess::WriteOnly => Err(EntryError::ReadDenied),
            _ => match &self.value {
                Some(v) => Ok(v),
                None => Err(EntryError::NoValue),
            },
        }
    }

    /// Stores `v` as the current value when the policy allows writes, `v` has
    /// the declared type and lies within the bounds; otherwise changes nothing.
    pub fn write(&mut self, v: Data) -> (r: Result<(), EntryError>)
        ensures
            r == write_check(old(self).access, old(self).datatype, old(self).limit, v),
            r is Ok ==> final(self).value == Some(v),
            r is Err ==> final(self).value == old(self).value,
            final(self).name == old(self).name,
            final(self).datatype == old(self).datatype,
            final(self).access == old(self).access,
            final(self).limit == old(self).limit,
            final(self).default == old(self).default,
    {
        match self.access {
            ObjectAccess::Constant | ObjectAccess::ReadOnly => {
                return Err(EntryError::WriteDenied);
            },
            _ => {},
        }
        if v.data_type() != self.datatype {
            return Err(EntryError::TypeMismatch);
        }
        match &self.limit {
            Some(l) => {
                if !check_limit(&v, l) {
                    return Err(EntryError::OutOfLimits);
                }
            },
            None => {},
        }
        self.value = Some(v);
        Ok(())
    }
}

impl<'a> Default for ObjectEntry<'a> {
    fn default() -> (r: Self)
        ensures
            r.name@ == "empty"@,
            r.datatype == DataType::NIL,
            r.access == ObjectAccess::Constant,
            r.limit is None,
            r.default is None,
            r.value is None,
    {
        ObjectEntry {
            name: "empty",
            datatype: DataType::NIL,
            access: ObjectAccess::Constant,
            limit: None,
            default: None,
            value: None,
        }
    }
}

/// What an object offers to a dictionary that holds objects of differing
/// capacities behind one interface: its entries by sub-index, its name, its
/// index and its kind.
pub trait Objectifiable: core::fmt::Debug {
    type Item;

    /// The entries, in sub-index order.
    spec fn entries(&self) -> Seq<Self::Item>;

    spec fn name_view(&self) -> Seq<char>;

    spec fn index_view(&self) -> u16;

    spec fn object_type_view(&self) -> ObjectType;

    /// The entry at `sub_index` for change; `None` past the last entry.
    fn get_entry_mut(&mut self, sub_index: u8) -> (r: Option<&mut Self::Item>)
        ensures
            (sub_index as int) < old(self).entries().len() ==> r is Some && *r->Some_0
                == old(self).entries()[sub_index as int] && final(self).entries() == old(
                self,
            ).entries().update(sub_index as int, *final(r->Some_0)),
            (sub_index as int) >= old(self).entries().len() ==> r is None && final(self).entries()
                == old(self).entries(),
            final(self).name_view() == old(self).name_view(),
            final(self).index_view() == old(self).index_view(),
            final(self).object_type_view() == old(self).object_type_view(),
    ;

    /// The entry at `sub_index`; `None` past the last entry.
    fn get_entry(&self, sub_index: u8) -> (r: Option<&Self::Item>)
        ensures
            (sub_index as int) < self.entries().len() ==> r is Some && *r->Some_0
                == self.entries()[sub_index as int],
            (sub_index as int) >= self.entries().len() ==> r is None,
    ;

    fn get_name(&self) -> (r: &str)
        ensures
            r@ == self.name_view(),
    ;

    fn get_index(&self) -> (r: u16)
        ensures
            r == self.index_view(),
    ;

    fn get_object_type(&self) -> (r: ObjectType)
        ensures
            r == self.object_type_view(),
    ;
}

/// A dictionary object: up to `N` entries, where an entry's position is its
/// sub-index, so sub-indices run from 0 without gaps.
#[derive(Debug)]
pub struct Object<'a, const N: usize> {
    name: &'a str,
    object_type: ObjectType,
    index: u16,
    entries: Vec<ObjectEntry<'a>>,
}

impl<'a, const N: usize> Objectifiable for Object<'a, N> {
    type Item = ObjectEntry<'a>;

    closed spec fn entries(&self) -> Seq<ObjectEntry<'a>> {
        self.entries@
    }

    closed spec fn name_view(&self) -> Seq<char> {
        self.name@
    }

    closed spec fn index_view(&self) -> u16 {
        self.index
    }

    closed spec fn object_type_view(&self) -> ObjectType {
        self.object_type
    }

    fn get_entry_mut(&mut self, sub_index: u8) -> (r: Option<&mut ObjectEntry<'a>>) {
        let i = sub_index as usize;
        if i < self.entries.len() {
            Some(&mut self.entries[i])
        } else {
            None
        }
    }

    fn get_entry(&self, sub_index: u8) -> (r: Option<&ObjectEntry<'a>>) {
        let i = sub_index as usize;
        if i < self.entries.len() {
            Some(&self.entries[i])
        } else {
            None
        }
    }

    fn get_name(&self) -> (r: &str) {
        self.name
    }

    fn get_index(&self) -> (r: u16) {
        self.index
    }

    fn get_object_type(&self) -> (r: ObjectType) {
        self.object_type
    }
}

impl<'a, const N: usize> Object<'a, N> {
    /// At most `N` entries.
    pub open spec fn wf(&self) -> bool {
        self.entries().len() <= N
    }

    /// An empty object with the given name, kind and index.
    pub fn with_identity(name: &'a str, object_type: ObjectType, index: u16) -> (r: Self)
        ensures
            r.wf(),
            r.entries().len() == 0,
            r.name_view() == name@,
            r.object_type_view() == object_type,
            r.index_view() == index,
    {
        Object { name, object_type, index, entries: Vec::new() }
    }

    /// An empty array object named "test" at index 5.
    pub fn new() -> (r: Self)
        ensures
            r.wf(),
            r.entries().len() == 0,
            r.name_view() == "test"@,
            r.object_type_view() == ObjectType::Array,
            r.index_view() == 5,
    {
        Object { name: "test", entries: Vec::new(), index: 5, object_type: ObjectType::Array }
    }

    /// The number of entries.
    pub fn len(&self) -> (r: usize)
        ensures
            r == self.entries().len(),
    {
        self.entries.len()
    }

    /// Appends `entry` at the next sub-index, or hands it back when the object
    /// already holds `N` entries.
    pub fn push_entry(&mut self, entry: ObjectEntry<'a>) -> (r: Result<(), ObjectEntry<'a>>)
        requires
            old(self).wf(),
        ensures
            final(self).wf(),
            old(self).entries().len() < N ==> r is Ok && final(self).entries() == old(
                self,
            ).entries().push(entry),
            old(self).entries().len() >= N ==> r == Err::<(), ObjectEntry<'a>>(entry)
                && final(self).entries() == old(self).entries(),
            final(self).name_view() == old(self).name_view(),
            final(self).object_type_view() == old(self).object_type_view(),
            final(self).index_view() == old(self).index_view(),
    {
        if self.entries.len() < N {
            self.entries.push(entry);
            Ok(())
        } else {
            Err(entry)
        }
    }
}

impl<'a, const N: usize> Default for Object<'a, N> {
    /// An empty variable object named "empty" at index 0.
    fn default() -> (r: Self)
        ensures
            r.wf(),
            r.entries().len() == 0,
            r.name_view() == "empty"@,
            r.object_type_view() == ObjectType::Variable,
            r.index_view() == 0,
    {
        Object { name: "empty", object_type: ObjectType::Variable, index: 0, entries: Vec::new() }
    }
}

} // verus!
