//! The property bag that a media player exposes: names mapped to values
//! whose type is only known at run time, and the accessors that read such a
//! value as one type or another.

use crate::decimal::{decimal_int, i64_to_decimal};
use crate::text::string_views;
use vstd::hash_map::StringHashMap;
use vstd::prelude::*;

verus! {

/// A double-precision number, carried as the decimal text that writes it
/// (digits without an exponent, as `Display` prints a double). The library
/// never computes with such a number; it only hands it on and prints it.
#[derive(Debug)]
pub struct Double {
    pub text: String,
}

impl View for Double {
    type V = Seq<char>;

    open spec fn view(&self) -> Seq<char> {
        self.text@
    }
}

/// A value of the property bag, tagged with its type on the wire.
///
/// Strings, object paths and signatures are all `Text`; arrays, structs and
/// dictionaries (keys and values in turn) are all `List`. A `Variant` holds
/// one value of any type. `Opaque` stands for a value that cannot be read
/// as anything.
#[derive(Debug)]
pub enum PropertyValue {
    Boolean(bool),
    Byte(u8),
    Int16(i16),
    UInt16(u16),
    Int32(i32),
    UInt32(u32),
    Int64(i64),
    UInt64(u64),
    Double(Double),
    UnixFd(i32),
    Text(String),
    List(Vec<PropertyValue>),
    Variant(Box<PropertyValue>),
    Opaque,
}

/// The values that a run of references points to.
pub open spec fn pointees(refs: Seq<&PropertyValue>) -> Seq<PropertyValue> {
    Seq::new(refs.len(), |i: int| *refs[i])
}

/// The texts of `items`, if every one of them can be read as text.
pub open spec fn texts(items: Seq<PropertyValue>) -> Option<Seq<Seq<char>>> {
    if forall|i: int| 0 <= i < items.len() ==> (#[trigger] items[i]).spec_as_str() is Some {
        Some(Seq::new(items.len(), |i: int| items[i].spec_as_str().unwrap()))
    } else {
        None
    }
}

/// The names in one group: the group is a container, and each thing in it
/// is a text.
pub open spec fn group_names(group: PropertyValue) -> Option<Seq<Seq<char>>> {
    match group.spec_as_list() {
        Some(items) => texts(items),
        None => None,
    }
}

/// The names of all the groups, one group after the other, if every group
/// can be read.
pub open spec fn groups_names(groups: Seq<PropertyValue>) -> Option<Seq<Seq<char>>>
    decreases groups.len(),
{
    if groups.len() == 0 {
        Some(Seq::empty())
    } else {
        match (groups_names(groups.drop_last()), group_names(groups.last())) {
            (Some(before), Some(last)) => Some(before + last),
            _ => None,
        }
    }
}

/// If one group cannot be read, the groups cannot.
proof fn lemma_group_fails(groups: Seq<PropertyValue>, at: int)
    requires
        0 <= at < groups.len(),
        group_names(groups[at]) is None,
    ensures
        groups_names(groups) is None,
    decreases groups.len(),
{
    if at < groups.len() - 1 {
        lemma_group_fails(groups.drop_last(), at);
    }
}

impl PropertyValue {
    /// The value as a signed 64-bit number: every integer type but the
    /// unsigned 64-bit one, a boolean as 0 or 1, a file descriptor as its
    /// number, and a variant as what it holds.
    pub open spec fn spec_as_i64(self) -> Option<i64>
        decreases self,
    {
        match self {
            PropertyValue::Boolean(b) => Some(if b { 1i64 } else { 0i64 }),
            PropertyValue::Byte(x) => Some(x as i64),
            PropertyValue::Int16(x) => Some(x as i64),
            PropertyValue::UInt16(x) => Some(x as i64),
            PropertyValue::Int32(x) => Some(x as i64),
            PropertyValue::UInt32(x) => Some(x as i64),
            PropertyValue::Int64(x) => Some(x),
            PropertyValue::UnixFd(x) => Some(x as i64),
            PropertyValue::Variant(inner) => inner.spec_as_i64(),
            _ => None,
        }
    }

    /// The value as an unsigned 64-bit number: every unsigned integer type,
    /// a boolean as 0 or 1, and a variant as what it holds. A signed type
    /// is never read as unsigned, whatever number it holds.
    pub open spec fn spec_as_u64(self) -> Option<u64>
        decreases self,
    {
        match self {
            PropertyValue::Boolean(b) => Some(if b { 1u64 } else { 0u64 }),
            PropertyValue::Byte(x) => Some(x as u64),
            PropertyValue::UInt16(x) => Some(x as u64),
            PropertyValue::UInt32(x) => Some(x as u64),
            PropertyValue::UInt64(x) => Some(x),
            PropertyValue::Variant(inner) => inner.spec_as_u64(),
            _ => None,
        }
    }

    /// The decimal text of the value as a double: a double itself, an
    /// integer type of at most 32 bits or a boolean (each of which a double
    /// holds exactly, so that its text is that of the integer), and a
    /// variant as what it holds.
    pub open spec fn spec_as_double(self) -> Option<Seq<char>>
        decreases self,
    {
        match self {
            PropertyValue::Boolean(b) => Some(decimal_int(if b { 1int } else { 0int })),
            PropertyValue::Byte(x) => Some(decimal_int(x as int)),
            PropertyValue::Int16(x) => Some(decimal_int(x as int)),
            PropertyValue::UInt16(x) => Some(decimal_int(x as int)),
            PropertyValue::Int32(x) => Some(decimal_int(x as int)),
            PropertyValue::UInt32(x) => Some(decimal_int(x as int)),
            PropertyValue::Double(d) => Some(d@),
            PropertyValue::Variant(inner) => inner.spec_as_double(),
            _ => None,
        }
    }

    /// The value as text: a text itself, and a variant as what it holds.
    pub open spec fn spec_as_str(self) -> Option<Seq<char>>
        decreases self,
    {
        match self {
            PropertyValue::Text(s) => Some(s@),
            PropertyValue::Variant(inner) => inner.spec_as_str(),
            _ => None,
        }
    }

    /// The values inside a container: the items of a list, and the one
    /// value that a variant holds.
    pub open spec fn spec_as_list(self) -> Option<Seq<PropertyValue>> {
        match self {
            PropertyValue::List(items) => Some(items@),
            PropertyValue::Variant(inner) => Some(seq![*inner]),
            _ => None,
        }
    }

    /// The value as a list of names: the value is a container of groups,
    /// each group a container of texts, and the names are those texts in
    /// the order in which they are met.
    pub open spec fn spec_as_names(self) -> Option<Seq<Seq<char>>> {
        match self.spec_as_list() {
            Some(groups) => groups_names(groups),
            None => None,
        }
    }

    /// Reads the value as a signed 64-bit number.
    pub fn as_i64(&self) -> (number: Option<i64>)
        ensures
            number == self.spec_as_i64(),
        decreases self,
    {
        match self {
            PropertyValue::Boolean(b) => Some(if *b { 1i64 } else { 0i64 }),
            PropertyValue::Byte(x) => Some(*x as i64),
            PropertyValue::Int16(x) => Some(*x as i64),
            PropertyValue::UInt16(x) => Some(*x as i64),
            PropertyValue::Int32(x) => Some(*x as i64),
            PropertyValue::UInt32(x) => Some(*x as i64),
            PropertyValue::Int64(x) => Some(*x),
            PropertyValue::UnixFd(x) => Some(*x as i64),
            PropertyValue::Variant(inner) => inner.as_i64(),
            _ => None,
        }
    }

    /// Reads the value as an unsigned 64-bit number.
    pub fn as_u64(&self) -> (number: Option<u64>)
        ensures
            number == self.spec_as_u64(),
        decreases self,
    {
        match self {
            PropertyValue::Boolean(b) => Some(if *b { 1u64 } else { 0u64 }),
            PropertyValue::Byte(x) => Some(*x as u64),
            PropertyValue::UInt16(x) => Some(*x as u64),
            PropertyValue::UInt32(x) => Some(*x as u64),
            PropertyValue::UInt64(x) => Some(*x),
            PropertyValue::Variant(inner) => inner.as_u64(),
            _ => None,
        }
    }

    /// Reads the value as a double.
    pub fn as_double(&self) -> (number: Option<Double>)
        ensures
            match number {
                Some(d) => self.spec_as_double() == Some(d@),
                None => self.spec_as_double() is None,
            },
        decreases self,
    {
        match self {
            PropertyValue::Boolean(b) => Some(
                Double { text: i64_to_decimal(if *b { 1i64 } else { 0i64 }) },
            ),
            PropertyValue::Byte(x) => Some(Double { text: i64_to_decimal(*x as i64) }),
            PropertyValue::Int16(x) => Some(Double { text: i64_to_decimal(*x as i64) }),
            PropertyValue::UInt16(x) => Some(Double { text: i64_to_decimal(*x as i64) }),
            PropertyValue::Int32(x) => Some(Double { text: i64_to_decimal(*x as i64) }),
            PropertyValue::UInt32(x) => Some(Double { text: i64_to_decimal(*x as i64) }),
            PropertyValue::Double(d) => Some(Double { text: d.text.clone() }),
            PropertyValue::Variant(inner) => inner.as_double(),
            _ => None,
        }
    }

    /// Reads the value as text.
    pub fn as_str(&self) -> (text: Option<&str>)
        ensures
            match text {
                Some(s) => self.spec_as_str() == Some(s@),
                None => self.spec_as_str() is None,
            },
        decreases self,
    {
        match self {
            PropertyValue::Text(s) => Some(s.as_str()),
            PropertyValue::Variant(inner) => inner.as_str(),
            _ => None,
        }
    }

    /// Reads the values inside a container.
    pub fn as_list(&self) -> (items: Option<Vec<&PropertyValue>>)
        ensures
            match items {
                Some(found) => self.spec_as_list() == Some(pointees(found@)),
                None => self.spec_as_list() is None,
            },
    {
        match self {
            PropertyValue::List(list) => {
                let mut found: Vec<&PropertyValue> = Vec::new();
                let mut i: usize = 0;
                while i < list.len()
                    invariant
                        i <= list.len(),
                        found@.len() == i,
                        pointees(found@) == list@.take(i as int),
                    decreases list.len() - i,
                {
                    proof {
                        let longer = found@.push(&list[i as int]);
                        assert forall|k: int| 0 <= k < i + 1 implies pointees(longer)[k]
                            == list@[k] by {
                            if k < i {
                                assert(pointees(found@)[k] == list@.take(i as int)[k]);
                            }
                        }
                        assert(pointees(longer) =~= list@.take(i + 1));
                    }
                    found.push(&list[i]);
                    i = i + 1;
                }
                proof {
                    assert(list@.take(i as int) =~= list@);
                }
                Some(found)
            },
            PropertyValue::Variant(inner) => {
                let mut found: Vec<&PropertyValue> = Vec::new();
                found.push(&**inner);
                proof {
                    assert(pointees(found@) =~= seq![**inner]);
                }
                Some(found)
            },
            _ => None,
        }
    }

    /// Reads one group of names and puts them at the end of `names`.
    fn push_names(&self, names: &mut Vec<String>) -> (read: bool)
        ensures
            read == group_names(*self) is Some,
            read ==> string_views(final(names)@) == string_views(old(names)@) + group_names(
                *self,
            ).unwrap(),
    {
        let items = match self.as_list() {
            Some(items) => items,
            None => {
                return false;
            },
        };
        let ghost values = pointees(items@);
        let mut i: usize = 0;
        while i < items.len()
            invariant
                i <= items.len(),
                values == pointees(items@),
                self.spec_as_list() == Some(values),
                forall|k: int| 0 <= k < i ==> (#[trigger] values[k]).spec_as_str() is Some,
                string_views(names@) == string_views(old(names)@) + Seq::new(
                    i as nat,
                    |k: int| values[k].spec_as_str().unwrap(),
                ),
            decreases items.len() - i,
        {
            proof {
                assert(values[i as int] == *items[i as int]);
            }
            match items[i].as_str() {
                Some(name) => {
                    let owned = String::from_str(name);
                    proof {
                        assert(string_views(names@.push(owned)) =~= string_views(names@).push(
                            name@,
                        ));
                    }
                    names.push(owned);
                },
                None => {
                    proof {
                        assert(values[i as int].spec_as_str() is None);
                    }
                    return false;
                },
            }
            i = i + 1;
        }
        true
    }

    /// Reads the value as a list of names.
    pub fn as_names(&self) -> (names: Option<Vec<String>>)
        ensures
            match names {
                Some(found) => self.spec_as_names() == Some(string_views(found@)),
                None => self.spec_as_names() is None,
            },
    {
        let groups = match self.as_list() {
            Some(groups) => groups,
            None => {
                return None;
            },
        };
        let ghost values = pointees(groups@);
        let mut names: Vec<String> = Vec::new();
        let mut i: usize = 0;
        proof {
            assert(string_views(names@) =~= Seq::<Seq<char>>::empty());
            assert(values.take(0) =~= Seq::<PropertyValue>::empty());
        }
        while i < groups.len()
            invariant
                i <= groups.len(),
                values == pointees(groups@),
                self.spec_as_list() == Some(values),
                groups_names(values.take(i as int)) == Some(string_views(names@)),
            decreases groups.len() - i,
        {
            proof {
                assert(values[i as int] == *groups[i as int]);
                assert(values.take(i + 1).drop_last() =~= values.take(i as int));
                assert(values.take(i + 1).last() == values[i as int]);
            }
            if !groups[i].push_names(&mut names) {
                proof {
                    lemma_group_fails(values, i as int);
                }
                return None;
            }
            i = i + 1;
        }
        proof {
            assert(values.take(i as int) =~= values);
        }
        Some(names)
    }
}

/// The property bag: each name has at most one value.
pub struct PropertyMap {
    entries: StringHashMap<PropertyValue>,
}

impl View for PropertyMap {
    type V = Map<Seq<char>, PropertyValue>;

    closed spec fn view(&self) -> Map<Seq<char>, PropertyValue> {
        self.entries@
    }
}

impl PropertyMap {
    /// A bag without entries.
    pub fn new() -> (bag: PropertyMap)
        ensures
            bag@ == Map::<Seq<char>, PropertyValue>::empty(),
    {
        PropertyMap { entries: StringHashMap::new() }
    }

    /// Gives `key` the value `value`, in place of the one it had, if any.
    pub fn insert(&mut self, key: String, value: PropertyValue)
        ensures
            final(self)@ == old(self)@.insert(key@, value),
    {
        self.entries.insert(key, value);
    }

    /// The value of `key`, if it has one.
    pub fn get(&self, key: &str) -> (value: Option<&PropertyValue>)
        ensures
            match value {
                Some(found) => self@.contains_key(key@) && *found == self@[key@],
                None => !self@.contains_key(key@),
            },
    {
        self.entries.get(key)
    }
}

} // verus!
