//! Metadata: a block of parallel key and value arrays, decoded lazily into
//! typed pairs.

use crate::prim::{bridged, pointee, pointer, slice, vec3, RawString, RawVector3, Single, Vector3};
use crate::record::Record;
use crate::translate::ForeignEnum;
use vstd::prelude::*;
use vstd::string::StringSliceAdditionalSpecFns;
use vstd::utf8::decode_utf8;

verus! {

// ++++++++++++++++++++ records ++++++++++++++++++++

/// The type tag of a metadata value: how its payload is to be read.
#[derive(Debug, Clone, Copy, PartialEq, Eq, Structural)]
pub enum MetadataType {
    Bool,
    Int,
    UInt64,
    Float,
    AiString,
    AiVector3D,
}

impl ForeignEnum for MetadataType {
    open spec fn code(self) -> u32 {
        match self {
            MetadataType::Bool => 0,
            MetadataType::Int => 1,
            MetadataType::UInt64 => 2,
            MetadataType::Float => 3,
            MetadataType::AiString => 4,
            MetadataType::AiVector3D => 5,
        }
    }

    open spec fn decode(x: u32) -> Option<Self> {
        match x {
            0 => Some(MetadataType::Bool),
            1 => Some(MetadataType::Int),
            2 => Some(MetadataType::UInt64),
            3 => Some(MetadataType::Float),
            4 => Some(MetadataType::AiString),
            5 => Some(MetadataType::AiVector3D),
            _ => None,
        }
    }

    fn to_ffi(self) -> (r: u32) {
        match self {
            MetadataType::Bool => 0,
            MetadataType::Int => 1,
            MetadataType::UInt64 => 2,
            MetadataType::Float => 3,
            MetadataType::AiString => 4,
            MetadataType::AiVector3D => 5,
        }
    }

    fn from_ffi(x: u32) -> (r: Option<Self>) {
        match x {
            0 => Some(MetadataType::Bool),
            1 => Some(MetadataType::Int),
            2 => Some(MetadataType::UInt64),
            3 => Some(MetadataType::Float),
            4 => Some(MetadataType::AiString),
            5 => Some(MetadataType::AiVector3D),
            _ => None,
        }
    }

    proof fn lemma_decode_encode(v: Self) {
    }

    proof fn lemma_encode_decode(x: u32) {
    }
}

/// What lies behind the data pointer of a metadata value.
#[derive(Debug, Clone)]
pub enum MetadataPayload {
    Bool(bool),
    Int(i32),
    UInt64(u64),
    Float(Single),
    String(RawString),
    Vector3(RawVector3),
}

impl MetadataPayload {
    /// The type tag under which such a payload is stored.
    pub open spec fn kind(&self) -> MetadataType {
        match self {
            MetadataPayload::Bool(_) => MetadataType::Bool,
            MetadataPayload::Int(_) => MetadataType::Int,
            MetadataPayload::UInt64(_) => MetadataType::UInt64,
            MetadataPayload::Float(_) => MetadataType::Float,
            MetadataPayload::String(_) => MetadataType::AiString,
            MetadataPayload::Vector3(_) => MetadataType::AiVector3D,
        }
    }

    /// The value that the payload decodes to.
    pub open spec fn value(&self) -> MetadataValueView {
        match self {
            MetadataPayload::Bool(b) => MetadataValueView::Bool(*b),
            MetadataPayload::Int(i) => MetadataValueView::I32(*i),
            MetadataPayload::UInt64(u) => MetadataValueView::U64(*u),
            MetadataPayload::Float(f) => MetadataValueView::F32(*f),
            MetadataPayload::String(s) => MetadataValueView::String(s.text()),
            MetadataPayload::Vector3(v) => MetadataValueView::Vector3(seq![v.x, v.y, v.z]),
        }
    }

    fn tag(&self) -> (r: MetadataType)
        ensures
            r == self.kind(),
    {
        match self {
            MetadataPayload::Bool(_) => MetadataType::Bool,
            MetadataPayload::Int(_) => MetadataType::Int,
            MetadataPayload::UInt64(_) => MetadataType::UInt64,
            MetadataPayload::Float(_) => MetadataType::Float,
            MetadataPayload::String(_) => MetadataType::AiString,
            MetadataPayload::Vector3(_) => MetadataType::AiVector3D,
        }
    }
}

/// One metadata value: a type tag and a pointer to the payload. A null
/// pointer marks a value that is not there.
#[derive(Debug, Clone)]
pub struct MetadataEntry {
    pub type_tag: u32,
    pub data: Option<MetadataPayload>,
}

impl Record for MetadataEntry {
    /// Where there is a payload, the tag is one of the known tags, the
    /// payload is of the tag's kind, and a string payload is text.
    open spec fn wf(&self) -> bool {
        self.data matches Some(p) ==> {
            &&& MetadataType::decode(self.type_tag) == Some(p.kind())
            &&& p matches MetadataPayload::String(s) ==> s.wf()
        }
    }

    fn is_well_formed(&self) -> (b: bool) {
        match &self.data {
            Some(p) => {
                let tag_ok = match MetadataType::from_ffi(self.type_tag) {
                    Some(t) => t == p.tag(),
                    None => false,
                };
                let text_ok = match p {
                    MetadataPayload::String(s) => s.is_well_formed(),
                    _ => true,
                };
                tag_ok && text_ok
            },
            None => true,
        }
    }
}

/// Container for holding metadata: a key-value store with string keys.
#[derive(Debug, Clone)]
pub struct MetaData {
    /// Length of the `keys` and `values` arrays.
    pub num_properties: u32,
    /// The keys. Never null.
    pub keys: Option<Vec<RawString>>,
    /// The values, each at the place of its key. Never null.
    pub values: Option<Vec<MetadataEntry>>,
}

// ++++++++++++++++++++ values ++++++++++++++++++++

/// A metadata value, decoded.
#[derive(Debug, Clone, Copy)]
pub enum MetadataValue<'a> {
    Bool(bool),
    I32(i32),
    U64(u64),
    F32(Single),
    Vector3(Vector3),
    String(&'a str),
}

/// What a metadata value says, apart from where its text is stored.
pub enum MetadataValueView {
    Bool(bool),
    I32(i32),
    U64(u64),
    F32(Single),
    Vector3(Seq<Single>),
    String(Seq<char>),
}

impl<'a> View for MetadataValue<'a> {
    type V = MetadataValueView;

    open spec fn view(&self) -> MetadataValueView {
        match self {
            MetadataValue::Bool(b) => MetadataValueView::Bool(*b),
            MetadataValue::I32(i) => MetadataValueView::I32(*i),
            MetadataValue::U64(u) => MetadataValueView::U64(*u),
            MetadataValue::F32(f) => MetadataValueView::F32(*f),
            MetadataValue::Vector3(v) => MetadataValueView::Vector3(v@),
            MetadataValue::String(s) => MetadataValueView::String(s@),
        }
    }
}

/// A key and its value, as the iterator yields them.
pub type Pair = (Seq<char>, MetadataValueView);

/// What an optional value says.
pub open spec fn said(v: Option<MetadataValue>) -> Option<MetadataValueView> {
    match v {
        Some(x) => Some(x@),
        None => None,
    }
}

/// The value of the first pair whose key is `key`.
pub open spec fn lookup(pairs: Seq<Pair>, key: Seq<char>) -> Option<MetadataValueView>
    decreases pairs.len(),
{
    if pairs.len() == 0 {
        None
    } else if pairs[0].0 == key {
        Some(pairs[0].1)
    } else {
        lookup(pairs.skip(1), key)
    }
}

/// `lookup` finds the first pair with the key, and finds nothing exactly
/// where no pair has the key.
pub proof fn lemma_lookup(pairs: Seq<Pair>, key: Seq<char>)
    ensures
        lookup(pairs, key) is None <==> forall|i: int|
            0 <= i < pairs.len() ==> (#[trigger] pairs[i]).0 != key,
        lookup(pairs, key) matches Some(v) ==> exists|i: int|
            0 <= i < pairs.len() && (#[trigger] pairs[i]).0 == key && pairs[i].1 == v && forall|
                j: int,
            |
                0 <= j < i ==> (#[trigger] pairs[j]).0 != key,
    decreases pairs.len(),
{
    if pairs.len() == 0 {
    } else if pairs[0].0 == key {
        assert(pairs[0].0 == key && pairs[0].1 == lookup(pairs, key).unwrap());
    } else {
        let rest = pairs.skip(1);
        lemma_lookup(rest, key);
        assert forall|i: int| 0 <= i < rest.len() implies rest[i] == pairs[i + 1] by {}
        if lookup(rest, key) is None {
            assert forall|i: int| 0 <= i < pairs.len() implies (#[trigger] pairs[i]).0 != key by {
                if i > 0 {
                    assert(rest[i - 1].0 != key);
                }
            }
        } else {
            let v = lookup(rest, key).unwrap();
            let i = choose|i: int|
                0 <= i < rest.len() && (#[trigger] rest[i]).0 == key && rest[i].1 == v && forall|
                    j: int,
                |
                    0 <= j < i ==> (#[trigger] rest[j]).0 != key;
            assert(pairs[i + 1].0 == key && pairs[i + 1].1 == v);
            assert forall|j: int| 0 <= j < i + 1 implies (#[trigger] pairs[j]).0 != key by {
                if j > 0 {
                    assert(rest[j - 1].0 != key);
                }
            }
        }
    }
}

fn decoded<'a>(p: &'a MetadataPayload) -> (r: MetadataValue<'a>)
    requires
        p matches MetadataPayload::String(s) ==> s.wf(),
    ensures
        r@ == p.value(),
{
    match p {
        MetadataPayload::Bool(b) => MetadataValue::Bool(*b),
        MetadataPayload::Int(i) => MetadataValue::I32(*i),
        MetadataPayload::UInt64(u) => MetadataValue::U64(*u),
        MetadataPayload::Float(f) => MetadataValue::F32(*f),
        MetadataPayload::String(s) => MetadataValue::String(s.as_text()),
        MetadataPayload::Vector3(v) => MetadataValue::Vector3(vec3(*v)),
    }
}

/// Whether two strings hold the same text.
fn same_text(a: &str, b: &str) -> (r: bool)
    ensures
        r == (a@ == b@),
{
    broadcast use vstd::utf8::encode_utf8_decode_utf8;

    let x = a.as_bytes();
    let y = b.as_bytes();
    assert(decode_utf8(x@) == a@ && decode_utf8(y@) == b@);
    if x.len() != y.len() {
        return false;
    }
    let mut i: usize = 0;
    while i < x.len()
        invariant
            x@ == a.spec_bytes(),
            y@ == b.spec_bytes(),
            i <= x@.len() == y@.len(),
            forall|j: int| 0 <= j < i ==> x@[j] == y@[j],
        decreases x@.len() - i,
    {
        if x[i] != y[i] {
            return false;
        }
        i += 1;
    }
    assert(x@ =~= y@);
    true
}

// ++++++++++++++++++++ the block ++++++++++++++++++++

impl MetaData {
    /// The keys that belong to the block.
    pub open spec fn key_seq(&self) -> Seq<RawString> {
        bridged(pointee(self.keys), self.num_properties as nat)
    }

    /// The values that belong to the block.
    pub open spec fn value_seq(&self) -> Seq<MetadataEntry> {
        bridged(pointee(self.values), self.num_properties as nat)
    }

    /// The pairs that the block holds at the places from `from` on: one for
    /// each place whose value is there, in the order of the places.
    pub open spec fn pairs_from(&self, from: int) -> Seq<Pair>
        decreases self.num_properties - from,
    {
        if 0 <= from < self.num_properties {
            match self.value_seq()[from].data {
                Some(p) => seq![(self.key_seq()[from].text(), p.value())] + self.pairs_from(
                    from + 1,
                ),
                None => self.pairs_from(from + 1),
            }
        } else {
            Seq::empty()
        }
    }

    /// The pairs that the block holds, in iteration order.
    pub open spec fn pairs(&self) -> Seq<Pair> {
        self.pairs_from(0)
    }

    /// An iterator over the pairs of the block. Calling it again starts
    /// over.
    pub fn iter(&self) -> (r: Iter<'_>)
        requires
            self.wf(),
        ensures
            r.remaining() == self.pairs(),
    {
        Iter::new(self)
    }

    /// The value of the first pair, in iteration order, whose key is `key`.
    pub fn get<'a>(&'a self, key: &str) -> (r: Option<MetadataValue<'a>>)
        requires
            self.wf(),
        ensures
            said(r) == lookup(self.pairs(), key@),
            r is None <==> forall|i: int|
                0 <= i < self.pairs().len() ==> (#[trigger] self.pairs()[i]).0 != key@,
    {
        let mut it = self.iter();
        loop
            invariant
                lookup(self.pairs(), key@) == lookup(it.remaining(), key@),
            decreases it.remaining().len(),
        {
            match it.next() {
                Some((k, v)) => {
                    if same_text(k, key) {
                        proof {
                            lemma_lookup(self.pairs(), key@);
                        }
                        return Some(v);
                    }
                },
                None => {
                    proof {
                        lemma_lookup(self.pairs(), key@);
                    }
                    return None;
                },
            }
        }
    }
}

impl Record for MetaData {
    /// Neither array is null, both hold as many elements as the block
    /// counts, each key is text, and each value is well formed.
    open spec fn wf(&self) -> bool {
        &&& self.keys matches Some(k) && self.num_properties <= k@.len()
        &&& self.values matches Some(v) && self.num_properties <= v@.len()
        &&& forall|i: int|
            0 <= i < self.num_properties ==> (#[trigger] self.keys.unwrap()@[i]).wf()
        &&& forall|i: int|
            0 <= i < self.num_properties ==> (#[trigger] self.values.unwrap()@[i]).wf()
    }

    fn is_well_formed(&self) -> (b: bool) {
        match (&self.keys, &self.values) {
            (Some(k), Some(v)) => {
                let n = self.num_properties as usize;
                if n > k.len() || n > v.len() {
                    return false;
                }
                let mut i: usize = 0;
                while i < n
                    invariant
                        self.keys == Some(*k),
                        self.values == Some(*v),
                        n == self.num_properties,
                        i <= n <= k@.len(),
                        n <= v@.len(),
                        forall|j: int| 0 <= j < i ==> (#[trigger] k@[j]).wf(),
                        forall|j: int| 0 <= j < i ==> (#[trigger] v@[j]).wf(),
                    decreases n - i,
                {
                    if !k[i].is_well_formed() {
                        assert(!k@[i as int].wf());
                        return false;
                    }
                    if !v[i].is_well_formed() {
                        assert(!v@[i as int].wf());
                        return false;
                    }
                    i += 1;
                }
                true
            },
            _ => false,
        }
    }
}

// ++++++++++++++++++++ the iterator ++++++++++++++++++++

/// An iterator over the pairs of a metadata block. It yields one pair for
/// each place of the block whose value is there, in the order of the places,
/// and passes over the places whose value pointer is null. A copy of it
/// goes on from where the iterator stood when the copy was taken.
#[derive(Clone, Copy)]
pub struct Iter<'a> {
    raw: &'a MetaData,
    idx: usize,
}

impl<'a> Iter<'a> {
    #[verifier::type_invariant]
    spec fn inv(self) -> bool {
        self.raw.wf() && self.idx <= self.raw.num_properties
    }

    /// The pairs that are still to come.
    pub closed spec fn remaining(&self) -> Seq<Pair> {
        self.raw.pairs_from(self.idx as int)
    }

    /// An iterator that stands before the first pair of `raw`.
    pub fn new(raw: &'a MetaData) -> (r: Self)
        requires
            raw.wf(),
        ensures
            r.remaining() == raw.pairs(),
    {
        Iter { raw, idx: 0 }
    }

    /// The next pair, or nothing when none is left.
    pub fn next(&mut self) -> (r: Option<(&'a str, MetadataValue<'a>)>)
        ensures
            match r {
                Some((k, v)) => {
                    &&& old(self).remaining().len() > 0
                    &&& (k@, v@) == old(self).remaining()[0]
                    &&& final(self).remaining() == old(self).remaining().skip(1)
                },
                None => old(self).remaining().len() == 0 && final(self).remaining().len() == 0,
            },
    {
        proof {
            use_type_invariant(&*self);
        }
        let raw: &'a MetaData = self.raw;
        let n = raw.num_properties;
        let keys: &'a [RawString] = slice(pointer(&raw.keys), n);
        let values: &'a [MetadataEntry] = slice(pointer(&raw.values), n);
        while self.idx < n as usize
            invariant
                raw.wf(),
                self.raw == raw,
                old(self).raw == raw,
                n == raw.num_properties,
                self.idx <= n,
                keys@ == raw.key_seq(),
                values@ == raw.value_seq(),
                keys@.len() == n,
                values@.len() == n,
                self.remaining() == old(self).remaining(),
            decreases n - self.idx,
        {
            let i = self.idx;
            self.idx = i + 1;
            assert(raw.keys.unwrap()@[i as int].wf());
            assert(raw.values.unwrap()@[i as int].wf());
            match &values[i].data {
                Some(p) => {
                    let key = keys[i].as_text();
                    let value = decoded(p);
                    proof {
                        let rest = raw.pairs_from(i + 1);
                        assert(old(self).remaining() == seq![(key@, value@)] + rest);
                        assert(old(self).remaining().skip(1) =~= rest);
                    }
                    return Some((key, value));
                },
                None => {},
            }
        }
        None
    }
}

/// When exactly one of the `n` places of a block holds a null value
/// pointer, the iterator yields `n - 1` pairs: those of the other places, in
/// the order of the places.
pub proof fn lemma_one_value_missing(md: MetaData, k: int)
    requires
        md.wf(),
        0 <= k < md.num_properties,
        forall|i: int|
            0 <= i < md.num_properties ==> ((#[trigger] md.value_seq()[i]).data is None <==> i
                == k),
    ensures
        md.pairs().len() == md.num_properties - 1,
        forall|i: int|
            0 <= i < k ==> (#[trigger] md.pairs()[i]) == (
                md.key_seq()[i].text(),
                md.value_seq()[i].data.unwrap().value(),
            ),
        forall|i: int|
            k <= i < md.num_properties - 1 ==> (#[trigger] md.pairs()[i]) == (
                md.key_seq()[i + 1].text(),
                md.value_seq()[i + 1].data.unwrap().value(),
            ),
{
    lemma_pairs_after(md, k, k + 1);
    lemma_pairs_before(md, k, 0);
}

/// Past the missing value, every place yields its pair.
proof fn lemma_pairs_after(md: MetaData, k: int, from: int)
    requires
        md.wf(),
        0 <= k < from <= md.num_properties,
        forall|i: int|
            0 <= i < md.num_properties ==> ((#[trigger] md.value_seq()[i]).data is None <==> i
                == k),
    ensures
        md.pairs_from(from).len() == md.num_properties - from,
        forall|i: int|
            0 <= i < md.num_properties - from ==> (#[trigger] md.pairs_from(from)[i]) == (
                md.key_seq()[from + i].text(),
                md.value_seq()[from + i].data.unwrap().value(),
            ),
    decreases md.num_properties - from,
{
    if from < md.num_properties {
        lemma_pairs_after(md, k, from + 1);
        assert(md.value_seq()[from].data is Some);
    }
}

/// Up to the missing value every place yields its pair, and the missing
/// value itself yields none.
proof fn lemma_pairs_before(md: MetaData, k: int, from: int)
    requires
        md.wf(),
        0 <= from <= k < md.num_properties,
        forall|i: int|
            0 <= i < md.num_properties ==> ((#[trigger] md.value_seq()[i]).data is None <==> i
                == k),
    ensures
        md.pairs_from(from).len() == md.num_properties - from - 1,
        forall|i: int|
            0 <= i < k - from ==> (#[trigger] md.pairs_from(from)[i]) == (
                md.key_seq()[from + i].text(),
                md.value_seq()[from + i].data.unwrap().value(),
            ),
        forall|i: int|
            k - from <= i < md.num_properties - from - 1 ==> (#[trigger] md.pairs_from(from)[i])
                == (
                md.key_seq()[from + i + 1].text(),
                md.value_seq()[from + i + 1].data.unwrap().value(),
            ),
    decreases k - from,
{
    if from == k {
        lemma_pairs_after(md, k, k + 1);
        assert(md.value_seq()[k].data is None);
        assert(md.pairs_from(k) == md.pairs_from(k + 1));
    } else {
        lemma_pairs_before(md, k, from + 1);
        assert(md.value_seq()[from].data is Some);
    }
}

} // verus!
