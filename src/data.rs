use crate::id::Id;
use crate::object::{INSCopying, INSMutableCopying, INSObject};
use crate::range::NSRange;
use crate::text::{data_description, describe_bytes};
use std::ops::Range;
use vstd::prelude::*;

verus! {

/// The bytes of `s` with the `len` bytes at `loc` replaced by `b`.
pub open spec fn replaced(s: Seq<u8>, loc: int, len: int, b: Seq<u8>) -> Seq<u8> {
    s.take(loc) + b + s.skip(loc + len)
}

/// The bytes of `s` cut or extended with zeros to `n` bytes.
pub open spec fn resized(s: Seq<u8>, n: int) -> Seq<u8> {
    if n <= s.len() {
        s.take(n)
    } else {
        s + Seq::new((n - s.len()) as nat, |i: int| 0u8)
    }
}

/// A fresh vector that holds the bytes of `b`.
fn vec_of(b: &[u8]) -> (r: Vec<u8>)
    ensures
        r@ == b@,
{
    let mut v: Vec<u8> = Vec::new();
    push_all(&mut v, b);
    proof {
        assert(v@ =~= b@);
    }
    v
}

/// Pushes the bytes of `b` onto `v`.
fn push_all(v: &mut Vec<u8>, b: &[u8])
    ensures
        final(v)@ == old(v)@ + b@,
{
    let ghost start = v@;
    let mut i: usize = 0;
    while i < b.len()
        invariant
            i <= b@.len(),
            v@ == start + b@.take(i as int),
        decreases b@.len() - i,
    {
        v.push(b[i]);
        i = i + 1;
        proof {
            assert(b@.take(i as int) =~= b@.take(i - 1) + seq![b@[i - 1]]);
            assert(v@ =~= start + b@.take(i as int));
        }
    }
    proof {
        assert(b@.take(i as int) =~= b@);
    }
}

/// Pushes the bytes of `s` from index `from` on onto `v`.
fn push_from(v: &mut Vec<u8>, s: &Vec<u8>, from: usize)
    requires
        from <= s@.len(),
    ensures
        final(v)@ == old(v)@ + s@.skip(from as int),
{
    let ghost start = v@;
    let mut i: usize = from;
    while i < s.len()
        invariant
            from <= i <= s@.len(),
            v@ == start + s@.subrange(from as int, i as int),
        decreases s@.len() - i,
    {
        v.push(s[i]);
        i = i + 1;
        proof {
            assert(s@.subrange(from as int, i as int) =~= s@.subrange(from as int, i - 1) + seq![
                s@[i - 1],
            ]);
            assert(v@ =~= start + s@.subrange(from as int, i as int));
        }
    }
    proof {
        assert(s@.subrange(from as int, i as int) =~= s@.skip(from as int));
    }
}

/// The capability of a class that holds a sequence of bytes.
pub trait INSData: INSObject {
    /// The bytes that the object holds.
    spec fn spec_bytes(&self) -> Seq<u8>;

    /// The number of bytes.
    fn len(&self) -> (r: usize)
        ensures
            r == self.spec_bytes().len(),
    ;

    /// A view of the bytes, valid while the object is not changed.
    fn bytes(&self) -> (r: &[u8])
        ensures
            r@ == self.spec_bytes(),
    ;

    /// A new object that holds a copy of `bytes`.
    fn with_bytes(bytes: &[u8]) -> (r: Id<Self>)
        ensures
            r.value().spec_bytes() == bytes@,
    ;
}

/// The capability of a class whose bytes can be changed.
pub trait INSMutableData: INSData {
    /// A mutable view of the bytes; what is written through it is what the
    /// object holds afterwards.
    fn bytes_mut(&mut self) -> (r: &mut [u8])
        ensures
            r@ == old(self).spec_bytes(),
            final(r)@ == final(self).spec_bytes(),
    ;

    /// Cuts the bytes to `len`, or extends them with zeros to `len`.
    fn set_len(&mut self, len: usize)
        ensures
            final(self).spec_bytes() == resized(old(self).spec_bytes(), len as int),
    ;

    /// Adds `bytes` at the end.
    fn append(&mut self, bytes: &[u8])
        ensures
            final(self).spec_bytes() == replaced(
                old(self).spec_bytes(),
                old(self).spec_bytes().len() as int,
                0,
                bytes@,
            ),
    ;

    /// Replaces the bytes of `range` with `bytes`.
    fn replace_range(&mut self, range: Range<usize>, bytes: &[u8])
        requires
            range.start <= range.end <= old(self).spec_bytes().len(),
        ensures
            final(self).spec_bytes() == replaced(
                old(self).spec_bytes(),
                range.start as int,
                range.end - range.start,
                bytes@,
            ),
    ;

    /// Replaces all the bytes with `bytes`.
    fn set_bytes(&mut self, bytes: &[u8])
        ensures
            final(self).spec_bytes() == bytes@,
    ;
}

/// Replacing the whole of a buffer's bytes leaves exactly the new bytes.
pub proof fn lemma_replace_all(s: Seq<u8>, z: Seq<u8>)
    ensures
        replaced(s, 0, s.len() as int, z) == z,
{
    assert(replaced(s, 0, s.len() as int, z) =~= z);
}

/// Appending `y` to the bytes `x` gives their concatenation.
pub proof fn lemma_append_concat(x: Seq<u8>, y: Seq<u8>)
    ensures
        replaced(x, x.len() as int, 0, y) == x + y,
{
    assert(replaced(x, x.len() as int, 0, y) =~= x + y);
}

/// Appending `y` to a buffer made from `x` leaves the bytes `x + y`: `after`
/// is any buffer that the contract of `append` admits.
pub proof fn lemma_append_after_with_bytes(
    x: &[u8],
    d: Id<NSMutableData>,
    y: Seq<u8>,
    after: NSMutableData,
)
    requires
        call_ensures(<NSMutableData as INSData>::with_bytes, (x,), d),
        after@ == replaced(d.value()@, d.value()@.len() as int, 0, y),
    ensures
        after@ == x@ + y,
{
    lemma_append_concat(x@, y);
}

/// The bytes of `s` with the region `r` replaced by `b`.
fn replace_in(s: &Vec<u8>, r: NSRange, b: &[u8]) -> (out: Vec<u8>)
    requires
        r.spec_end() <= s@.len(),
    ensures
        out@ == replaced(s@, r.location as int, r.length as int, b@),
{
    let mut out: Vec<u8> = Vec::new();
    let mut i: usize = 0;
    while i < r.location
        invariant
            i <= r.location <= s@.len(),
            out@ == s@.take(i as int),
        decreases r.location - i,
    {
        out.push(s[i]);
        i = i + 1;
        proof {
            assert(out@ =~= s@.take(i as int));
        }
    }
    push_all(&mut out, b);
    assert(s@.len() == s.len());
    push_from(&mut out, s, r.location + r.length);
    proof {
        assert(out@ =~= replaced(s@, r.location as int, r.length as int, b@));
    }
    out
}

/// The bytes of `s` cut or extended with zeros to `n` bytes.
fn resize_to(s: &mut Vec<u8>, n: usize)
    ensures
        final(s)@ == resized(old(s)@, n as int),
{
    if n <= s.len() {
        s.truncate(n);
    } else {
        let ghost start = s@;
        while s.len() < n
            invariant
                start.len() < n,
                start.len() <= s@.len() <= n,
                s@ == start + Seq::new((s@.len() - start.len()) as nat, |i: int| 0u8),
            decreases n - s@.len(),
        {
            s.push(0u8);
            proof {
                assert(s@ =~= start + Seq::new((s@.len() - start.len()) as nat, |i: int| 0u8));
            }
        }
    }
}

/// Hash of a byte sequence: its length.
pub open spec fn bytes_hash(s: Seq<u8>) -> u64 {
    s.len() as u64
}

/// An immutable object that holds a sequence of bytes.
pub struct NSData {
    bytes: Vec<u8>,
}

impl View for NSData {
    type V = Seq<u8>;

    closed spec fn view(&self) -> Seq<u8> {
        self.bytes@
    }
}

impl INSObject for NSData {
    open spec fn spec_class_name() -> Seq<char> {
        "NSData"@
    }

    open spec fn equal_objects(a: &Self, b: &Self) -> bool {
        a@ == b@
    }

    open spec fn equality_by_value() -> bool {
        true
    }

    open spec fn spec_hash(a: &Self) -> u64 {
        bytes_hash(a@)
    }

    open spec fn spec_description(a: &Self) -> Seq<char> {
        data_description(a@)
    }

    open spec fn is_fresh(a: &Self) -> bool {
        a@.len() == 0
    }

    proof fn lemma_equal_reflexive(a: &Self) {
    }

    proof fn lemma_hash_agrees(a: &Self, b: &Self) {
    }

    fn class_name() -> (r: &'static str) {
        "NSData"
    }

    fn new() -> (r: Id<Self>) {
        Id::from_retained(NSData { bytes: Vec::new() })
    }

    fn is_equal(&self, other: &Self) -> (r: bool) {
        equal_bytes(&self.bytes, &other.bytes)
    }

    fn hash_code(&self) -> (r: u64) {
        self.bytes.len() as u64
    }

    fn description(&self) -> (r: String) {
        describe_bytes(self.bytes.as_slice())
    }
}

impl INSData for NSData {
    open spec fn spec_bytes(&self) -> Seq<u8> {
        self@
    }

    fn len(&self) -> (r: usize) {
        self.bytes.len()
    }

    fn bytes(&self) -> (r: &[u8]) {
        self.bytes.as_slice()
    }

    fn with_bytes(bytes: &[u8]) -> (r: Id<Self>) {
        Id::from_retained(NSData { bytes: vec_of(bytes) })
    }
}

impl INSCopying for NSData {
    type Output = NSData;

    open spec fn is_copy(a: &Self, r: &NSData) -> bool {
        r@ == a@
    }

    fn copy(&self) -> (r: Id<NSData>) {
        NSData::with_bytes(self.bytes.as_slice())
    }
}

impl INSMutableCopying for NSData {
    type Output = NSMutableData;

    open spec fn is_mutable_copy(a: &Self, r: &NSMutableData) -> bool {
        r@ == a@
    }

    fn mutable_copy(&self) -> (r: Id<NSMutableData>) {
        NSMutableData::with_bytes(self.bytes.as_slice())
    }
}

/// An object that holds a sequence of bytes that can be changed.
pub struct NSMutableData {
    bytes: Vec<u8>,
}

impl View for NSMutableData {
    type V = Seq<u8>;

    closed spec fn view(&self) -> Seq<u8> {
        self.bytes@
    }
}

impl INSObject for NSMutableData {
    open spec fn spec_class_name() -> Seq<char> {
        "NSMutableData"@
    }

    open spec fn equal_objects(a: &Self, b: &Self) -> bool {
        a@ == b@
    }

    open spec fn equality_by_value() -> bool {
        true
    }

    open spec fn spec_hash(a: &Self) -> u64 {
        bytes_hash(a@)
    }

    open spec fn spec_description(a: &Self) -> Seq<char> {
        data_description(a@)
    }

    open spec fn is_fresh(a: &Self) -> bool {
        a@.len() == 0
    }

    proof fn lemma_equal_reflexive(a: &Self) {
    }

    proof fn lemma_hash_agrees(a: &Self, b: &Self) {
    }

    fn class_name() -> (r: &'static str) {
        "NSMutableData"
    }

    fn new() -> (r: Id<Self>) {
        Id::from_retained(NSMutableData { bytes: Vec::new() })
    }

    fn is_equal(&self, other: &Self) -> (r: bool) {
        equal_bytes(&self.bytes, &other.bytes)
    }

    fn hash_code(&self) -> (r: u64) {
        self.bytes.len() as u64
    }

    fn description(&self) -> (r: String) {
        describe_bytes(self.bytes.as_slice())
    }
}

impl INSData for NSMutableData {
    open spec fn spec_bytes(&self) -> Seq<u8> {
        self@
    }

    fn len(&self) -> (r: usize) {
        self.bytes.len()
    }

    fn bytes(&self) -> (r: &[u8]) {
        self.bytes.as_slice()
    }

    fn with_bytes(bytes: &[u8]) -> (r: Id<Self>) {
        Id::from_retained(NSMutableData { bytes: vec_of(bytes) })
    }
}

impl INSMutableData for NSMutableData {
    fn bytes_mut(&mut self) -> (r: &mut [u8]) {
        self.bytes.as_mut_slice()
    }

    fn set_len(&mut self, len: usize) {
        resize_to(&mut self.bytes, len);
    }

    fn append(&mut self, bytes: &[u8]) {
        push_all(&mut self.bytes, bytes);
        proof {
            lemma_append_concat(old(self)@, bytes@);
        }
    }

    fn replace_range(&mut self, range: Range<usize>, bytes: &[u8]) {
        match NSRange::from_range(range) {
            Some(r) => {
                self.bytes = replace_in(&self.bytes, r, bytes);
            },
            None => {},
        }
    }

    fn set_bytes(&mut self, bytes: &[u8]) {
        let len = self.len();
        self.replace_range(0..len, bytes);
        proof {
            lemma_replace_all(old(self)@, bytes@);
        }
    }
}

impl INSCopying for NSMutableData {
    type Output = NSData;

    open spec fn is_copy(a: &Self, r: &NSData) -> bool {
        r@ == a@
    }

    fn copy(&self) -> (r: Id<NSData>) {
        NSData::with_bytes(self.bytes.as_slice())
    }
}

impl INSMutableCopying for NSMutableData {
    type Output = NSMutableData;

    open spec fn is_mutable_copy(a: &Self, r: &NSMutableData) -> bool {
        r@ == a@
    }

    fn mutable_copy(&self) -> (r: Id<NSMutableData>) {
        NSMutableData::with_bytes(self.bytes.as_slice())
    }
}

/// Whether `a` and `b` hold the same bytes.
fn equal_bytes(a: &Vec<u8>, b: &Vec<u8>) -> (r: bool)
    ensures
        r == (a@ == b@),
{
    if a.len() != b.len() {
        return false;
    }
    let mut i: usize = 0;
    while i < a.len()
        invariant
            a@.len() == b@.len(),
            i <= a@.len(),
            forall|j: int| 0 <= j < i ==> a@[j] == b@[j],
        decreases a@.len() - i,
    {
        if a[i] != b[i] {
            return false;
        }
        i = i + 1;
    }
    proof {
        assert(a@ =~= b@);
    }
    true
}

} // verus!
