//! The canonical observation model: field values, points, and ordered
//! batches of points.
//!
//! Tag and field maps are association vectors with unique keys; their view
//! is a `Map` from key characters to value views, so tagging and merging
//! have exact contracts.

use crate::text::str_eq;
use vstd::prelude::*;

verus! {

/// A field value.
///
/// A fractional quantity is carried as the raw bit pattern of its 64-bit
/// IEEE encoding; the library never computes with it, it only passes it
/// through to a sink.
#[derive(Clone, Debug)]
pub enum Value {
    Integer(i64),
    Float(u64),
    Boolean(bool),
    Text(String),
}

/// The mathematical value of a `Value`.
pub enum ValueView {
    Integer(int),
    Float(u64),
    Boolean(bool),
    Text(Seq<char>),
}

impl View for Value {
    type V = ValueView;

    open spec fn view(&self) -> ValueView {
        match self {
            Value::Integer(i) => ValueView::Integer(*i as int),
            Value::Float(b) => ValueView::Float(*b),
            Value::Boolean(b) => ValueView::Boolean(*b),
            Value::Text(s) => ValueView::Text(s@),
        }
    }
}

impl From<i8> for Value {
    fn from(val: i8) -> (r: Self) {
        Value::Integer(val as i64)
    }
}

impl vstd::std_specs::convert::FromSpecImpl<i8> for Value {
    open spec fn obeys_from_spec() -> bool {
        true
    }

    open spec fn from_spec(val: i8) -> Self {
        Value::Integer(val as i64)
    }
}

impl From<i16> for Value {
    fn from(val: i16) -> (r: Self) {
        Value::Integer(val as i64)
    }
}

impl vstd::std_specs::convert::FromSpecImpl<i16> for Value {
    open spec fn obeys_from_spec() -> bool {
        true
    }

    open spec fn from_spec(val: i16) -> Self {
        Value::Integer(val as i64)
    }
}

impl From<i32> for Value {
    fn from(val: i32) -> (r: Self) {
        Value::Integer(val as i64)
    }
}

impl vstd::std_specs::convert::FromSpecImpl<i32> for Value {
    open spec fn obeys_from_spec() -> bool {
        true
    }

    open spec fn from_spec(val: i32) -> Self {
        Value::Integer(val as i64)
    }
}

impl From<i64> for Value {
    fn from(val: i64) -> (r: Self) {
        Value::Integer(val)
    }
}

impl vstd::std_specs::convert::FromSpecImpl<i64> for Value {
    open spec fn obeys_from_spec() -> bool {
        true
    }

    open spec fn from_spec(val: i64) -> Self {
        Value::Integer(val)
    }
}

impl From<u8> for Value {
    fn from(val: u8) -> (r: Self) {
        Value::Integer(val as i64)
    }
}

impl vstd::std_specs::convert::FromSpecImpl<u8> for Value {
    open spec fn obeys_from_spec() -> bool {
        true
    }

    open spec fn from_spec(val: u8) -> Self {
        Value::Integer(val as i64)
    }
}

impl From<u16> for Value {
    fn from(val: u16) -> (r: Self) {
        Value::Integer(val as i64)
    }
}

impl vstd::std_specs::convert::FromSpecImpl<u16> for Value {
    open spec fn obeys_from_spec() -> bool {
        true
    }

    open spec fn from_spec(val: u16) -> Self {
        Value::Integer(val as i64)
    }
}

impl From<u32> for Value {
    fn from(val: u32) -> (r: Self) {
        Value::Integer(val as i64)
    }
}

impl vstd::std_specs::convert::FromSpecImpl<u32> for Value {
    open spec fn obeys_from_spec() -> bool {
        true
    }

    open spec fn from_spec(val: u32) -> Self {
        Value::Integer(val as i64)
    }
}

impl From<u64> for Value {
    fn from(val: u64) -> (r: Self) {
        Value::Integer(#[verifier::truncate] (val as i64))
    }
}

impl vstd::std_specs::convert::FromSpecImpl<u64> for Value {
    open spec fn obeys_from_spec() -> bool {
        true
    }

    open spec fn from_spec(val: u64) -> Self {
        Value::Integer(val as i64)
    }
}

/// Keys of an association list, seen as character sequences, are pairwise
/// distinct.
pub open spec fn keys_unique<V>(s: Seq<(String, V)>) -> bool {
    forall|i: int, j: int| 0 <= i < j < s.len() ==> (#[trigger] s[i]).0@ != (#[trigger] s[j]).0@
}

/// The finite map described by an association list; a later entry for the
/// same key wins.
pub open spec fn map_of<V: View>(s: Seq<(String, V)>) -> Map<Seq<char>, <V as View>::V>
    decreases s.len(),
{
    if s.len() == 0 {
        Map::empty()
    } else {
        map_of(s.drop_last()).insert(s.last().0@, s.last().1@)
    }
}

proof fn lemma_map_of_contains<V: View>(s: Seq<(String, V)>, k: Seq<char>)
    ensures
        map_of(s).contains_key(k) <==> exists|i: int|
            0 <= i < s.len() && (#[trigger] s[i]).0@ == k,
    decreases s.len(),
{
    if s.len() > 0 {
        lemma_map_of_contains(s.drop_last(), k);
        assert(forall|i: int| 0 <= i < s.len() - 1 ==> s.drop_last()[i] == s[i]);
        if s.last().0@ == k {
            assert(s[s.len() - 1].0@ == k);
        } else {
            if map_of(s).contains_key(k) {
                let i = choose|i: int| 0 <= i < s.drop_last().len() && (#[trigger] s.drop_last()[i]).0@ == k;
                assert(s[i].0@ == k);
            }
            if exists|i: int| 0 <= i < s.len() && (#[trigger] s[i]).0@ == k {
                let i = choose|i: int| 0 <= i < s.len() && (#[trigger] s[i]).0@ == k;
                assert(i < s.len() - 1);
                assert(s.drop_last()[i].0@ == k);
            }
        }
    }
}

proof fn lemma_map_of_get<V: View>(s: Seq<(String, V)>, i: int)
    requires
        keys_unique(s),
        0 <= i < s.len(),
    ensures
        map_of(s).contains_key(s[i].0@),
        map_of(s)[s[i].0@] == s[i].1@,
    decreases s.len(),
{
    if i < s.len() - 1 {
        assert(keys_unique(s.drop_last())) by {
            assert(forall|p: int| 0 <= p < s.len() - 1 ==> s.drop_last()[p] == s[p]);
        }
        assert(s.drop_last()[i] == s[i]);
        lemma_map_of_get(s.drop_last(), i);
        assert(s[i].0@ != s.last().0@);
    }
}

proof fn lemma_map_of_update<V: View>(s: Seq<(String, V)>, i: int, p: (String, V))
    requires
        keys_unique(s),
        0 <= i < s.len(),
        p.0@ == s[i].0@,
    ensures
        map_of(s.update(i, p)) == map_of(s).insert(p.0@, p.1@),
        keys_unique(s.update(i, p)),
    decreases s.len(),
{
    let t = s.update(i, p);
    assert(keys_unique(t)) by {
        assert(forall|q: int| 0 <= q < s.len() && q != i ==> t[q] == s[q]);
    }
    if i == s.len() - 1 {
        assert(t.drop_last() =~= s.drop_last());
        assert(t.last() == p);
        assert(map_of(t) == map_of(s.drop_last()).insert(p.0@, p.1@));
        assert(map_of(s.drop_last()).insert(s[i].0@, s[i].1@).insert(p.0@, p.1@) =~= map_of(
            s.drop_last(),
        ).insert(p.0@, p.1@));
    } else {
        assert(keys_unique(s.drop_last())) by {
            assert(forall|q: int| 0 <= q < s.len() - 1 ==> s.drop_last()[q] == s[q]);
        }
        assert(s.drop_last()[i] == s[i]);
        lemma_map_of_update(s.drop_last(), i, p);
        assert(t.drop_last() =~= s.drop_last().update(i, p));
        assert(t.last() == s.last());
        assert(s.last().0@ != p.0@);
        assert(map_of(s.drop_last()).insert(p.0@, p.1@).insert(s.last().0@, s.last().1@) =~= map_of(
            s.drop_last(),
        ).insert(s.last().0@, s.last().1@).insert(p.0@, p.1@));
    }
}

/// A mapping with `String` keys, stored as an association vector whose keys
/// stay pairwise distinct.
#[derive(Debug)]
pub struct StrMap<V> {
    pairs: Vec<(String, V)>,
}

impl<V: View> View for StrMap<V> {
    type V = Map<Seq<char>, <V as View>::V>;

    closed spec fn view(&self) -> Map<Seq<char>, <V as View>::V> {
        map_of(self.pairs@)
    }
}

impl<V> StrMap<V> {
    #[verifier::type_invariant]
    closed spec fn wf(self) -> bool {
        keys_unique(self.pairs@)
    }
}

impl<V: View> StrMap<V> {
    pub fn new() -> (r: Self)
        ensures
            r@ == Map::<Seq<char>, <V as View>::V>::empty(),
    {
        StrMap { pairs: Vec::new() }
    }

    /// Bind `key` to `value`, replacing any earlier binding of the key.
    pub fn insert(&mut self, key: String, value: V)
        ensures
            final(self)@ == old(self)@.insert(key@, value@),
    {
        proof {
            use_type_invariant(&*self);
        }
        let mut v: Vec<(String, V)> = Vec::new();
        core::mem::swap(&mut self.pairs, &mut v);
        let n = v.len();
        let mut idx: usize = n;
        let mut i: usize = 0;
        while i < n
            invariant
                n == v@.len(),
                i <= n,
                idx == n || (idx < n && v@[idx as int].0@ == key@),
                idx == n ==> forall|j: int| 0 <= j < i ==> (#[trigger] v@[j]).0@ != key@,
            decreases n - i,
        {
            if idx == n && str_eq(v[i].0.as_str(), key.as_str()) {
                idx = i;
            }
            i += 1;
        }
        if idx < n {
            proof {
                lemma_map_of_update(v@, idx as int, (key, value));
            }
            v[idx] = (key, value);
        } else {
            proof {
                assert(v@.push((key, value)).drop_last() =~= v@);
            }
            v.push((key, value));
        }
        self.pairs = v;
    }

    /// Look the key up.
    pub fn get(&self, key: &str) -> (r: Option<&V>)
        ensures
            match r {
                Some(v) => self@.contains_key(key@) && v@ == self@[key@],
                None => !self@.contains_key(key@),
            },
    {
        proof {
            use_type_invariant(self);
        }
        let n = self.pairs.len();
        let mut i: usize = 0;
        while i < n
            invariant
                n == self.pairs@.len(),
                i <= n,
                keys_unique(self.pairs@),
                self@ == map_of(self.pairs@),
                forall|j: int| 0 <= j < i ==> (#[trigger] self.pairs@[j]).0@ != key@,
            decreases n - i,
        {
            let pair = &self.pairs[i];
            if str_eq(pair.0.as_str(), key) {
                proof {
                    lemma_map_of_get(self.pairs@, i as int);
                }
                return Some(&pair.1);
            }
            i += 1;
        }
        proof {
            lemma_map_of_contains(self.pairs@, key@);
        }
        None
    }

    pub fn contains_key(&self, key: &str) -> (r: bool)
        ensures
            r == self@.contains_key(key@),
    {
        self.get(key).is_some()
    }

    /// The entries, in insertion order; meant for rendering, the map view is
    /// the authoritative contract.
    pub fn entries(&self) -> (r: &Vec<(String, V)>)
        ensures
            map_of(r@) == self@,
            keys_unique(r@),
            forall|i: int|
                0 <= i < r@.len() ==> self@.contains_key((#[trigger] r@[i]).0@) && self@[r@[i].0@]
                    == r@[i].1@,
    {
        proof {
            use_type_invariant(self);
            assert forall|i: int| 0 <= i < self.pairs@.len() implies self@.contains_key(
                (#[trigger] self.pairs@[i]).0@,
            ) && self@[self.pairs@[i].0@] == self.pairs@[i].1@ by {
                lemma_map_of_get(self.pairs@, i);
            }
        }
        &self.pairs
    }

    pub fn len(&self) -> (r: usize)
        ensures
            r == self@.dom().len(),
    {
        proof {
            use_type_invariant(self);
            lemma_map_of_len(self.pairs@);
        }
        self.pairs.len()
    }
}

proof fn lemma_map_of_len<V: View>(s: Seq<(String, V)>)
    requires
        keys_unique(s),
    ensures
        map_of(s).dom().finite(),
        map_of(s).dom().len() == s.len(),
    decreases s.len(),
{
    if s.len() > 0 {
        assert(keys_unique(s.drop_last())) by {
            assert(forall|p: int| 0 <= p < s.len() - 1 ==> s.drop_last()[p] == s[p]);
        }
        lemma_map_of_len(s.drop_last());
        lemma_map_of_contains(s.drop_last(), s.last().0@);
        assert(forall|i: int| 0 <= i < s.len() - 1 ==> s.drop_last()[i] == s[i]);
        assert(!map_of(s.drop_last()).contains_key(s.last().0@));
        vstd::set::axiom_set_insert_len(map_of(s.drop_last()).dom(), s.last().0@);
        assert(map_of(s).dom() =~= map_of(s.drop_last()).dom().insert(s.last().0@));
    }
}

/// One observation: a named, tagged, optionally timestamped set of fields.
///
/// A timestamp is a Unix time in seconds (UTC); a point without one is
/// stamped by the sink at delivery time.
#[derive(Debug)]
pub struct Point {
    pub name: String,
    pub tags: StrMap<String>,
    pub fields: StrMap<Value>,
    pub timestamp: Option<i64>,
}

/// The mathematical value of a `Point`.
pub struct PointView {
    pub name: Seq<char>,
    pub tags: Map<Seq<char>, Seq<char>>,
    pub fields: Map<Seq<char>, ValueView>,
    pub timestamp: Option<int>,
}

impl View for Point {
    type V = PointView;

    open spec fn view(&self) -> PointView {
        PointView {
            name: self.name@,
            tags: self.tags@,
            fields: self.fields@,
            timestamp: match self.timestamp {
                Some(t) => Some(t as int),
                None => None,
            },
        }
    }
}

impl Point {
    /// A point with no tags, no fields, and no timestamp.
    pub fn new(name: String) -> (r: Self)
        ensures
            r@.name == name@,
            r@.tags == Map::<Seq<char>, Seq<char>>::empty(),
            r@.fields == Map::<Seq<char>, ValueView>::empty(),
            r@.timestamp is None,
    {
        Point { name, tags: StrMap::new(), fields: StrMap::new(), timestamp: None }
    }

    pub fn builder(name: String) -> (r: PointBuilder)
        ensures
            r@.name == name@,
            r@.tags == Map::<Seq<char>, Seq<char>>::empty(),
            r@.fields == Map::<Seq<char>, ValueView>::empty(),
            r@.timestamp is None,
    {
        PointBuilder(Point::new(name))
    }
}

/// Accumulates tags, fields and a timestamp, then finalizes into a `Point`.
pub struct PointBuilder(Point);

impl View for PointBuilder {
    type V = PointView;

    closed spec fn view(&self) -> PointView {
        self.0@
    }
}

impl PointBuilder {
    pub fn tag(self, key: String, value: String) -> (r: Self)
        ensures
            r@.tags == self@.tags.insert(key@, value@),
            r@.name == self@.name,
            r@.fields == self@.fields,
            r@.timestamp == self@.timestamp,
    {
        let PointBuilder(mut p) = self;
        p.tags.insert(key, value);
        PointBuilder(p)
    }

    pub fn field(self, key: &str, value: Value) -> (r: Self)
        ensures
            r@.fields == self@.fields.insert(key@, value@),
            r@.name == self@.name,
            r@.tags == self@.tags,
            r@.timestamp == self@.timestamp,
    {
        let PointBuilder(mut p) = self;
        p.fields.insert(key.to_owned(), value);
        PointBuilder(p)
    }

    pub fn timestamp(self, ts: i64) -> (r: Self)
        ensures
            r@.timestamp == Some(ts as int),
            r@.name == self@.name,
            r@.tags == self@.tags,
            r@.fields == self@.fields,
    {
        let PointBuilder(mut p) = self;
        p.timestamp = Some(ts);
        PointBuilder(p)
    }

    pub fn build(self) -> (r: Point)
        ensures
            r@ == self@,
    {
        self.0
    }
}

/// The views of a batch of points.
pub open spec fn views_of_points(s: Seq<Point>) -> Seq<PointView> {
    s.map_values(|p: Point| p@)
}

/// An ordered batch of points.
#[derive(Debug)]
pub struct Points(pub Vec<Point>);

impl View for Points {
    type V = Seq<Point>;

    open spec fn view(&self) -> Seq<Point> {
        self.0@
    }
}

impl From<Vec<Point>> for Points {
    fn from(points: Vec<Point>) -> (r: Self) {
        Points(points)
    }
}

impl vstd::std_specs::convert::FromSpecImpl<Vec<Point>> for Points {
    open spec fn obeys_from_spec() -> bool {
        true
    }

    open spec fn from_spec(points: Vec<Point>) -> Self {
        Points(points)
    }
}

impl Points {
    pub fn new() -> (r: Self)
        ensures
            r@ == Seq::<Point>::empty(),
    {
        Points(Vec::new())
    }

    pub fn with_capacity(size: usize) -> (r: Self)
        ensures
            r@ == Seq::<Point>::empty(),
    {
        Points(Vec::with_capacity(size))
    }

    /// Append one point.
    pub fn add(&mut self, p: Point)
        ensures
            final(self)@ == old(self)@.push(p),
    {
        self.0.push(p)
    }

    /// Stamp every contained point with `key = value`, replacing an earlier
    /// value of the same tag key; names, fields and timestamps are untouched.
    pub fn tag_all(&mut self, key: &str, value: &str)
        ensures
            final(self)@.len() == old(self)@.len(),
            forall|i: int|
                0 <= i < old(self)@.len() ==> {
                    &&& (#[trigger] final(self)@[i])@.tags == old(self)@[i]@.tags.insert(
                        key@,
                        value@,
                    )
                    &&& final(self)@[i]@.name == old(self)@[i]@.name
                    &&& final(self)@[i]@.fields == old(self)@[i]@.fields
                    &&& final(self)@[i]@.timestamp == old(self)@[i]@.timestamp
                },
    {
        let ghost orig = self.0@;
        let mut out: Vec<Point> = Vec::with_capacity(self.0.len());
        while self.0.len() > 0
            invariant
                out@.len() + self.0@.len() == orig.len(),
                self.0@ =~= orig.skip(out@.len() as int),
                forall|i: int|
                    0 <= i < out@.len() ==> {
                        &&& (#[trigger] out@[i])@.tags == orig[i]@.tags.insert(key@, value@)
                        &&& out@[i]@.name == orig[i]@.name
                        &&& out@[i]@.fields == orig[i]@.fields
                        &&& out@[i]@.timestamp == orig[i]@.timestamp
                    },
            decreases self.0@.len(),
        {
            let ghost k = out@.len() as int;
            let mut p = self.0.remove(0);
            proof {
                assert(orig.skip(k)[0] == orig[k]);
                assert(orig.skip(k).remove(0) =~= orig.skip(k + 1));
            }
            p.tags.insert(key.to_owned(), value.to_owned());
            out.push(p);
        }
        self.0 = out;
    }

    /// Concatenate `other` onto the end, keeping both original orders.
    pub fn merge_with(&mut self, mut other: Points)
        ensures
            final(self)@ == old(self)@ + other@,
    {
        self.0.append(&mut other.0);
    }

    /// The contained points, in order.
    pub fn iter(&self) -> (r: &Vec<Point>)
        ensures
            r@ == self@,
    {
        &self.0
    }

    pub fn len(&self) -> (r: usize)
        ensures
            r == self@.len(),
    {
        self.0.len()
    }
}

} // verus!
