//! Parameters that the camera keeps over a restart: numbers and texts by key.

use vstd::prelude::*;

use crate::text_map::{KeyedList, TextMap};

verus! {

broadcast use vstd::string::group_string_axioms;

/// The value of a parameter.
#[derive(Debug)]
pub enum ParamValue {
    Int(i32),
    Text(String),
}

/// The value of a parameter, with a sequence for a text.
pub enum ValueView {
    Int(i32),
    Text(Seq<char>),
}

impl View for ParamValue {
    type V = ValueView;

    open spec fn view(&self) -> ValueView {
        match self {
            ParamValue::Int(n) => ValueView::Int(*n),
            ParamValue::Text(t) => ValueView::Text(t@),
        }
    }
}

/// A parameter by its key: one to write, or one to read with the value it has by
/// default.
#[derive(Debug)]
pub struct Param {
    pub key: String,
    pub value: ParamValue,
}

impl View for Param {
    type V = (Seq<char>, ValueView);

    open spec fn view(&self) -> (Seq<char>, ValueView) {
        (self.key@, self.value@)
    }
}

/// The views of parameters.
pub open spec fn param_views(params: Seq<Param>) -> Seq<(Seq<char>, ValueView)> {
    params.map_values(|p: Param| p@)
}

/// The parameters and what is to be written of them.
pub struct ParamStore {
    ints: KeyedList<i32>,
    texts: TextMap,
    writes: Vec<Param>,
}

/// The same with maps and sequences.
pub struct StoreView {
    pub ints: Map<Seq<char>, i32>,
    pub texts: Map<Seq<char>, Seq<char>>,
    /// What was set and is still to be written, in order.
    pub writes: Seq<(Seq<char>, ValueView)>,
}

impl View for ParamStore {
    type V = StoreView;

    closed spec fn view(&self) -> StoreView {
        StoreView {
            ints: self.ints@,
            texts: self.texts@,
            writes: param_views(self.writes@),
        }
    }
}

/// The number at a key.
pub open spec fn int_at(s: StoreView, key: Seq<char>, default: i32) -> i32 {
    if s.ints.contains_key(key) {
        s.ints[key]
    } else {
        default
    }
}

/// The text at a key.
pub open spec fn text_at(s: StoreView, key: Seq<char>, default: Seq<char>) -> Seq<char> {
    if s.texts.contains_key(key) {
        s.texts[key]
    } else {
        default
    }
}

/// The parameters with a number set.
pub open spec fn int_set(s: StoreView, key: Seq<char>, value: i32) -> StoreView {
    StoreView {
        ints: s.ints.insert(key, value),
        writes: s.writes.push((key, ValueView::Int(value))),
        ..s
    }
}

/// The parameters with a text set.
pub open spec fn text_set(s: StoreView, key: Seq<char>, value: Seq<char>) -> StoreView {
    StoreView {
        texts: s.texts.insert(key, value),
        writes: s.writes.push((key, ValueView::Text(value))),
        ..s
    }
}

impl ParamStore {
    /// No parameters.
    pub fn new() -> (r: ParamStore)
        ensures
            r@ == (StoreView { ints: Map::empty(), texts: Map::empty(), writes: seq![] }),
    {
        let r = ParamStore { ints: KeyedList::new(), texts: TextMap::new(), writes: Vec::new() };
        assert(param_views(r.writes@) =~= seq![]);
        r
    }

    /// Takes in a parameter as it was read; nothing is to be written.
    pub fn load(&mut self, param: Param)
        ensures
            final(self)@ == match param@.1 {
                ValueView::Int(n) => StoreView {
                    ints: old(self)@.ints.insert(param@.0, n),
                    ..old(self)@
                },
                ValueView::Text(t) => StoreView {
                    texts: old(self)@.texts.insert(param@.0, t),
                    ..old(self)@
                },
            },
    {
        match param.value {
            ParamValue::Int(n) => {
                self.ints.insert(param.key.as_str(), n);
            },
            ParamValue::Text(t) => {
                self.texts.insert(param.key.as_str(), t.as_str());
            },
        }
    }

    /// The number at a key.
    pub fn get_int(&self, key: &str, default: i32) -> (r: i32)
        ensures
            r == int_at(self@, key@, default),
    {
        match self.ints.get(key) {
            Some(n) => *n,
            None => default,
        }
    }

    /// The text at a key.
    pub fn get_text(&self, key: &str, default: &str) -> (r: String)
        ensures
            r@ == text_at(self@, key@, default@),
    {
        match self.texts.get(key) {
            Some(t) => t.to_owned(),
            None => default.to_owned(),
        }
    }

    /// Sets a number.
    pub fn set_int(&mut self, key: &str, value: i32)
        ensures
            final(self)@ == int_set(old(self)@, key@, value),
    {
        let ghost written = self.writes@;
        self.ints.insert(key, value);
        self.writes.push(Param { key: key.to_owned(), value: ParamValue::Int(value) });
        assert(param_views(self.writes@) =~= param_views(written).push(
            (key@, ValueView::Int(value)),
        ));
    }

    /// Sets a text.
    pub fn set_text(&mut self, key: &str, value: &str)
        ensures
            final(self)@ == text_set(old(self)@, key@, value@),
    {
        let ghost written = self.writes@;
        self.texts.insert(key, value);
        self.writes.push(Param { key: key.to_owned(), value: ParamValue::Text(value.to_owned()) });
        assert(param_views(self.writes@) =~= param_views(written).push(
            (key@, ValueView::Text(value@)),
        ));
    }

    /// Hands out what is to be written.
    pub fn take_writes(&mut self) -> (r: Vec<Param>)
        ensures
            param_views(r@) == old(self)@.writes,
            final(self)@ == (StoreView { writes: seq![], ..old(self)@ }),
    {
        let mut writes: Vec<Param> = Vec::new();
        core::mem::swap(&mut writes, &mut self.writes);
        assert(param_views(self.writes@) =~= seq![]);
        writes
    }
}

/// A number of 32 bits with a sign that has the same bits.
pub open spec fn same_bits(n: u32) -> i32 {
    if n <= i32::MAX {
        n as i32
    } else {
        (n - 0x1_0000_0000) as i32
    }
}

/// The number without a sign that has the same bits.
pub open spec fn without_sign(n: i32) -> u32 {
    if n >= 0 {
        n as u32
    } else {
        (n + 0x1_0000_0000) as u32
    }
}

/// The number of 32 bits with a sign that has the same bits.
pub fn to_signed(n: u32) -> (r: i32)
    ensures
        r == same_bits(n),
{
    if n <= 0x7fff_ffff {
        n as i32
    } else {
        -((0xffff_ffff - n) as i32) - 1
    }
}

/// The number without a sign that has the same bits.
pub fn to_unsigned(n: i32) -> (r: u32)
    ensures
        r == without_sign(n),
{
    if n >= 0 {
        n as u32
    } else {
        0xffff_ffff - (-(n + 1)) as u32
    }
}

/// What is stored under a key is read back under it, whatever the default; other keys,
/// and texts under the same key, keep what they had. Each change is noted for the disk,
/// behind those before it.
pub proof fn law_number_set_then_get(
    s: StoreView,
    key: Seq<char>,
    value: i32,
    other: Seq<char>,
    default: i32,
    text_default: Seq<char>,
)
    ensures
        int_at(int_set(s, key, value), key, default) == value,
        other != key ==> int_at(int_set(s, key, value), other, default) == int_at(
            s,
            other,
            default,
        ),
        text_at(int_set(s, key, value), other, text_default) == text_at(s, other, text_default),
        int_set(s, key, value).writes == s.writes.push((key, ValueView::Int(value))),
        !s.ints.contains_key(key) ==> int_at(s, key, default) == default,
{
}

/// The same of texts.
pub proof fn law_text_set_then_get(
    s: StoreView,
    key: Seq<char>,
    value: Seq<char>,
    other: Seq<char>,
    default: i32,
    text_default: Seq<char>,
)
    ensures
        text_at(text_set(s, key, value), key, text_default) == value,
        other != key ==> text_at(text_set(s, key, value), other, text_default) == text_at(
            s,
            other,
            text_default,
        ),
        int_at(text_set(s, key, value), other, default) == int_at(s, other, default),
        text_set(s, key, value).writes == s.writes.push((key, ValueView::Text(value))),
        !s.texts.contains_key(key) ==> text_at(s, key, text_default) == text_default,
{
}

/// A number keeps its bits when it is stored with a sign: it is read back as it was, and
/// stays the same number where it fits.
pub proof fn law_signs_keep_bits(n: u32, m: i32)
    ensures
        without_sign(same_bits(n)) == n,
        same_bits(without_sign(m)) == m,
        n < 0x8000_0000 ==> same_bits(n) == n,
        n >= 0x8000_0000 ==> same_bits(n) == n - 0x1_0000_0000,
{
}

} // verus!
