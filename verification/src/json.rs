//! JSON values, as the AWS command line prints and takes them.

use vstd::prelude::*;

use crate::numeral;
use crate::numeral::parse_u64;
use crate::text;
use crate::text::{chars_of, owned, str_eq};

verus! {

/// A JSON value. A number is kept as it was read; the members of an object come
/// in the order in which they were given.
pub enum Json {
    Null,
    Bool(bool),
    Number(serde_json::Number),
    Text(String),
    Array(Vec<Json>),
    Object(Vec<(String, Json)>),
}

/// What a JSON value is, apart from how it is stored; a number is given by what
/// is printed of it.
pub enum JsonV {
    Null,
    Bool(bool),
    Number(Seq<char>),
    Text(Seq<char>),
    Array(Seq<JsonV>),
    Object(Seq<(Seq<char>, JsonV)>),
}

impl View for Json {
    type V = JsonV;

    open spec fn view(&self) -> JsonV {
        json_view(*self)
    }
}

pub open spec fn json_view(j: Json) -> JsonV
    decreases j,
{
    match j {
        Json::Null => JsonV::Null,
        Json::Bool(b) => JsonV::Bool(b),
        Json::Number(n) => JsonV::Number(number_words(n)),
        Json::Text(s) => JsonV::Text(s@),
        Json::Array(a) => JsonV::Array(
            Seq::new(
                a@.len(),
                |i: int|
                    if 0 <= i < a@.len() {
                        json_view(a@[i])
                    } else {
                        JsonV::Null
                    },
            ),
        ),
        Json::Object(m) => JsonV::Object(
            Seq::new(
                m@.len(),
                |i: int|
                    if 0 <= i < m@.len() {
                        (m@[i].0@, json_view(m@[i].1))
                    } else {
                        (Seq::empty(), JsonV::Null)
                    },
            ),
        ),
    }
}

/// `serde_json::Number`.
#[verifier::external_type_specification]
#[verifier::external_body]
pub struct ExNumber(serde_json::Number);

/// What is printed of a `serde_json::Number`.
pub uninterp spec fn number_words(n: serde_json::Number) -> Seq<char>;

/// The `Display` of `serde_json::Number`: the digits of a whole number, or the
/// shortest text of one with a fraction. Which text that is is the crate's own
/// affair; the same number is always printed alike.
#[verifier::external_body]
pub(crate) fn number_text(n: &serde_json::Number) -> (r: String)
    ensures
        r@ == number_words(*n),
{
    n.to_string()
}

/// The `Clone` of `serde_json::Number`: the same number again.
#[verifier::external_body]
fn same_number(n: &serde_json::Number) -> (r: serde_json::Number)
    ensures
        r == *n,
{
    n.clone()
}

/// `serde_json::Value`.
#[verifier::external_type_specification]
#[verifier::external_body]
pub struct ExValue(serde_json::Value);

/// What a `serde_json::Value` holds: a number is given by what is printed of it,
/// and the members of an object come in the order in which the value walks
/// them.
pub uninterp spec fn value_view(v: serde_json::Value) -> JsonV;

/// A `serde_json::Value` in the form that the library reads: variant by variant,
/// with the same contents. Its objects hold their members by name, one for each
/// name, at every depth.
#[verifier::external_body]
fn json_of(v: serde_json::Value) -> (r: Json)
    ensures
        r@ == value_view(v),
        settled(r@),
{
    match v {
        serde_json::Value::Null => Json::Null,
        serde_json::Value::Bool(b) => Json::Bool(b),
        serde_json::Value::Number(n) => Json::Number(n),
        serde_json::Value::String(s) => Json::Text(s),
        serde_json::Value::Array(a) => Json::Array(a.into_iter().map(json_of).collect()),
        serde_json::Value::Object(m) => Json::Object(
            m.into_iter().map(|(k, x)| (k, json_of(x))).collect(),
        ),
    }
}

/// The contents of a result with a value or an error text.
pub open spec fn result_view(r: Result<Json, String>) -> Result<JsonV, Seq<char>> {
    match r {
        Ok(v) => Ok(v@),
        Err(e) => Err(e@),
    }
}

/// What `serde_json::from_str` makes of a text: a value, or the words of an
/// error where the text is no JSON.
pub uninterp spec fn json_from_str(text: Seq<char>) -> Result<JsonV, Seq<char>>;

/// `serde_json::from_str` into a `serde_json::Value`: the value that the text
/// stands for, or the words of the error where the text is no JSON. Which text
/// stands for which value is the crate's own affair; the same text always
/// gives the same.
#[verifier::external_body]
fn parse_value(text: &str) -> (r: Result<serde_json::Value, String>)
    ensures
        match r {
            Ok(v) => json_from_str(text@) == Ok::<JsonV, Seq<char>>(value_view(v)),
            Err(e) => json_from_str(text@) == Err::<JsonV, Seq<char>>(e@),
        },
{
    serde_json::from_str(text).map_err(|e| e.to_string())
}

/// Reads a text.
pub fn read_json(text: &str) -> (r: Result<Json, String>)
    ensures
        result_view(r) == json_from_str(text@),
        r matches Ok(v) ==> settled(v@),
{
    match parse_value(text) {
        Ok(v) => Ok(json_of(v)),
        Err(e) => Err(e),
    }
}

/// The value that a text stands for, if the text is JSON.
pub open spec fn json_in_text(text: Seq<char>) -> Option<JsonV> {
    match json_from_str(text) {
        Ok(v) => Some(v),
        Err(_) => None,
    }
}

/// Reads a text, if it is JSON.
pub fn parse_json(text: &str) -> (r: Option<Json>)
    ensures
        match r {
            Some(j) => json_in_text(text@) == Some(j@) && settled(j@),
            None => json_in_text(text@) is None,
        },
{
    match read_json(text) {
        Ok(v) => Some(v),
        Err(_) => None,
    }
}

/// How many of the first members of an object have names in front of `k`.
pub open spec fn place_of(s: Seq<(Seq<char>, JsonV)>, k: Seq<char>) -> int
    decreases s.len(),
{
    if s.len() == 0 || !text::before(s[0].0, k) {
        0
    } else {
        1 + place_of(s.drop_first(), k)
    }
}

/// An object whose members come by name, with the member `k` set to `x`: in its
/// place where there is one, else where its name belongs.
pub open spec fn filed(s: Seq<(Seq<char>, JsonV)>, k: Seq<char>, x: JsonV) -> Seq<(Seq<char>, JsonV)> {
    if find(s, k) >= 0 {
        s.update(find(s, k), (k, x))
    } else {
        s.insert(place_of(s, k), (k, x))
    }
}

/// A value with the members of its objects by name, one for each name, at every
/// depth. All else stays as it is.
pub open spec fn as_value(j: JsonV) -> JsonV
    decreases j,
{
    match j {
        JsonV::Array(a) => JsonV::Array(
            Seq::new(
                a.len(),
                |i: int|
                    if 0 <= i < a.len() {
                        as_value(a[i])
                    } else {
                        JsonV::Null
                    },
            ),
        ),
        JsonV::Object(m) => JsonV::Object(by_name(m)),
        _ => j,
    }
}

/// The members of an object by name, and one for each name: the last one.
pub open spec fn by_name(m: Seq<(Seq<char>, JsonV)>) -> Seq<(Seq<char>, JsonV)>
    decreases m,
{
    if m.len() == 0 {
        m
    } else {
        filed(by_name(m.drop_last()), m.last().0, as_value(m.last().1))
    }
}

/// The objects of a value hold their members by name, one for each name, at
/// every depth: as every value does that was read.
pub open spec fn settled(v: JsonV) -> bool {
    as_value(v) == v
}

/// A value of the library as a `serde_json::Value`, variant by variant, with the
/// same numbers. `serde_json::Map` keeps the members of an object by name, and of
/// several with one name the last.
#[verifier::external_body]
fn value_of(j: &Json) -> (r: serde_json::Value)
    ensures
        value_view(r) == as_value(j@),
{
    match j {
        Json::Null => serde_json::Value::Null,
        Json::Bool(b) => serde_json::Value::Bool(*b),
        Json::Number(n) => serde_json::Value::Number(n.clone()),
        Json::Text(s) => serde_json::Value::String(s.clone()),
        Json::Array(a) => serde_json::Value::Array(a.iter().map(value_of).collect()),
        Json::Object(m) => serde_json::Value::Object(
            m.iter().map(|(k, x)| (k.clone(), value_of(x))).collect(),
        ),
    }
}

/// What `serde_json::to_string` makes of a value.
pub uninterp spec fn json_to_str(value: JsonV) -> Seq<char>;

/// `serde_json::to_string` of a `serde_json::Value`, which never fails. How a
/// value is written is the crate's own affair; the same value is always
/// written alike.
#[verifier::external_body]
fn print_value(v: &serde_json::Value) -> (r: String)
    ensures
        r@ == json_to_str(value_view(*v)),
{
    serde_json::to_string(v).unwrap_or_default()
}

/// A value for `serde_json`.
pub fn to_value(j: &Json) -> (r: serde_json::Value)
    ensures
        value_view(r) == as_value(j@),
{
    value_of(j)
}

/// A value of `serde_json`.
pub fn from_value(v: serde_json::Value) -> (r: Json)
    ensures
        r@ == value_view(v),
        settled(r@),
{
    json_of(v)
}

/// Writes a value.
pub fn json_text(j: &Json) -> (r: String)
    ensures
        r@ == json_to_str(as_value(j@)),
{
    print_value(&value_of(j))
}

/// The members of an object, by their views.
pub open spec fn members_view(m: Seq<(String, Json)>) -> Seq<(Seq<char>, JsonV)> {
    Seq::new(m.len(), |i: int| (m[i].0@, m[i].1@))
}

/// The elements of an array, by their views.
pub open spec fn elements_view(a: Seq<Json>) -> Seq<JsonV> {
    Seq::new(a.len(), |i: int| a[i]@)
}

pub proof fn lemma_object_view(m: Vec<(String, Json)>)
    ensures
        (Json::Object(m))@ == JsonV::Object(members_view(m@)),
{
    let v = (Json::Object(m))@;
    assert(v->Object_0 =~= members_view(m@));
}

pub proof fn lemma_array_view(a: Vec<Json>)
    ensures
        (Json::Array(a))@ == JsonV::Array(elements_view(a@)),
{
    let v = (Json::Array(a))@;
    assert(v->Array_0 =~= elements_view(a@));
}

/// The place of the first member named `k`, or -1.
pub open spec fn find(m: Seq<(Seq<char>, JsonV)>, k: Seq<char>) -> int
    decreases m.len(),
{
    if m.len() == 0 {
        -1
    } else if m[0].0 == k {
        0
    } else {
        let r = find(m.drop_first(), k);
        if r < 0 {
            -1
        } else {
            r + 1
        }
    }
}

proof fn lemma_find_at(m: Seq<(Seq<char>, JsonV)>, k: Seq<char>, i: int)
    requires
        0 <= i <= m.len(),
        forall|j: int| 0 <= j < i ==> (#[trigger] m[j]).0 != k,
        i < m.len() ==> m[i].0 == k,
    ensures
        find(m, k) == if i < m.len() {
            i
        } else {
            -1
        },
    decreases m.len(),
{
    if m.len() > 0 && i > 0 {
        let t = m.drop_first();
        assert forall|j: int| 0 <= j < i - 1 implies (#[trigger] t[j]).0 != k by {
            assert(m[j + 1].0 != k);
        }
        lemma_find_at(t, k, i - 1);
    }
}

proof fn lemma_find(m: Seq<(Seq<char>, JsonV)>, k: Seq<char>)
    ensures
        -1 <= find(m, k) < m.len(),
        find(m, k) >= 0 ==> m[find(m, k)].0 == k,
        find(m, k) < 0 ==> forall|j: int| 0 <= j < m.len() ==> (#[trigger] m[j]).0 != k,
        forall|j: int| 0 <= j < find(m, k) ==> (#[trigger] m[j]).0 != k,
    decreases m.len(),
{
    if m.len() > 0 && m[0].0 != k {
        let t = m.drop_first();
        lemma_find(t, k);
        assert forall|j: int| 0 <= j < m.len() && (find(m, k) < 0 || j < find(m, k)) implies (#[trigger] m[j]).0
            != k by {
            if j > 0 {
                assert(t[j - 1].0 != k);
            }
        }
    }
}

/// The member `k` of a value: there is none where the value is no object.
pub open spec fn member(v: JsonV, k: Seq<char>) -> Option<JsonV> {
    match v {
        JsonV::Object(m) => if find(m, k) >= 0 {
            Some(m[find(m, k)].1)
        } else {
            None
        },
        _ => None,
    }
}

/// The text of a value that is a text.
pub open spec fn text_in(v: JsonV) -> Option<Seq<char>> {
    match v {
        JsonV::Text(s) => Some(s),
        _ => None,
    }
}

/// The text of the member `k`.
pub open spec fn text_member(v: JsonV, k: Seq<char>) -> Option<Seq<char>> {
    match member(v, k) {
        Some(x) => text_in(x),
        None => None,
    }
}

/// The number in a value that is a whole number from 0 up and fits an
/// unsigned word: its digits stand there without a sign.
pub open spec fn count_in(v: JsonV) -> Option<nat> {
    match v {
        JsonV::Number(n) => if n.len() > 0 && n[0] != '+' {
            numeral::parsed_unsigned(n, u64::MAX as nat)
        } else {
            None
        },
        _ => None,
    }
}

/// The number of the member `k`.
pub open spec fn count_member(v: JsonV, k: Seq<char>) -> Option<nat> {
    match member(v, k) {
        Some(x) => count_in(x),
        None => None,
    }
}

/// The elements of a value that is an array.
pub open spec fn elements_in(v: JsonV) -> Option<Seq<JsonV>> {
    match v {
        JsonV::Array(a) => Some(a),
        _ => None,
    }
}

/// The elements of the member `k`.
pub open spec fn array_member(v: JsonV, k: Seq<char>) -> Option<Seq<JsonV>> {
    match member(v, k) {
        Some(x) => elements_in(x),
        None => None,
    }
}

/// The text of the member `inner` of the member `k`.
pub open spec fn inner_text(v: JsonV, k: Seq<char>, inner: Seq<char>) -> Option<Seq<char>> {
    match member(v, k) {
        Some(x) => text_member(x, inner),
        None => None,
    }
}

/// The text of the member `k`, or `default` where there is none.
pub open spec fn text_member_or(v: JsonV, k: Seq<char>, default: Seq<char>) -> Seq<char> {
    match text_member(v, k) {
        Some(s) => s,
        None => default,
    }
}

/// The object with the member `k` set to `x`: in its place where there is one,
/// else at the end.
pub open spec fn with_member(m: Seq<(Seq<char>, JsonV)>, k: Seq<char>, x: JsonV) -> Seq<(Seq<char>, JsonV)> {
    if find(m, k) >= 0 {
        m.update(find(m, k), (k, x))
    } else {
        m.push((k, x))
    }
}

/// The object without the members named `k`.
pub open spec fn without_member(m: Seq<(Seq<char>, JsonV)>, k: Seq<char>) -> Seq<(Seq<char>, JsonV)>
    decreases m.len(),
{
    if m.len() == 0 {
        m
    } else if m[0].0 == k {
        without_member(m.drop_first(), k)
    } else {
        seq![m[0]] + without_member(m.drop_first(), k)
    }
}

fn find_exec(m: &Vec<(String, Json)>, k: &str) -> (r: usize)
    ensures
        r <= m.len(),
        find(members_view(m@), k@) == if r < m.len() {
            r as int
        } else {
            -1
        },
{
    let mut i: usize = 0;
    while i < m.len()
        invariant
            i <= m.len(),
            forall|j: int| 0 <= j < i ==> (#[trigger] members_view(m@)[j]).0 != k@,
        decreases m.len() - i,
    {
        assert(members_view(m@)[i as int].0 == m@[i as int].0@);
        if str_eq(m[i].0.as_str(), k) {
            proof {
                lemma_find_at(members_view(m@), k@, i as int);
            }
            return i;
        }
        i = i + 1;
    }
    proof {
        lemma_find_at(members_view(m@), k@, i as int);
    }
    i
}

impl Json {
    /// The member `k`, as `serde_json::Value::get` finds it.
    pub fn get(&self, k: &str) -> (r: Option<&Json>)
        ensures
            match r {
                Some(x) => member(self@, k@) == Some(x@),
                None => member(self@, k@) is None,
            },
    {
        match self {
            Json::Object(m) => {
                proof {
                    lemma_object_view(*m);
                }
                let i = find_exec(m, k);
                if i < m.len() {
                    Some(&m[i].1)
                } else {
                    None
                }
            },
            _ => None,
        }
    }

    /// The text of a value that is a text.
    pub fn as_text(&self) -> (r: Option<&str>)
        ensures
            text::opt_str_view(r) == text_in(self@),
    {
        match self {
            Json::Text(s) => Some(s.as_str()),
            _ => None,
        }
    }

    /// The text of the member `k`.
    pub fn text_at(&self, k: &str) -> (r: Option<String>)
        ensures
            text::opt_view(r) == text_member(self@, k@),
    {
        match self.get(k) {
            Some(x) => match x.as_text() {
                Some(s) => Some(owned(s)),
                None => None,
            },
            None => None,
        }
    }

    /// The number in a value that is a whole number from 0 up.
    pub fn as_count(&self) -> (r: Option<u64>)
        ensures
            match count_in(self@) {
                Some(n) => r == Some(n as u64) && n <= u64::MAX,
                None => r is None,
            },
    {
        match self {
            Json::Number(n) => {
                let words = number_text(n);
                let v = chars_of(words.as_str());
                if v.len() > 0 && v[0] != '+' {
                    parse_u64(words.as_str())
                } else {
                    None
                }
            },
            _ => None,
        }
    }

    /// The number of the member `k`.
    pub fn count_at(&self, k: &str) -> (r: Option<u64>)
        ensures
            match count_member(self@, k@) {
                Some(n) => r == Some(n as u64) && n <= u64::MAX,
                None => r is None,
            },
    {
        match self.get(k) {
            Some(x) => x.as_count(),
            None => None,
        }
    }

    /// The elements of the member `k`, if it is an array.
    pub fn array_at(&self, k: &str) -> (r: Option<&Vec<Json>>)
        ensures
            match r {
                Some(a) => array_member(self@, k@) == Some(elements_view(a@)),
                None => array_member(self@, k@) is None,
            },
    {
        match self.get(k) {
            Some(x) => match x {
                Json::Array(a) => {
                    proof {
                        lemma_array_view(*a);
                    }
                    Some(a)
                },
                _ => None,
            },
            None => None,
        }
    }

    /// The text of the member `inner` of the member `k`.
    pub fn inner_text_at(&self, k: &str, inner: &str) -> (r: Option<String>)
        ensures
            text::opt_view(r) == inner_text(self@, k@, inner@),
    {
        match self.get(k) {
            Some(x) => x.text_at(inner),
            None => None,
        }
    }

    /// The text of the member `k`, or `default` where there is none.
    pub fn text_or(&self, k: &str, default: &str) -> (r: String)
        ensures
            r@ == text_member_or(self@, k@, default@),
    {
        match self.text_at(k) {
            Some(s) => s,
            None => owned(default),
        }
    }

    /// The same value again.
    pub fn copy(&self) -> (r: Json)
        ensures
            r@ == self@,
        decreases self,
    {
        match self {
            Json::Null => Json::Null,
            Json::Bool(b) => Json::Bool(*b),
            Json::Number(n) => Json::Number(same_number(n)),
            Json::Text(s) => Json::Text(s.clone()),
            Json::Array(a) => {
                let mut out: Vec<Json> = Vec::new();
                let mut i: usize = 0;
                while i < a.len()
                    invariant
                        i <= a.len(),
                        *self == Json::Array(*a),
                        out.len() == i,
                        forall|j: int| 0 <= j < i ==> (#[trigger] out@[j])@ == a@[j]@,
                    decreases a.len() - i,
                {
                    assert(decreases_to!(*self => self->Array_0));
                    assert(decreases_to!(self->Array_0 => self->Array_0@));
                    assert(decreases_to!(a@ => a@[i as int]));
                    let x = a[i].copy();
                    out.push(x);
                    i = i + 1;
                }
                proof {
                    assert(elements_view(out@) =~= elements_view(a@));
                    lemma_array_view(*a);
                    lemma_array_view(out);
                }
                Json::Array(out)
            },
            Json::Object(m) => {
                let mut out: Vec<(String, Json)> = Vec::new();
                let mut i: usize = 0;
                while i < m.len()
                    invariant
                        i <= m.len(),
                        *self == Json::Object(*m),
                        out.len() == i,
                        forall|j: int|
                            0 <= j < i ==> (#[trigger] out@[j]).0@ == m@[j].0@ && out@[j].1@ == m@[j].1@,
                    decreases m.len() - i,
                {
                    assert(decreases_to!(*self => self->Object_0));
                    assert(decreases_to!(self->Object_0 => self->Object_0@));
                    assert(decreases_to!(m@ => m@[i as int]));
                    assert(decreases_to!(m@[i as int] => m@[i as int].1));
                    let x = m[i].1.copy();
                    out.push((m[i].0.clone(), x));
                    i = i + 1;
                }
                proof {
                    assert(members_view(out@) =~= members_view(m@));
                    lemma_object_view(*m);
                    lemma_object_view(out);
                }
                Json::Object(out)
            },
        }
    }
}

/// Sets the member `k` of an object to `x`.
pub fn set_member(m: &mut Vec<(String, Json)>, k: &str, x: Json)
    ensures
        members_view(final(m)@) == with_member(members_view(old(m)@), k@, x@),
{
    let i = find_exec(m, k);
    let ghost before = members_view(m@);
    if i < m.len() {
        let _ = m.remove(i);
        m.insert(i, (owned(k), x));
        assert(members_view(m@) =~= before.update(i as int, (k@, x@)));
    } else {
        m.push((owned(k), x));
        assert(members_view(m@) =~= before.push((k@, x@)));
    }
}

/// Takes the members named `k` of an object away.
pub fn remove_member(m: &mut Vec<(String, Json)>, k: &str)
    ensures
        members_view(final(m)@) == without_member(members_view(old(m)@), k@),
{
    let ghost all = members_view(m@);
    let mut i: usize = 0;
    assert(all.skip(0) =~= all);
    assert(all.take(0) + without_member(all, k@) =~= without_member(all, k@));
    while i < m.len()
        invariant
            i <= m.len(),
            without_member(all, k@) == members_view(m@).take(i as int) + without_member(
                members_view(m@).skip(i as int),
                k@,
            ),
        decreases m.len() - i,
    {
        let ghost now = members_view(m@);
        let ghost rest = now.skip(i as int);
        assert(rest[0] == now[i as int]);
        assert(rest.drop_first() =~= now.skip(i + 1));
        if str_eq(m[i].0.as_str(), k) {
            let _ = m.remove(i);
            assert(members_view(m@) =~= now.remove(i as int));
            assert(members_view(m@).take(i as int) =~= now.take(i as int));
            assert(members_view(m@).skip(i as int) =~= now.skip(i + 1));
        } else {
            assert(now.take(i + 1) + without_member(now.skip(i + 1), k@) =~= now.take(i as int) + (
            seq![now[i as int]] + without_member(now.skip(i + 1), k@)));
            i = i + 1;
        }
    }
    assert(members_view(m@).skip(i as int) =~= Seq::empty());
    assert(members_view(m@).take(i as int) + Seq::empty() =~= members_view(m@));
}

/// No member's name occurs twice.
pub open spec fn distinct_members(m: Seq<(Seq<char>, JsonV)>) -> bool {
    forall|i: int, j: int| 0 <= i < j < m.len() ==> (#[trigger] m[i]).0 != (#[trigger] m[j]).0
}

/// Setting a member sets that member and leaves every other as it is.
pub proof fn law_with_member(m: Seq<(Seq<char>, JsonV)>, k: Seq<char>, x: JsonV, other: Seq<char>)
    ensures
        member(JsonV::Object(with_member(m, k, x)), k) == Some(x),
        other != k ==> member(JsonV::Object(with_member(m, k, x)), other) == member(
            JsonV::Object(m),
            other,
        ),
{
    let w = with_member(m, k, x);
    lemma_find(m, k);
    lemma_find(m, other);
    if find(m, k) >= 0 {
        let i = find(m, k);
        assert(forall|j: int| 0 <= j < i ==> (#[trigger] w[j]).0 == m[j].0);
        lemma_find_at(w, k, i);
    } else {
        assert(forall|j: int| 0 <= j < m.len() ==> (#[trigger] w[j]).0 == m[j].0);
        lemma_find_at(w, k, m.len() as int);
    }
    if other != k {
        let o = if find(m, other) >= 0 {
            find(m, other)
        } else {
            w.len() as int
        };
        assert forall|j: int| 0 <= j < o && j < w.len() implies (#[trigger] w[j]).0 != other by {
            if j < m.len() {
                assert(m[j].0 != other);
            }
        }
        lemma_find_at(w, other, o);
    }
}

proof fn lemma_member_first(h: (Seq<char>, JsonV), t: Seq<(Seq<char>, JsonV)>, k: Seq<char>)
    ensures
        member(JsonV::Object(seq![h] + t), k) == if h.0 == k {
            Some(h.1)
        } else {
            member(JsonV::Object(t), k)
        },
{
    let m = seq![h] + t;
    assert(m.drop_first() =~= t);
    lemma_find(t, k);
}

/// Taking a member away leaves every other as it is, and the member is gone.
pub proof fn law_without_member(m: Seq<(Seq<char>, JsonV)>, k: Seq<char>, other: Seq<char>)
    ensures
        other != k ==> member(JsonV::Object(without_member(m, k)), other) == member(
            JsonV::Object(m),
            other,
        ),
        member(JsonV::Object(without_member(m, k)), k) is None,
    decreases m.len(),
{
    if m.len() > 0 {
        let t = m.drop_first();
        law_without_member(t, k, other);
        assert(m =~= seq![m[0]] + t);
        lemma_member_first(m[0], t, other);
        lemma_member_first(m[0], without_member(t, k), other);
        lemma_member_first(m[0], without_member(t, k), k);
    }
}

proof fn lemma_without_names(m: Seq<(Seq<char>, JsonV)>, k: Seq<char>)
    ensures
        distinct_members(m) ==> distinct_members(without_member(m, k)),
        forall|o: Seq<char>| find(m, o) < 0 ==> #[trigger] find(without_member(m, k), o) < 0,
    decreases m.len(),
{
    if m.len() > 0 {
        let t = m.drop_first();
        let w = without_member(t, k);
        lemma_without_names(t, k);
        assert(m =~= seq![m[0]] + t);
        if distinct_members(m) {
            assert forall|i: int, j: int| 0 <= i < j < t.len() implies (#[trigger] t[i]).0 != (#[trigger] t[j]).0 by {
                assert(m[i + 1].0 != m[j + 1].0);
            }
            assert forall|j: int| 0 <= j < t.len() implies (#[trigger] t[j]).0 != m[0].0 by {
                assert(m[j + 1].0 != m[0].0);
            }
            lemma_find(t, m[0].0);
            lemma_find(w, m[0].0);
            let r = seq![m[0]] + w;
            assert forall|i: int, j: int| 0 <= i < j < r.len() implies (#[trigger] r[i]).0 != (#[trigger] r[j]).0 by {
                assert(r[j] == w[j - 1]);
                if i > 0 {
                    assert(r[i] == w[i - 1]);
                }
            }
        }
        assert forall|o: Seq<char>| find(m, o) < 0 implies #[trigger] find(without_member(m, k), o) < 0 by {
            lemma_find(t, o);
            assert(find(t, o) < 0);
            lemma_find(w, o);
            assert((seq![m[0]] + w).drop_first() =~= w);
        }
    }
}

/// Setting a member, or taking it away, makes no name occur twice.
pub proof fn lemma_names_stay_distinct(m: Seq<(Seq<char>, JsonV)>, k: Seq<char>, x: JsonV)
    requires
        distinct_members(m),
    ensures
        distinct_members(with_member(m, k, x)),
        distinct_members(without_member(m, k)),
{
    lemma_without_names(m, k);
    lemma_find(m, k);
}

proof fn lemma_find_only(m: Seq<(Seq<char>, JsonV)>, k: Seq<char>, i: int)
    requires
        distinct_members(m),
        0 <= i < m.len(),
        m[i].0 == k,
    ensures
        find(m, k) == i,
{
    assert forall|j: int| 0 <= j < i implies (#[trigger] m[j]).0 != k by {
        assert(m[j].0 != m[i].0);
    }
    lemma_find_at(m, k, i);
}

proof fn lemma_place_of(s: Seq<(Seq<char>, JsonV)>, k: Seq<char>)
    ensures
        0 <= place_of(s, k) <= s.len(),
    decreases s.len(),
{
    if s.len() > 0 {
        lemma_place_of(s.drop_first(), k);
    }
}

proof fn lemma_filed(s: Seq<(Seq<char>, JsonV)>, k: Seq<char>, x: JsonV, o: Seq<char>)
    requires
        distinct_members(s),
    ensures
        distinct_members(filed(s, k, x)),
        member(JsonV::Object(filed(s, k, x)), o) == if o == k {
            Some(x)
        } else {
            member(JsonV::Object(s), o)
        },
{
    let t = filed(s, k, x);
    lemma_find(s, k);
    lemma_find(s, o);
    lemma_place_of(s, k);
    let q = if find(s, k) >= 0 {
        find(s, k)
    } else {
        place_of(s, k)
    };
    let grown = find(s, k) < 0;
    assert forall|i: int, j: int| 0 <= i < j < t.len() implies (#[trigger] t[i]).0 != (#[trigger] t[j]).0 by {
        let a = if grown && i > q { i - 1 } else { i };
        let b = if grown && j > q { j - 1 } else { j };
        if i != q && j != q {
            assert(s[a].0 != s[b].0);
        } else if grown && i == q {
            assert(s[b].0 != k);
        } else if grown {
            assert(s[a].0 != k);
        } else {
            assert(s[i].0 != s[j].0);
        }
    }
    if o == k {
        lemma_find_only(t, k, q);
    } else if find(s, o) >= 0 {
        let p = find(s, o);
        lemma_find_only(
            t,
            o,
            if grown && p >= q {
                p + 1
            } else {
                p
            },
        );
    } else {
        assert forall|j: int| 0 <= j < t.len() implies (#[trigger] t[j]).0 != o by {
            if j != q {
                let a = if grown && j > q { j - 1 } else { j };
                assert(s[a].0 != o);
            }
        }
        lemma_find_at(t, o, t.len() as int);
    }
}

/// The members of an object that is written.
proof fn lemma_by_name(m: Seq<(Seq<char>, JsonV)>, k: Seq<char>)
    ensures
        distinct_members(by_name(m)),
        find(m, k) < 0 ==> member(JsonV::Object(by_name(m)), k) is None,
        distinct_members(m) ==> member(JsonV::Object(by_name(m)), k) == match member(
            JsonV::Object(m),
            k,
        ) {
            Some(x) => Some(as_value(x)),
            None => None,
        },
    decreases m.len(),
{
    if m.len() > 0 {
        let t = m.drop_last();
        let l = m.last();
        lemma_by_name(t, k);
        lemma_filed(by_name(t), l.0, as_value(l.1), k);
        lemma_find(m, k);
        lemma_find(t, k);
        if find(m, k) < 0 {
            assert(m[m.len() - 1].0 != k);
            if find(t, k) >= 0 {
                assert(m[find(t, k)].0 != k);
            }
        }
        if distinct_members(m) {
            assert forall|i: int, j: int| 0 <= i < j < t.len() implies (#[trigger] t[i]).0 != (#[trigger] t[j]).0 by {
                assert(m[i].0 != m[j].0);
            }
            if l.0 == k {
                lemma_find_only(m, k, m.len() - 1);
            } else if find(t, k) >= 0 {
                assert(m[find(t, k)].0 == k);
                lemma_find_only(m, k, find(t, k));
            } else if find(m, k) >= 0 {
                assert(t[find(m, k)].0 == k);
            }
        }
    }
}

/// What is written keeps null, truth values, numbers and texts as they are,
/// arrays element by element, and objects member by member.
pub proof fn law_written_value_is_kept(
    v: JsonV,
    a: Seq<JsonV>,
    i: int,
    m: Seq<(Seq<char>, JsonV)>,
    k: Seq<char>,
)
    requires
        distinct_members(m),
    ensures
        !(v is Array) && !(v is Object) ==> as_value(v) == v,
        elements_in(as_value(JsonV::Array(a))) matches Some(e) && e.len() == a.len() && (0 <= i < a.len()
            ==> e[i] == as_value(a[i])),
        as_value(JsonV::Object(m)) is Object,
        member(as_value(JsonV::Object(m)), k) == match member(JsonV::Object(m), k) {
            Some(x) => Some(as_value(x)),
            None => None,
        },
{
    lemma_by_name(m, k);
}

/// A member that an object does not have is not written either.
pub proof fn law_nothing_is_added(m: Seq<(Seq<char>, JsonV)>, k: Seq<char>)
    requires
        member(JsonV::Object(m), k) is None,
    ensures
        member(as_value(JsonV::Object(m)), k) is None,
{
    lemma_by_name(m, k);
}

/// What was read is written as it was read: no name occurs twice in an object,
/// and its members are written as they are.
pub proof fn law_settled_member(m: Seq<(Seq<char>, JsonV)>, k: Seq<char>)
    requires
        settled(JsonV::Object(m)),
    ensures
        distinct_members(m),
        member(JsonV::Object(m), k) matches Some(x) ==> settled(x),
{
    lemma_by_name(m, k);
}

/// A member is found by its name, whatever stands around it, and a name that no
/// member has finds nothing.
pub proof fn law_member_is_found(m: Seq<(Seq<char>, JsonV)>, i: int, k: Seq<char>)
    ensures
        distinct_members(m) && 0 <= i < m.len() ==> member(JsonV::Object(m), m[i].0) == Some(m[i].1),
        (forall|j: int| 0 <= j < m.len() ==> (#[trigger] m[j]).0 != k) ==> member(JsonV::Object(m), k) is None,
        member(JsonV::Object(m), k) is Some ==> exists|j: int| 0 <= j < m.len() && (#[trigger] m[j]).0 == k,
{
    lemma_find(m, k);
    if 0 <= i < m.len() {
        lemma_find(m, m[i].0);
    }
}

/// A text is read from a text, a number from digits and a list from a list, and
/// nothing from any other value.
pub proof fn law_values_are_read_as_they_are(v: JsonV, k: Seq<char>, s: Seq<char>, n: nat, a: Seq<JsonV>)
    ensures
        text_member(v, k) == Some(s) <==> member(v, k) == Some(JsonV::Text(s)),
        array_member(v, k) == Some(a) <==> member(v, k) == Some(JsonV::Array(a)),
        member(v, k) == Some(JsonV::Number(numeral::decimal(n))) && n <= u64::MAX ==> count_member(v, k) == Some(n),
        count_member(v, k) is Some ==> member(v, k) is Some && member(v, k)->0 is Number,
        text_member_or(v, k, s) == (if text_member(v, k) is Some {
            text_member(v, k)->0
        } else {
            s
        }),
{
    numeral::law_reading_keeps_the_bound(n, u64::MAX as nat);
    numeral::law_digits_of_a_number(n);
}

/// A text in an object in an object is read by both names.
pub proof fn law_inner_text(v: JsonV, k: Seq<char>, inner: Seq<char>, s: Seq<char>)
    ensures
        inner_text(v, k, inner) == Some(s) <==> member(v, k) is Some && member(member(v, k)->0, inner) == Some(
            JsonV::Text(s),
        ),
{
}

} // verus!
