//! Extension members of a problem: a map from member names to values whose
//! keys are kept distinct, modelled as a `Map` from names to value models.

use vstd::prelude::*;

use crate::order::{lemma_bytes_lt_irreflexive, lemma_bytes_lt_transitive, lemma_name_lt_total, name_bytes, name_less, name_lt};
use crate::validation::{ValidationItem, ValidationItemView};

verus! {

/// `serde_json::Value`, carried through unchanged when an extension member is
/// kept as a JSON value.
#[verifier::external_type_specification]
#[verifier::external_body]
pub struct ExJsonValue(serde_json::Value);

/// `serde_json::Value::clone` (derived): the copy is the same JSON value.
pub assume_specification[ <serde_json::Value as Clone>::clone ](v: &serde_json::Value) -> (r: serde_json::Value)
    ensures
        r == *v,
;

/// What `serde_json::Value::String(s)` is, for a string `s` with the text `text`.
pub uninterp spec fn json_string(text: Seq<char>) -> serde_json::Value;

/// The text of a JSON value, when it is a JSON string.
pub open spec fn json_text(v: serde_json::Value) -> Option<Seq<char>> {
    if exists|t: Seq<char>| v == json_string(t) {
        Some(choose|t: Seq<char>| v == json_string(t))
    } else {
        None
    }
}

/// The member that a JSON value is kept as: its text when it is a JSON string,
/// the value itself otherwise.
pub open spec fn json_member(v: serde_json::Value) -> ExtensionValueView {
    match json_text(v) {
        Some(t) => ExtensionValueView::Text(t),
        None => ExtensionValueView::Json(v),
    }
}

/// Hands out the string of a `serde_json::Value::String` (`Ok`), or the value
/// itself, unchanged, when it is of any other kind (`Err`). One arm for the
/// string variant and one for the rest, fields moved only.
#[verifier::external_body]
fn split_json_string(value: serde_json::Value) -> (r: Result<String, serde_json::Value>)
    ensures
        r matches Ok(s) ==> value == json_string(s@) && forall|t: Seq<char>|
            value == #[trigger] json_string(t) ==> t == s@,
        r matches Err(v) ==> v == value && forall|t: Seq<char>| value != #[trigger] json_string(t),
{
    match value {
        serde_json::Value::String(s) => Ok(s),
        other => Err(other),
    }
}

/// `serde_json::Value::as_str`: the text of a JSON string, `None` for a value
/// of any other kind.
#[verifier::external_body]
fn json_as_str(value: &serde_json::Value) -> (r: Option<&str>)
    ensures
        r matches Some(s) ==> *value == json_string(s@) && forall|t: Seq<char>|
            *value == #[trigger] json_string(t) ==> t == s@,
        r is None ==> forall|t: Seq<char>| *value != #[trigger] json_string(t),
{
    value.as_str()
}

/// The value of one extension member.
#[derive(Debug, Clone)]
pub enum ExtensionValue {
    /// A JSON string.
    Text(String),
    /// The list of field-level validation errors (the `"errors"` member).
    Errors(Vec<ValidationItem>),
    /// Any other JSON value.
    Json(serde_json::Value),
}

/// The model of an [`ExtensionValue`].
pub enum ExtensionValueView {
    Text(Seq<char>),
    Errors(Seq<ValidationItemView>),
    Json(serde_json::Value),
}

impl View for ExtensionValue {
    type V = ExtensionValueView;

    open spec fn view(&self) -> ExtensionValueView {
        match self {
            ExtensionValue::Text(s) => ExtensionValueView::Text(s@),
            ExtensionValue::Errors(v) => ExtensionValueView::Errors(
                v@.map_values(|x: ValidationItem| x@),
            ),
            ExtensionValue::Json(j) => ExtensionValueView::Json(*j),
        }
    }
}

impl ExtensionValue {
    /// A JSON string member with the given text.
    pub fn text(s: &str) -> (r: Self)
        ensures
            r@ == ExtensionValueView::Text(s@),
    {
        ExtensionValue::Text(s.to_owned())
    }

    /// Classifies a JSON value: a JSON string becomes [`ExtensionValue::Text`]
    /// with its text, any other value is kept as [`ExtensionValue::Json`].
    pub fn from_json(value: serde_json::Value) -> (r: Self)
        ensures
            r@ == json_member(value),
            forall|t: Seq<char>| value == #[trigger] json_string(t) ==> r@ == ExtensionValueView::Text(t),
            json_text(value) is None ==> r == ExtensionValue::Json(value),
    {
        let split = split_json_string(value);
        proof {
            if split is Ok {
                assert(value == json_string(split->Ok_0@));
            }
        }
        Self::from_split(split)
    }

    /// A copy with the same model.
    fn copy(&self) -> (r: Self)
        ensures
            r@ == self@,
    {
        match self {
            ExtensionValue::Text(s) => ExtensionValue::Text(s.clone()),
            ExtensionValue::Json(v) => ExtensionValue::Json(v.clone()),
            ExtensionValue::Errors(items) => {
                let n = items.len();
                let mut out: Vec<ValidationItem> = Vec::new();
                let mut i: usize = 0;
                while i < n
                    invariant
                        n == items@.len(),
                        i <= n,
                        out@.len() == i,
                        forall|j: int| 0 <= j < i ==> out@[j]@ == items@[j]@,
                    decreases n - i,
                {
                    out.push(items[i].copy());
                    i = i + 1;
                }
                assert(out@.map_values(|x: ValidationItem| x@) =~= items@.map_values(
                    |x: ValidationItem| x@,
                ));
                ExtensionValue::Errors(out)
            },
        }
    }

    /// The text of this member when it is a JSON string, whether kept as text
    /// or as a JSON value.
    pub fn as_text(&self) -> (r: Option<&str>)
        ensures
            opt_text_view(r) == text_of(Some(self@)),
            forall|t: Seq<char>|
                self@ == ExtensionValueView::Json(#[trigger] json_string(t)) ==> opt_text_view(r)
                    == Some(t),
    {
        match self {
            ExtensionValue::Text(s) => Some(s.as_str()),
            ExtensionValue::Json(v) => {
                let r = json_as_str(v);
                proof {
                    if r is Some {
                        assert(*v == json_string(r->Some_0@));
                    }
                }
                r
            },
            ExtensionValue::Errors(_) => None,
        }
    }

    /// The member for a JSON value that has been split into the text of a JSON
    /// string (`Ok`) or a value of another kind (`Err`).
    pub fn from_split(split: Result<String, serde_json::Value>) -> (r: Self)
        ensures
            match split {
                Ok(s) => r@ == ExtensionValueView::Text(s@),
                Err(v) => r == ExtensionValue::Json(v),
            },
    {
        match split {
            Ok(s) => ExtensionValue::Text(s),
            Err(v) => ExtensionValue::Json(v),
        }
    }
}

/// The text of a member, when it is a JSON string (kept as text or as JSON).
pub open spec fn text_of(v: Option<ExtensionValueView>) -> Option<Seq<char>> {
    match v {
        Some(ExtensionValueView::Text(s)) => Some(s),
        Some(ExtensionValueView::Json(j)) => json_text(j),
        _ => None,
    }
}

/// The model of an optional borrowed string.
pub open spec fn opt_text_view(s: Option<&str>) -> Option<Seq<char>> {
    match s {
        Some(t) => Some(t@),
        None => None,
    }
}

/// The map that a sequence of (name, value) entries stands for; a later entry
/// with the same name takes precedence over an earlier one.
pub open spec fn entries_map(s: Seq<(String, ExtensionValue)>) -> Map<Seq<char>, ExtensionValueView>
    decreases s.len(),
{
    if s.len() == 0 {
        Map::empty()
    } else {
        entries_map(s.drop_last()).insert(s.last().0@, s.last().1@)
    }
}

/// No name occurs twice among the entries.
pub open spec fn keys_distinct(s: Seq<(String, ExtensionValue)>) -> bool {
    forall|i: int, j: int| 0 <= i < j < s.len() ==> s[i].0@ != s[j].0@
}

/// The entries come in increasing order of their names.
pub open spec fn names_sorted(s: Seq<(String, ExtensionValue)>) -> bool {
    forall|i: int, j: int| 0 <= i < j < s.len() ==> name_lt(s[i].0@, s[j].0@)
}

/// Entries in increasing order of names have distinct names.
pub proof fn lemma_sorted_distinct(s: Seq<(String, ExtensionValue)>)
    requires
        names_sorted(s),
    ensures
        keys_distinct(s),
{
    assert forall|i: int, j: int| 0 <= i < j < s.len() implies s[i].0@ != s[j].0@ by {
        assert(name_lt(s[i].0@, s[j].0@));
        lemma_bytes_lt_irreflexive(name_bytes(s[i].0@));
    }
}

proof fn lemma_entries_map_insert_at(
    s: Seq<(String, ExtensionValue)>,
    p: int,
    e: (String, ExtensionValue),
)
    requires
        keys_distinct(s),
        keys_distinct(s.insert(p, e)),
        0 <= p <= s.len(),
        forall|i: int| 0 <= i < s.len() ==> s[i].0@ != e.0@,
    ensures
        entries_map(s.insert(p, e)) == entries_map(s).insert(e.0@, e.1@),
{
    let u = s.insert(p, e);
    let m = entries_map(s).insert(e.0@, e.1@);
    assert forall|k: Seq<char>| entries_map(u).contains_key(k) == m.contains_key(k) by {
        lemma_entries_map_dom(u, k);
        lemma_entries_map_dom(s, k);
        assert(u[p] == e);
        if exists|j: int| 0 <= j < s.len() && s[j].0@ == k {
            let j = choose|j: int| 0 <= j < s.len() && s[j].0@ == k;
            if j < p {
                assert(u[j] == s[j]);
            } else {
                assert(u[j + 1] == s[j]);
            }
        }
        if exists|j: int| 0 <= j < u.len() && u[j].0@ == k {
            let j = choose|j: int| 0 <= j < u.len() && u[j].0@ == k;
            if j < p {
                assert(s[j] == u[j]);
            } else if j > p {
                assert(s[j - 1] == u[j]);
            }
        }
    }
    assert forall|k: Seq<char>| #[trigger] entries_map(u).contains_key(k) implies entries_map(u)[k]
        == m[k] by {
        lemma_entries_map_dom(u, k);
        let j = choose|j: int| 0 <= j < u.len() && u[j].0@ == k;
        lemma_entries_map_value(u, j);
        if j < p {
            assert(s[j] == u[j]);
            lemma_entries_map_value(s, j);
        } else if j > p {
            assert(s[j - 1] == u[j]);
            lemma_entries_map_value(s, j - 1);
        }
    }
    assert(entries_map(u) =~= m);
}

proof fn lemma_entries_map_dom(s: Seq<(String, ExtensionValue)>, k: Seq<char>)
    ensures
        entries_map(s).contains_key(k) <==> exists|i: int| 0 <= i < s.len() && s[i].0@ == k,
    decreases s.len(),
{
    if s.len() > 0 {
        let t = s.drop_last();
        lemma_entries_map_dom(t, k);
        if exists|i: int| 0 <= i < t.len() && t[i].0@ == k {
            let i = choose|i: int| 0 <= i < t.len() && t[i].0@ == k;
            assert(s[i].0@ == k);
        }
        if exists|i: int| 0 <= i < s.len() && s[i].0@ == k {
            let i = choose|i: int| 0 <= i < s.len() && s[i].0@ == k;
            if i < s.len() - 1 {
                assert(t[i].0@ == k);
            }
        }
    }
}

proof fn lemma_entries_map_value(s: Seq<(String, ExtensionValue)>, i: int)
    requires
        keys_distinct(s),
        0 <= i < s.len(),
    ensures
        entries_map(s).contains_key(s[i].0@),
        entries_map(s)[s[i].0@] == s[i].1@,
    decreases s.len(),
{
    if i < s.len() - 1 {
        let t = s.drop_last();
        assert(t[i] == s[i]);
        lemma_entries_map_value(t, i);
    }
}

proof fn lemma_entries_map_update(
    s: Seq<(String, ExtensionValue)>,
    i: int,
    e: (String, ExtensionValue),
)
    requires
        keys_distinct(s),
        0 <= i < s.len(),
        e.0@ == s[i].0@,
    ensures
        keys_distinct(s.update(i, e)),
        entries_map(s.update(i, e)) == entries_map(s).insert(e.0@, e.1@),
{
    let u = s.update(i, e);
    assert(keys_distinct(u));
    let m = entries_map(s).insert(e.0@, e.1@);
    assert forall|k: Seq<char>| entries_map(u).contains_key(k) == m.contains_key(k) by {
        lemma_entries_map_dom(u, k);
        lemma_entries_map_dom(s, k);
        if exists|j: int| 0 <= j < s.len() && s[j].0@ == k {
            let j = choose|j: int| 0 <= j < s.len() && s[j].0@ == k;
            assert(u[j].0@ == k);
        }
        if exists|j: int| 0 <= j < u.len() && u[j].0@ == k {
            let j = choose|j: int| 0 <= j < u.len() && u[j].0@ == k;
            assert(s[j].0@ == k);
        }
    }
    assert forall|k: Seq<char>| #[trigger] entries_map(u).contains_key(k) implies entries_map(u)[k]
        == m[k] by {
        lemma_entries_map_dom(u, k);
        let j = choose|j: int| 0 <= j < u.len() && u[j].0@ == k;
        lemma_entries_map_value(u, j);
        if j != i {
            lemma_entries_map_value(s, j);
            assert(s[j].0@ == k);
        }
    }
    assert(entries_map(u) =~= m);
}

/// The extension members of a problem, by name. No name occurs twice.
#[derive(Debug)]
pub struct Extensions {
    entries: Vec<(String, ExtensionValue)>,
}

impl View for Extensions {
    type V = Map<Seq<char>, ExtensionValueView>;

    closed spec fn view(&self) -> Map<Seq<char>, ExtensionValueView> {
        entries_map(self.entries@)
    }
}

impl Extensions {
    #[verifier::type_invariant]
    closed spec fn inv(self) -> bool {
        names_sorted(self.entries@)
    }

    /// The member list, in increasing order of names.
    pub closed spec fn entry_seq(self) -> Seq<(String, ExtensionValue)> {
        self.entries@
    }

    /// No members.
    pub fn new() -> (r: Self)
        ensures
            r@ == Map::<Seq<char>, ExtensionValueView>::empty(),
    {
        let r = Extensions { entries: Vec::new() };
        assert(r@ =~= Map::<Seq<char>, ExtensionValueView>::empty());
        r
    }

    /// The number of members.
    pub fn len(&self) -> (r: usize)
        ensures
            r == self@.len(),
    {
        proof {
            use_type_invariant(self);
            lemma_sorted_distinct(self.entries@);
            self.lemma_len();
        }
        self.entries.len()
    }

    /// Whether there are no members.
    pub fn is_empty(&self) -> (r: bool)
        ensures
            r == (self@.len() == 0),
    {
        self.len() == 0
    }

    proof fn lemma_len(self)
        requires
            keys_distinct(self.entries@),
        ensures
            self@.len() == self.entries@.len(),
            self@.dom().finite(),
    {
        lemma_entries_map_len(self.entries@);
    }

    /// The members as (name, value) entries, each name once, in increasing
    /// order of names (the order in which `String`s compare).
    pub fn entries(&self) -> (r: &Vec<(String, ExtensionValue)>)
        ensures
            r@ == self.entry_seq(),
            names_sorted(r@),
            keys_distinct(r@),
            entries_map(r@) == self@,
    {
        proof {
            use_type_invariant(self);
            lemma_sorted_distinct(self.entries@);
        }
        &self.entries
    }

    /// The position of the entry named `key`, if there is one.
    fn find(&self, key: &String) -> (r: Option<usize>)
        ensures
            match r {
                Some(i) => i < self.entries@.len() && self.entries@[i as int].0@ == key@,
                None => forall|i: int|
                    0 <= i < self.entries@.len() ==> self.entries@[i].0@ != key@,
            },
    {
        let n = self.entries.len();
        let mut i: usize = 0;
        while i < n
            invariant
                n == self.entries@.len(),
                i <= n,
                forall|j: int| 0 <= j < i ==> self.entries@[j].0@ != key@,
            decreases n - i,
        {
            if self.entries[i].0 == *key {
                return Some(i);
            }
            i = i + 1;
        }
        None
    }

    /// The value of the member named `key`, if there is one.
    pub fn get(&self, key: &str) -> (r: Option<&ExtensionValue>)
        ensures
            match r {
                Some(v) => self@.contains_key(key@) && self@[key@] == v@,
                None => !self@.contains_key(key@),
            },
    {
        proof {
            use_type_invariant(self);
            lemma_sorted_distinct(self.entries@);
        }
        let k = key.to_owned();
        match self.find(&k) {
            Some(i) => {
                proof {
                    lemma_entries_map_value(self.entries@, i as int);
                }
                Some(&self.entries[i].1)
            },
            None => {
                proof {
                    lemma_entries_map_dom(self.entries@, key@);
                }
                None
            },
        }
    }

    /// Sets the member named `key` to `value`, replacing an earlier value of it.
    pub fn insert(&mut self, key: String, value: ExtensionValue)
        ensures
            final(self)@ == old(self)@.insert(key@, value@),
    {
        proof {
            use_type_invariant(&*self);
            lemma_sorted_distinct(self.entries@);
        }
        let found = self.find(&key);
        let mut entries: Vec<(String, ExtensionValue)> = Vec::new();
        std::mem::swap(&mut entries, &mut self.entries);
        let ghost before = entries@;
        assert(names_sorted(before));
        match found {
            Some(i) => {
                let ghost e = (key, value);
                entries.set(i, (key, value));
                proof {
                    lemma_entries_map_update(before, i as int, e);
                    assert(names_sorted(entries@)) by {
                        assert forall|a: int, b: int| 0 <= a < b < entries@.len() implies name_lt(
                            entries@[a].0@,
                            entries@[b].0@,
                        ) by {
                            assert(entries@[a].0@ == before[a].0@);
                            assert(entries@[b].0@ == before[b].0@);
                        }
                    }
                }
            },
            None => {
                let n = entries.len();
                let mut p: usize = 0;
                while p < n
                    invariant
                        n == entries@.len(),
                        entries@ == before,
                        p <= n,
                        forall|j: int| 0 <= j < p ==> name_lt(before[j].0@, key@),
                    ensures
                        p <= n,
                        forall|j: int| 0 <= j < p ==> name_lt(before[j].0@, key@),
                        p < n ==> !name_lt(before[p as int].0@, key@),
                    decreases n - p,
                {
                    if !name_less(entries[p].0.as_str(), key.as_str()) {
                        break;
                    }
                    p = p + 1;
                }
                let ghost e = (key, value);
                entries.insert(p, (key, value));
                proof {
                    let u = entries@;
                    assert(u == before.insert(p as int, e));
                    if p < n {
                        lemma_name_lt_total(before[p as int].0@, key@);
                    }
                    assert forall|a: int, b: int| 0 <= a < b < u.len() implies name_lt(
                        u[a].0@,
                        u[b].0@,
                    ) by {
                        if b < p {
                            assert(u[a] == before[a] && u[b] == before[b]);
                        } else if b == p {
                            assert(u[a] == before[a]);
                        } else if a < p {
                            assert(u[a] == before[a] && u[b] == before[b - 1]);
                        } else if a == p {
                            assert(u[b] == before[b - 1]);
                            if b - 1 > p {
                                assert(name_lt(before[p as int].0@, before[b - 1].0@));
                                lemma_bytes_lt_transitive(
                                    name_bytes(key@),
                                    name_bytes(before[p as int].0@),
                                    name_bytes(before[b - 1].0@),
                                );
                            }
                        } else {
                            assert(u[a] == before[a - 1] && u[b] == before[b - 1]);
                        }
                    }
                    lemma_sorted_distinct(u);
                    lemma_entries_map_insert_at(before, p as int, e);
                }
            },
        }
        self.entries = entries;
    }
}

proof fn lemma_entries_map_same_entries(s: Seq<(String, ExtensionValue)>, t: Seq<(String, ExtensionValue)>)
    requires
        s.len() == t.len(),
        forall|i: int| 0 <= i < s.len() ==> s[i].0@ == t[i].0@ && s[i].1@ == t[i].1@,
    ensures
        entries_map(s) == entries_map(t),
    decreases s.len(),
{
    if s.len() > 0 {
        lemma_entries_map_same_entries(s.drop_last(), t.drop_last());
    }
}

impl Clone for Extensions {
    /// A copy with the same members.
    fn clone(&self) -> (r: Self)
        ensures
            r@ == self@,
    {
        proof {
            use_type_invariant(self);
        }
        let n = self.entries.len();
        let mut out: Vec<(String, ExtensionValue)> = Vec::new();
        let mut i: usize = 0;
        while i < n
            invariant
                n == self.entries@.len(),
                i <= n,
                out@.len() == i,
                names_sorted(self.entries@),
                forall|j: int| 0 <= j < i ==> out@[j].0@ == self.entries@[j].0@,
                forall|j: int| 0 <= j < i ==> out@[j].1@ == self.entries@[j].1@,
            decreases n - i,
        {
            let k = self.entries[i].0.clone();
            let v = self.entries[i].1.copy();
            out.push((k, v));
            i = i + 1;
        }
        proof {
            lemma_entries_map_same_entries(out@, self.entries@);
        }
        Extensions { entries: out }
    }
}

proof fn lemma_entries_map_len(s: Seq<(String, ExtensionValue)>)
    requires
        keys_distinct(s),
    ensures
        entries_map(s).dom().finite(),
        entries_map(s).len() == s.len(),
    decreases s.len(),
{
    if s.len() > 0 {
        let t = s.drop_last();
        assert(keys_distinct(t));
        lemma_entries_map_len(t);
        lemma_entries_map_dom(t, s.last().0@);
        if entries_map(t).contains_key(s.last().0@) {
            let i = choose|i: int| 0 <= i < t.len() && t[i].0@ == s.last().0@;
            assert(s[i] == t[i]);
        }
    }
}

} // verus!
