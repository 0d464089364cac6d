//! A structural value in the shape of JSON, and the merge of a patch onto
//! such a value. Settings updates arrive as patches of this kind.

use vstd::prelude::*;
use vstd::string::*;

verus! {

/// A number as it is carried through a merge: an unsigned integer, a negative
/// integer, or a binary64 floating-point number held by its bit pattern.
#[derive(Debug, Clone, Copy, PartialEq, Eq)]
pub enum JsonNumber {
    PosInt(u64),
    NegInt(i64),
    Float(u64),
}

/// A structural value. An object is a list of members, each a key with its
/// value; where a key occurs twice, the first occurrence is the one that
/// lookups and merges see.
#[derive(Debug, PartialEq, Eq)]
pub enum Json {
    Null,
    Bool(bool),
    Number(JsonNumber),
    Text(String),
    Array(Vec<Json>),
    Object(Vec<(String, Json)>),
}

/// Mathematical model of a [`Json`] value.
pub ghost enum JsonValue {
    Null,
    Bool(bool),
    Number(JsonNumber),
    Text(Seq<char>),
    Array(Seq<JsonValue>),
    Object(Seq<(Seq<char>, JsonValue)>),
}

/// The members of an object: keys with their values, in order.
pub type Members = Seq<(Seq<char>, JsonValue)>;

/// The model of `j`.
pub open spec fn json_value(j: Json) -> JsonValue
    decreases j, 1int, 0int,
{
    match j {
        Json::Null => JsonValue::Null,
        Json::Bool(b) => JsonValue::Bool(b),
        Json::Number(n) => JsonValue::Number(n),
        Json::Text(t) => JsonValue::Text(t@),
        Json::Array(items) => JsonValue::Array(first_values(j, items@.len() as int)),
        Json::Object(members) => JsonValue::Object(first_members(j, members@.len() as int)),
    }
}

/// The models of the first `n` items of the array `j`.
pub open spec fn first_values(j: Json, n: int) -> Seq<JsonValue>
    decreases j, 0int, n,
{
    match j {
        Json::Array(items) => {
            if 0 < n <= items@.len() {
                proof {
                    vstd::std_specs::vec::axiom_vec_decreases_to_view(items);
                    vstd::seq::axiom_seq_index_decreases(items@, n - 1);
                    assert(decreases_to!(j => j->Array_0));
                }
                first_values(j, n - 1).push(json_value(items@[n - 1]))
            } else {
                Seq::empty()
            }
        },
        _ => Seq::empty(),
    }
}

/// The models of the first `n` members of the object `j`.
pub open spec fn first_members(j: Json, n: int) -> Members
    decreases j, 0int, n,
{
    match j {
        Json::Object(members) => {
            if 0 < n <= members@.len() {
                proof {
                    vstd::std_specs::vec::axiom_vec_decreases_to_view(members);
                    vstd::seq::axiom_seq_index_decreases(members@, n - 1);
                    assert(decreases_to!(j => j->Object_0));
                    assert(decreases_to!(members@[n - 1] => members@[n - 1].1));
                }
                first_members(j, n - 1).push((members@[n - 1].0@, json_value(members@[n - 1].1)))
            } else {
                Seq::empty()
            }
        },
        _ => Seq::empty(),
    }
}

impl View for Json {
    type V = JsonValue;

    open spec fn view(&self) -> JsonValue {
        json_value(*self)
    }
}

/// The models of a list of values, in order.
pub open spec fn item_views(items: Seq<Json>) -> Seq<JsonValue> {
    Seq::new(items.len(), |i: int| items[i]@)
}

/// The models of a list of members, in order.
pub open spec fn member_views(members: Seq<(String, Json)>) -> Members {
    Seq::new(members.len(), |i: int| (members[i].0@, members[i].1@))
}

/// The key of member `i`.
pub open spec fn key_at(members: Members, i: int) -> Seq<char> {
    members[i].0
}

/// Member `i` is the first one whose key is `key`.
pub open spec fn is_first_index(members: Members, key: Seq<char>, i: int) -> bool {
    &&& 0 <= i < members.len()
    &&& members[i].0 == key
    &&& forall|j: int| 0 <= j < i ==> #[trigger] key_at(members, j) != key
}

/// Some member has the key `key`.
#[verifier::opaque]
pub open spec fn has_key(members: Members, key: Seq<char>) -> bool {
    exists|i: int| is_first_index(members, key, i)
}

/// The index of the first member with the key `key`, where there is one.
#[verifier::opaque]
pub open spec fn first_index(members: Members, key: Seq<char>) -> int {
    choose|i: int| is_first_index(members, key, i)
}

/// The value stored under `key`, if any.
pub open spec fn lookup(members: Members, key: Seq<char>) -> Option<JsonValue> {
    if has_key(members, key) {
        Some(members[first_index(members, key)].1)
    } else {
        None
    }
}

/// The result of merging the patch `b` onto `a`. Two objects merge member by
/// member; in every other case the patch replaces what was there, so an array
/// is replaced as a whole and never merged element by element.
pub open spec fn merge_value(a: JsonValue, b: JsonValue) -> JsonValue
    decreases b, 1int, 0int,
{
    match (a, b) {
        (JsonValue::Object(am), JsonValue::Object(bm)) => JsonValue::Object(
            merge_first(am, bm, bm.len() as int),
        ),
        _ => b,
    }
}

/// The members `am` after the first `n` members of the patch `bm` have been
/// merged in, one after the other. A patch member whose key is present is
/// merged onto the value under that key; one whose key is absent is added at
/// the end.
pub open spec fn merge_first(
    am: Members,
    bm: Members,
    n: int,
) -> Members
    decreases bm, 0int, n,
{
    if 0 < n <= bm.len() {
        let acc = merge_first(am, bm, n - 1);
        let key = bm[n - 1].0;
        let patch = bm[n - 1].1;
        if has_key(acc, key) {
            let i = first_index(acc, key);
            acc.update(i, (key, merge_value(acc[i].1, patch)))
        } else {
            acc.push((key, patch))
        }
    } else {
        am
    }
}

/// No two members have the same key.
pub open spec fn distinct_keys(members: Members) -> bool {
    forall|i: int, j: int|
        0 <= i < j < members.len() ==> key_at(members, i) != key_at(members, j)
}

/// What is found under `key` after the patch members `bm` have been merged
/// onto the members `am`: a patched key holds the patch merged onto what was
/// there, or the patch itself where nothing was there; every other key holds
/// what it held.
pub open spec fn merged_member(
    am: Members,
    bm: Members,
    key: Seq<char>,
) -> Option<JsonValue> {
    match lookup(bm, key) {
        Some(patch) => Some(
            match lookup(am, key) {
                Some(current) => merge_value(current, patch),
                None => patch,
            },
        ),
        None => lookup(am, key),
    }
}

proof fn lemma_first_values(items: Vec<Json>, n: int)
    requires
        0 <= n <= items@.len(),
    ensures
        first_values(Json::Array(items), n) == item_views(items@).take(n),
    decreases n,
{
    if n > 0 {
        lemma_first_values(items, n - 1);
    }
    assert(first_values(Json::Array(items), n) =~= item_views(items@).take(n));
}

proof fn lemma_first_members(members: Vec<(String, Json)>, n: int)
    requires
        0 <= n <= members@.len(),
    ensures
        first_members(Json::Object(members), n) == member_views(members@).take(n),
    decreases n,
{
    if n > 0 {
        lemma_first_members(members, n - 1);
    }
    assert(first_members(Json::Object(members), n) =~= member_views(members@).take(n));
}

/// The model of an array is the list of the models of its items.
pub proof fn lemma_array_view(items: Vec<Json>)
    ensures
        Json::Array(items)@ == JsonValue::Array(item_views(items@)),
{
    lemma_first_values(items, items@.len() as int);
    assert(item_views(items@).take(items@.len() as int) =~= item_views(items@));
}

/// The model of an object is the list of the models of its members.
pub proof fn lemma_object_view(members: Vec<(String, Json)>)
    ensures
        Json::Object(members)@ == JsonValue::Object(member_views(members@)),
{
    lemma_first_members(members, members@.len() as int);
    assert(member_views(members@).take(members@.len() as int) =~= member_views(members@));
}

impl Clone for Json {
    /// A deep copy.
    fn clone(&self) -> (out: Self)
        ensures
            out@ == self@,
        decreases self,
    {
        match self {
            Json::Null => Json::Null,
            Json::Bool(b) => Json::Bool(*b),
            Json::Number(n) => Json::Number(*n),
            Json::Text(t) => Json::Text(t.clone()),
            Json::Array(items) => {
                let mut copy: Vec<Json> = Vec::new();
                let mut i: usize = 0;
                while i < items.len()
                    invariant
                        i <= items.len(),
                        *self == Json::Array(*items),
                        copy@.len() == i,
                        forall|j: int| 0 <= j < i ==> copy@[j]@ == items@[j]@,
                    decreases items.len() - i,
                {
                    proof {
                        broadcast use {
                            vstd::std_specs::vec::group_vec_axioms,
                            vstd::seq::axiom_seq_index_decreases,
                        };

                        assert(decreases_to!(*self => self->Array_0));
                        assert(decreases_to!(items => items@));
                        assert(decreases_to!(items@ => items@[i as int]));
                    }
                    let item = items[i].clone();
                    copy.push(item);
                    i = i + 1;
                }
                proof {
                    lemma_array_view(*items);
                    lemma_array_view(copy);
                    assert(item_views(copy@) =~= item_views(items@));
                }
                Json::Array(copy)
            },
            Json::Object(members) => {
                let mut copy: Vec<(String, Json)> = Vec::new();
                let mut i: usize = 0;
                while i < members.len()
                    invariant
                        i <= members.len(),
                        *self == Json::Object(*members),
                        copy@.len() == i,
                        forall|j: int|
                            0 <= j < i ==> copy@[j].0@ == members@[j].0@ && copy@[j].1@
                                == members@[j].1@,
                    decreases members.len() - i,
                {
                    proof {
                        broadcast use {
                            vstd::std_specs::vec::group_vec_axioms,
                            vstd::seq::axiom_seq_index_decreases,
                        };

                        assert(decreases_to!(*self => self->Object_0));
                        assert(decreases_to!(members => members@));
                        assert(decreases_to!(members@ => members@[i as int]));
                        assert(decreases_to!(members@[i as int] => members@[i as int].1));
                    }
                    let key = members[i].0.clone();
                    let value = members[i].1.clone();
                    copy.push((key, value));
                    i = i + 1;
                }
                proof {
                    lemma_object_view(*members);
                    lemma_object_view(copy);
                    assert(member_views(copy@) =~= member_views(members@));
                }
                Json::Object(copy)
            },
        }
    }
}

/// Finds the first member of `members` with the key `key`.
fn find_key(members: &Vec<(String, Json)>, key: &String) -> (found: Option<usize>)
    ensures
        match found {
            Some(i) => is_first_index(member_views(members@), key@, i as int),
            None => !has_key(member_views(members@), key@),
        },
{
    let ghost views = member_views(members@);
    let mut i: usize = 0;
    while i < members.len()
        invariant
            i <= members.len(),
            views == member_views(members@),
            forall|j: int| 0 <= j < i ==> #[trigger] key_at(views, j) != key@,
        decreases members.len() - i,
    {
        if members[i].0 == *key {
            assert(views[i as int].0 == key@);
            return Some(i);
        }
        assert(key_at(views, i as int) != key@);
        i = i + 1;
    }
    assert(!has_key(views, key@)) by {
        reveal(has_key);
        assert forall|k: int| !is_first_index(views, key@, k) by {
            if 0 <= k < views.len() {
                assert(key_at(views, k) != key@);
            }
        }
    }
    None
}

/// The value stored under `key` among `members`, if any.
pub fn lookup_member<'a>(members: &'a Vec<(String, Json)>, key: &str) -> (found: Option<&'a Json>)
    ensures
        match found {
            Some(v) => lookup(member_views(members@), key@) == Some(v@),
            None => lookup(member_views(members@), key@) is None,
        },
{
    let owned = key.to_owned();
    match find_key(members, &owned) {
        Some(i) => {
            proof {
                lemma_first_index_unique(member_views(members@), key@, i as int);
            }
            Some(&members[i].1)
        },
        None => None,
    }
}

impl Json {
    /// The value stored under `key` in an object; `None` for a key that is
    /// not there and for a value that is no object.
    pub fn get(&self, key: &str) -> (found: Option<&Json>)
        ensures
            match self@ {
                JsonValue::Object(members) => match found {
                    Some(v) => lookup(members, key@) == Some(v@),
                    None => lookup(members, key@) is None,
                },
                _ => found is None,
            },
    {
        match self {
            Json::Object(members) => {
                proof {
                    lemma_object_view(*members);
                }
                lookup_member(members, key)
            },
            _ => None,
        }
    }
}

/// Merges the patch `b` onto `a` and returns the result.
pub fn merged(a: Json, b: &Json) -> (out: Json)
    ensures
        out@ == merge_value(a@, b@),
    decreases b,
{
    match b {
        Json::Object(bm) => match a {
            Json::Object(am) => {
                let ghost start = member_views(am@);
                let ghost patch_views = member_views(bm@);
                proof {
                    lemma_object_view(am);
                    lemma_object_view(*bm);
                }
                let mut acc = am;
                let mut n: usize = 0;
                while n < bm.len()
                    invariant
                        n <= bm.len(),
                        *b == Json::Object(*bm),
                        patch_views == member_views(bm@),
                        member_views(acc@) == merge_first(start, patch_views, n as int),
                    decreases bm.len() - n,
                {
                    let key = &bm[n].0;
                    let patch = &bm[n].1;
                    let ghost before = member_views(acc@);
                    match find_key(&acc, key) {
                        Some(i) => {
                            proof {
                                lemma_first_index_unique(before, key@, i as int);
                                broadcast use {
                                    vstd::std_specs::vec::group_vec_axioms,
                                    vstd::seq::axiom_seq_index_decreases,
                                };

                                assert(decreases_to!(*b => b->Object_0));
                                assert(decreases_to!(bm => bm@));
                                assert(decreases_to!(bm@ => bm@[n as int]));
                                assert(decreases_to!(bm@[n as int] => bm@[n as int].1));
                            }
                            let (name, old) = acc.remove(i);
                            let new = merged(old, patch);
                            acc.insert(i, (name, new));
                            assert(member_views(acc@) =~= before.update(
                                i as int,
                                (key@, merge_value(before[i as int].1, patch@)),
                            ));
                        },
                        None => {
                            acc.push((key.clone(), patch.clone()));
                            assert(member_views(acc@) =~= before.push((key@, patch@)));
                        },
                    }
                    n = n + 1;
                }
                proof {
                    lemma_object_view(acc);
                }
                Json::Object(acc)
            },
            _ => b.clone(),
        },
        _ => b.clone(),
    }
}

/// Merges the patch `b` onto `a` in place: objects member by member, anything
/// else by replacement.
pub fn merge(a: &mut Json, b: &Json)
    ensures
        final(a)@ == merge_value(old(a)@, b@),
{
    let mut current = Json::Null;
    core::mem::swap(a, &mut current);
    *a = merged(current, b);
}

/// Only one index is the first index of a key.
pub proof fn lemma_first_index_unique(members: Members, key: Seq<char>, i: int)
    requires
        is_first_index(members, key, i),
    ensures
        has_key(members, key),
        first_index(members, key) == i,
        lookup(members, key) == Some(members[i].1),
{
    reveal(has_key);
    reveal(first_index);
    let f = first_index(members, key);
    assert(is_first_index(members, key, f));
    if f < i {
        assert(key_at(members, f) != key);
    }
    if i < f {
        assert(key_at(members, i) != key);
    }
}

/// Where no member has the key, no member at all carries it.
pub proof fn lemma_absent_key(members: Members, key: Seq<char>, n: int)
    requires
        !has_key(members, key),
        0 <= n <= members.len(),
    ensures
        forall|j: int| 0 <= j < n ==> #[trigger] key_at(members, j) != key,
    decreases n,
{
    reveal(has_key);
    if n > 0 {
        lemma_absent_key(members, key, n - 1);
        if key_at(members, n - 1) == key {
            assert(is_first_index(members, key, n - 1));
        }
    }
}

/// No key is found among no members.
pub proof fn lemma_lookup_empty(key: Seq<char>)
    ensures
        !has_key(Members::empty(), key),
        lookup(Members::empty(), key) is None,
{
    reveal(has_key);
}

/// Lookups after one more member has been added at the end: an earlier
/// member with the same key still wins.
pub proof fn lemma_lookup_push(
    members: Members,
    k: Seq<char>,
    v: JsonValue,
    key: Seq<char>,
)
    ensures
        has_key(members.push((k, v)), key) == (has_key(members, key) || k == key),
        lookup(members.push((k, v)), key) == if has_key(members, key) {
            lookup(members, key)
        } else if k == key {
            Some(v)
        } else {
            None
        },
        has_key(members, key) ==> first_index(members.push((k, v)), key) == first_index(
            members,
            key,
        ),
        !has_key(members, key) && k == key ==> first_index(members.push((k, v)), key)
            == members.len(),
{
    reveal(has_key);
    reveal(first_index);
    let longer = members.push((k, v));
    if has_key(members, key) {
        let i = first_index(members, key);
        assert(is_first_index(members, key, i));
        assert forall|j: int| 0 <= j < i implies #[trigger] key_at(longer, j) != key by {
            assert(key_at(members, j) != key);
        }
        assert(is_first_index(longer, key, i));
        lemma_first_index_unique(longer, key, i);
    } else {
        lemma_absent_key(members, key, members.len() as int);
        if k == key {
            assert forall|j: int| 0 <= j < members.len() implies #[trigger] key_at(longer, j)
                != key by {
                assert(key_at(members, j) != key);
            }
            assert(is_first_index(longer, key, members.len() as int));
            lemma_first_index_unique(longer, key, members.len() as int);
        } else {
            assert forall|i: int| !is_first_index(longer, key, i) by {
                if is_first_index(longer, key, i) {
                    assert(i < members.len());
                    assert(key_at(members, i) != key);
                }
            }
        }
    }
}

/// Replacing the value of the first member that has a key changes what is
/// found under that key and nothing else.
pub proof fn lemma_lookup_update(
    members: Members,
    k: Seq<char>,
    v: JsonValue,
    key: Seq<char>,
)
    requires
        has_key(members, k),
    ensures
        has_key(members.update(first_index(members, k), (k, v)), key) == has_key(members, key),
        lookup(members.update(first_index(members, k), (k, v)), key) == if key == k {
            Some(v)
        } else {
            lookup(members, key)
        },
{
    reveal(has_key);
    reveal(first_index);
    let i = first_index(members, k);
    assert(is_first_index(members, k, i));
    let changed = members.update(i, (k, v));
    assert forall|j: int| 0 <= j < members.len() implies #[trigger] key_at(changed, j) == key_at(
        members,
        j,
    ) by {}
    assert forall|j: int| is_first_index(changed, key, j) == is_first_index(members, key, j) by {
        if is_first_index(members, key, j) {
            assert forall|h: int| 0 <= h < j implies #[trigger] key_at(changed, h) != key by {
                assert(key_at(members, h) != key);
            }
        }
        if is_first_index(changed, key, j) {
            assert forall|h: int| 0 <= h < j implies #[trigger] key_at(members, h) != key by {
                assert(key_at(changed, h) != key);
            }
        }
    }
    if has_key(members, key) {
        let f = first_index(members, key);
        assert(is_first_index(members, key, f));
        assert(is_first_index(changed, key, f));
        lemma_first_index_unique(changed, key, f);
        if key == k {
            lemma_first_index_unique(members, k, f);
        } else {
            assert(f != i);
        }
    }
}

/// A patch that is no object replaces whatever it is merged onto, and any
/// patch replaces a value that is no object. In particular an array patch
/// replaces an array as a whole.
pub proof fn lemma_merge_replaces(a: JsonValue, b: JsonValue)
    ensures
        !(b is Object) ==> merge_value(a, b) == b,
        !(a is Object) ==> merge_value(a, b) == b,
        forall|x: Seq<JsonValue>, y: Seq<JsonValue>| #[trigger]
            merge_value(JsonValue::Array(x), JsonValue::Array(y)) == JsonValue::Array(y),
{
}

proof fn lemma_merge_prefix(
    am: Members,
    bm: Members,
    n: int,
    key: Seq<char>,
)
    requires
        distinct_keys(bm),
        0 <= n <= bm.len(),
    ensures
        lookup(merge_first(am, bm, n), key) == merged_member(am, bm.take(n), key),
        has_key(merge_first(am, bm, n), key) == (has_key(am, key) || has_key(bm.take(n), key)),
    decreases n,
{
    if n == 0 {
        assert(bm.take(0) =~= Seq::empty());
        lemma_lookup_empty(key);
    } else {
        let acc = merge_first(am, bm, n - 1);
        let k = bm[n - 1].0;
        let patch = bm[n - 1].1;
        let seen = bm.take(n - 1);
        lemma_merge_prefix(am, bm, n - 1, key);
        lemma_merge_prefix(am, bm, n - 1, k);
        assert(bm.take(n) =~= seen.push((k, patch)));
        lemma_lookup_push(seen, k, patch, key);
        assert(!has_key(seen, k)) by {
            if has_key(seen, k) {
                reveal(has_key);
                let j = choose|j: int| is_first_index(seen, k, j);
                assert(key_at(bm, j) == k);
                assert(key_at(bm, n - 1) == k);
            }
        }
        if has_key(acc, k) {
            lemma_lookup_update(acc, k, merge_value(acc[first_index(acc, k)].1, patch), key);
        } else {
            lemma_lookup_push(acc, k, patch, key);
        }
    }
}

/// Objects merge key by key. With a patch in which no key occurs twice, a
/// key of the patch holds, after the merge, the patch value merged onto the
/// value that was there, or the patch value itself where the key is new; a
/// key that the patch does not name keeps its value.
pub proof fn lemma_merge_key_by_key(
    am: Members,
    bm: Members,
    key: Seq<char>,
)
    requires
        distinct_keys(bm),
    ensures
        merge_value(JsonValue::Object(am), JsonValue::Object(bm)) is Object,
        lookup(merge_value(JsonValue::Object(am), JsonValue::Object(bm))->Object_0, key)
            == merged_member(am, bm, key),
{
    lemma_merge_prefix(am, bm, bm.len() as int, key);
    assert(bm.take(bm.len() as int) =~= bm);
}

} // verus!
