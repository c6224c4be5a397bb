use crate::text::{push_signed, signed_decimal};
use vstd::prelude::*;
use vstd::string::StringExecFns;

verus! {

/// One named member of an object.
#[derive(Debug)]
pub struct Member {
    pub key: String,
    pub value: Json,
}

/// A structured value as exchanged with the target service.
#[derive(Debug)]
pub enum Json {
    Null,
    Bool(bool),
    Int(i64),
    Str(String),
    Array(Vec<Json>),
    Object(Vec<Member>),
}

/// Mathematical model of one object member.
pub ghost struct MemberValue {
    pub key: Seq<char>,
    pub value: JsonValue,
}

/// Mathematical model of a structured value.
pub ghost enum JsonValue {
    Null,
    Bool(bool),
    Int(int),
    Str(Seq<char>),
    Array(Seq<JsonValue>),
    Object(Seq<MemberValue>),
}

impl View for Member {
    type V = MemberValue;

    open spec fn view(&self) -> MemberValue {
        MemberValue { key: self.key@, value: self.value@ }
    }
}

impl View for Json {
    type V = JsonValue;

    open spec fn view(&self) -> JsonValue
        decreases self,
    {
        match self {
            Json::Null => JsonValue::Null,
            Json::Bool(b) => JsonValue::Bool(*b),
            Json::Int(n) => JsonValue::Int(*n as int),
            Json::Str(s) => JsonValue::Str(s@),
            Json::Array(items) => JsonValue::Array(
                Seq::new(
                    items.len() as nat,
                    |i: int|
                        if 0 <= i < items.len() {
                            items[i]@
                        } else {
                            JsonValue::Null
                        },
                ),
            ),
            Json::Object(members) => JsonValue::Object(
                Seq::new(
                    members.len() as nat,
                    |i: int|
                        if 0 <= i < members.len() {
                            MemberValue { key: members[i].key@, value: members[i].value@ }
                        } else {
                            MemberValue { key: Seq::empty(), value: JsonValue::Null }
                        },
                ),
            ),
        }
    }
}

/// Index of the first member of `members` named `key` at or after `from`;
/// the length of `members` when there is none.
pub open spec fn first_index_from(members: Seq<MemberValue>, key: Seq<char>, from: int) -> int
    decreases members.len() - from,
{
    if from < 0 || from >= members.len() {
        members.len() as int
    } else if members[from].key == key {
        from
    } else {
        first_index_from(members, key, from + 1)
    }
}

/// Index of the first member named `key`; the length of `members` when the
/// key is absent. A later member of the same name is shadowed by the first.
pub open spec fn first_index(members: Seq<MemberValue>, key: Seq<char>) -> int {
    first_index_from(members, key, 0)
}

/// Whether some member is named `key`.
pub open spec fn has_key(members: Seq<MemberValue>, key: Seq<char>) -> bool {
    first_index(members, key) < members.len()
}

/// What `first_index_from` finds: a member of that name with no member of
/// that name between `from` and it, or the length when no member at or after
/// `from` has that name.
pub proof fn lemma_first_index_from(members: Seq<MemberValue>, key: Seq<char>, from: int)
    requires
        0 <= from <= members.len(),
    ensures
        from <= first_index_from(members, key, from) <= members.len(),
        first_index_from(members, key, from) < members.len() ==> members[first_index_from(
            members,
            key,
            from,
        )].key == key,
        forall|i: int|
            from <= i < first_index_from(members, key, from) ==> (#[trigger] members[i]).key
                != key,
    decreases members.len() - from,
{
    if from < members.len() && members[from].key != key {
        lemma_first_index_from(members, key, from + 1);
    }
}

/// A key is present exactly when some member carries it.
pub proof fn lemma_has_key(members: Seq<MemberValue>, key: Seq<char>)
    ensures
        has_key(members, key) <==> exists|i: int|
            0 <= i < members.len() && (#[trigger] members[i]).key == key,
{
    lemma_first_index_from(members, key, 0);
    if has_key(members, key) {
        assert(members[first_index(members, key)].key == key);
    }
}

/// Whether two values are the same value.
///
/// Scalars are the same when they are equal, arrays when they have the same
/// length and the same value at every position, objects when they name the
/// same keys and hold the same value under each of them; the order of an
/// object's members does not count.
pub open spec fn same_value(a: JsonValue, b: JsonValue) -> bool
    decreases a,
{
    match a {
        JsonValue::Null => b is Null,
        JsonValue::Bool(x) => b == JsonValue::Bool(x),
        JsonValue::Int(x) => b == JsonValue::Int(x),
        JsonValue::Str(x) => b == JsonValue::Str(x),
        JsonValue::Array(xs) => {
            &&& b is Array
            &&& xs.len() == b->Array_0.len()
            &&& forall|i: int|
                0 <= i < xs.len() ==> same_value(#[trigger] xs[i], b->Array_0[i])
        },
        JsonValue::Object(ms) => {
            &&& b is Object
            &&& forall|i: int|
                0 <= i < ms.len() && first_index(ms, (#[trigger] ms[i]).key) == i ==> {
                    &&& has_key(b->Object_0, ms[i].key)
                    &&& same_value(
                        ms[i].value,
                        b->Object_0[first_index(b->Object_0, ms[i].key)].value,
                    )
                }
            &&& forall|j: int|
                0 <= j < b->Object_0.len() ==> has_key(ms, (#[trigger] b->Object_0[j]).key)
        },
    }
}

/// The models of a list of members, in order.
pub open spec fn member_views(members: Seq<Member>) -> Seq<MemberValue> {
    Seq::new(members.len(), |i: int| members[i]@)
}

/// The models of a list of values, in order.
pub open spec fn item_views(items: Seq<Json>) -> Seq<JsonValue> {
    Seq::new(items.len(), |i: int| items[i]@)
}

/// An object is modelled by the models of its members.
pub proof fn lemma_object_view(members: Vec<Member>)
    ensures
        Json::Object(members)@ == JsonValue::Object(member_views(members@)),
{
    assert(Json::Object(members)@->Object_0 =~= member_views(members@));
}

/// An array is modelled by the models of its items.
pub proof fn lemma_array_view(items: Vec<Json>)
    ensures
        Json::Array(items)@ == JsonValue::Array(item_views(items@)),
{
    assert(Json::Array(items)@->Array_0 =~= item_views(items@));
}

/// Position of the first member named `key`, if any.
pub fn find_member(members: &Vec<Member>, key: &String) -> (found: Option<usize>)
    ensures
        match found {
            Some(i) => i < members.len() && i == first_index(member_views(members@), key@),
            None => !has_key(member_views(members@), key@),
        },
{
    let ghost views = member_views(members@);
    let mut i: usize = 0;
    while i < members.len()
        invariant
            i <= members.len(),
            views == member_views(members@),
            first_index(views, key@) == first_index_from(views, key@, i as int),
        decreases members.len() - i,
    {
        if members[i].key == *key {
            return Some(i);
        }
        i += 1;
    }
    None
}

impl Json {
    /// Whether this value and `other` are the same value.
    #[verifier::loop_isolation(false)]
    pub fn same_as(&self, other: &Json) -> (same: bool)
        ensures
            same == same_value(self@, other@),
        decreases self,
    {
        match self {
            Json::Null => matches!(other, Json::Null),
            Json::Bool(x) => match other {
                Json::Bool(y) => *x == *y,
                _ => false,
            },
            Json::Int(x) => match other {
                Json::Int(y) => *x == *y,
                _ => false,
            },
            Json::Str(x) => match other {
                Json::Str(y) => *x == *y,
                _ => false,
            },
            Json::Array(xs) => match other {
                Json::Array(ys) => {
                    proof {
                        lemma_array_view(*xs);
                        lemma_array_view(*ys);
                    }
                    if xs.len() != ys.len() {
                        return false;
                    }
                    let mut i: usize = 0;
                    while i < xs.len()
                        invariant
                            i <= xs.len(),
                            xs.len() == ys.len(),
                            *self == Json::Array(*xs),
                            forall|k: int| 0 <= k < i ==> same_value(#[trigger] xs@[k]@, ys@[k]@),
                        decreases xs.len() - i,
                    {
                        assert(decreases_to!(*xs => xs@[i as int]));
                        if !xs[i].same_as(&ys[i]) {
                            assert(!same_value(item_views(xs@)[i as int], item_views(ys@)[i as int]));
                            return false;
                        }
                        i += 1;
                    }
                    true
                },
                _ => false,
            },
            Json::Object(ms) => match other {
                Json::Object(ns) => {
                    proof {
                        lemma_object_view(*ms);
                        lemma_object_view(*ns);
                    }
                    let ghost mv = member_views(ms@);
                    let ghost nv = member_views(ns@);
                    let mut i: usize = 0;
                    while i < ms.len()
                        invariant
                            i <= ms.len(),
                            mv == member_views(ms@),
                            nv == member_views(ns@),
                            *self == Json::Object(*ms),
                            forall|k: int|
                                0 <= k < i && first_index(mv, (#[trigger] mv[k]).key) == k ==> {
                                    &&& has_key(nv, mv[k].key)
                                    &&& same_value(
                                        mv[k].value,
                                        nv[first_index(nv, mv[k].key)].value,
                                    )
                                },
                        decreases ms.len() - i,
                    {
                        let first = find_member(ms, &ms[i].key);
                        if first == Some(i) {
                            match find_member(ns, &ms[i].key) {
                                None => {
                                    assert(first_index(mv, mv[i as int].key) == i);
                                    return false;
                                },
                                Some(j) => {
                                    assert(decreases_to!(*ms => ms@[i as int]));
                                    if !ms[i].value.same_as(&ns[j].value) {
                                        assert(first_index(mv, mv[i as int].key) == i);
                                        return false;
                                    }
                                },
                            }
                        }
                        i += 1;
                    }
                    let mut j: usize = 0;
                    while j < ns.len()
                        invariant
                            j <= ns.len(),
                            mv == member_views(ms@),
                            nv == member_views(ns@),
                            forall|k: int| 0 <= k < j ==> has_key(mv, (#[trigger] nv[k]).key),
                        decreases ns.len() - j,
                    {
                        if find_member(ms, &ns[j].key).is_none() {
                            assert(!has_key(mv, nv[j as int].key));
                            return false;
                        }
                        j += 1;
                    }
                    true
                },
                _ => false,
            },
        }
    }
}

impl Clone for Json {
    /// A copy with the same model.
    #[verifier::loop_isolation(false)]
    fn clone(&self) -> (copy: Json)
        ensures
            copy@ == self@,
        decreases self,
    {
        match self {
            Json::Null => Json::Null,
            Json::Bool(x) => Json::Bool(*x),
            Json::Int(x) => Json::Int(*x),
            Json::Str(x) => Json::Str(x.clone()),
            Json::Array(xs) => {
                let mut out: Vec<Json> = Vec::new();
                let mut i: usize = 0;
                while i < xs.len()
                    invariant
                        i <= xs.len(),
                        out.len() == i,
                        forall|k: int| 0 <= k < i ==> (#[trigger] out@[k])@ == xs@[k]@,
                    decreases xs.len() - i,
                {
                    assert(decreases_to!(*xs => xs@[i as int]));
                    let item = xs[i].clone();
                    out.push(item);
                    i += 1;
                }
                proof {
                    lemma_array_view(*xs);
                    lemma_array_view(out);
                    assert(item_views(out@) =~= item_views(xs@));
                }
                Json::Array(out)
            },
            Json::Object(ms) => {
                let mut out: Vec<Member> = Vec::new();
                let mut i: usize = 0;
                while i < ms.len()
                    invariant
                        i <= ms.len(),
                        out.len() == i,
                        forall|k: int| 0 <= k < i ==> (#[trigger] out@[k])@ == ms@[k]@,
                    decreases ms.len() - i,
                {
                    assert(decreases_to!(*ms => ms@[i as int]));
                    let value = ms[i].value.clone();
                    out.push(Member { key: ms[i].key.clone(), value });
                    i += 1;
                }
                proof {
                    lemma_object_view(*ms);
                    lemma_object_view(out);
                    assert(member_views(out@) =~= member_views(ms@));
                }
                Json::Object(out)
            },
        }
    }
}

/// The text of a value.
///
/// Null and truth values by their names, numbers in decimal, a text between
/// double quotes as it is, an array between square brackets and an object
/// between braces, their parts separated by commas, each member as its key
/// between double quotes, a colon and its value.
pub open spec fn rendered(value: JsonValue) -> Seq<char>
    decreases value, 0nat,
{
    match value {
        JsonValue::Null => "null"@,
        JsonValue::Bool(flag) => if flag {
            "true"@
        } else {
            "false"@
        },
        JsonValue::Int(n) => signed_decimal(n),
        JsonValue::Str(text) => "\""@ + text + "\""@,
        JsonValue::Array(items) => "["@ + rendered_items(items, items.len() as int) + "]"@,
        JsonValue::Object(members) => "{"@ + rendered_members(members, members.len() as int)
            + "}"@,
    }
}

/// The texts of the first `upto` of `items`, separated by commas.
pub open spec fn rendered_items(items: Seq<JsonValue>, upto: int) -> Seq<char>
    decreases items, upto,
{
    if upto <= 0 || upto > items.len() {
        Seq::empty()
    } else if upto == 1 {
        rendered(items[0])
    } else {
        rendered_items(items, upto - 1) + ","@ + rendered(items[upto - 1])
    }
}

/// The text of one member: its key between double quotes, a colon and its
/// value.
pub open spec fn rendered_member(member: MemberValue) -> Seq<char>
    decreases member, 1nat,
{
    "\""@ + member.key + "\":"@ + rendered(member.value)
}

/// The texts of the first `upto` of `members`, separated by commas.
pub open spec fn rendered_members(members: Seq<MemberValue>, upto: int) -> Seq<char>
    decreases members, upto,
{
    if upto <= 0 || upto > members.len() {
        Seq::empty()
    } else if upto == 1 {
        rendered_member(members[0])
    } else {
        rendered_members(members, upto - 1) + ","@ + rendered_member(members[upto - 1])
    }
}

impl Json {
    /// Appends the text of this value to `out`.
    #[verifier::loop_isolation(false)]
    pub fn push_rendered(&self, out: &mut String)
        ensures
            final(out)@ == old(out)@ + rendered(self@),
        decreases self,
    {
        match self {
            Json::Null => {
                out.append("null");
            },
            Json::Bool(flag) => {
                if *flag {
                    out.append("true");
                } else {
                    out.append("false");
                }
            },
            Json::Int(n) => {
                push_signed(out, *n);
            },
            Json::Str(text) => {
                out.append("\"");
                out.append(text.as_str());
                out.append("\"");
                assert(out@ =~= old(out)@ + rendered(self@));
            },
            Json::Array(xs) => {
                proof {
                    lemma_array_view(*xs);
                }
                let ghost items = item_views(xs@);
                out.append("[");
                let mut i: usize = 0;
                while i < xs.len()
                    invariant
                        i <= xs.len(),
                        out@ == old(out)@ + "["@ + rendered_items(items, i as int),
                    decreases xs.len() - i,
                {
                    if i > 0 {
                        out.append(",");
                    }
                    assert(decreases_to!(*xs => xs@[i as int]));
                    let ghost before = out@;
                    xs[i].push_rendered(out);
                    assert(out@ == before + rendered(items[i as int]));
                    i += 1;
                    assert(out@ =~= old(out)@ + "["@ + rendered_items(items, i as int));
                }
                out.append("]");
                assert(out@ =~= old(out)@ + rendered(self@));
            },
            Json::Object(ms) => {
                proof {
                    lemma_object_view(*ms);
                }
                let ghost members = member_views(ms@);
                out.append("{");
                let mut i: usize = 0;
                while i < ms.len()
                    invariant
                        i <= ms.len(),
                        out@ == old(out)@ + "{"@ + rendered_members(members, i as int),
                    decreases ms.len() - i,
                {
                    if i > 0 {
                        out.append(",");
                    }
                    let ghost before = out@;
                    out.append("\"");
                    out.append(ms[i].key.as_str());
                    out.append("\":");
                    assert(decreases_to!(*ms => ms@[i as int]));
                    ms[i].value.push_rendered(out);
                    assert(out@ =~= before + rendered_member(members[i as int]));
                    i += 1;
                    assert(out@ =~= old(out)@ + "{"@ + rendered_members(members, i as int));
                }
                out.append("}");
                assert(out@ =~= old(out)@ + rendered(self@));
            },
        }
    }

    /// The text of this value.
    pub fn render(&self) -> (text: String)
        ensures
            text@ == rendered(self@),
    {
        let mut text = String::new();
        self.push_rendered(&mut text);
        assert(text@ =~= rendered(self@));
        text
    }
}

} // verus!
