//! The optional values that travel with a trigger.

use vstd::prelude::*;

verus! {

/// Up to three optional text values sent along with a trigger.
pub struct WebHookData {
    pub value1: Option<String>,
    pub value2: Option<String>,
    pub value3: Option<String>,
}

/// The view of an optional string as an optional sequence of characters.
pub open spec fn opt_view(o: Option<String>) -> Option<Seq<char>> {
    match o {
        Some(s) => Some(s@),
        None => None,
    }
}

/// The view of an optional borrowed string.
pub open spec fn opt_str_view(o: Option<&str>) -> Option<Seq<char>> {
    match o {
        Some(s) => Some(s@),
        None => None,
    }
}

/// An owned copy of an optional borrowed string.
fn own_opt(o: Option<&str>) -> (r: Option<String>)
    ensures
        opt_view(r) == opt_str_view(o),
{
    match o {
        Some(s) => Some(String::from_str(s)),
        None => None,
    }
}

impl WebHookData {
    /// The three values, each as an optional sequence of characters.
    pub open spec fn values(&self) -> (Option<Seq<char>>, Option<Seq<char>>, Option<Seq<char>>) {
        (opt_view(self.value1), opt_view(self.value2), opt_view(self.value3))
    }

    /// Builds the data from three optional values; this never fails.
    pub fn new(value1: Option<&str>, value2: Option<&str>, value3: Option<&str>) -> (r: Option<Self>)
        ensures
            r is Some,
            r.unwrap().values() == (opt_str_view(value1), opt_str_view(value2), opt_str_view(value3)),
    {
        Some(WebHookData { value1: own_opt(value1), value2: own_opt(value2), value3: own_opt(value3) })
    }
}

/// The entry for one field: present fields give one (key, value) pair,
/// absent ones give nothing.
pub open spec fn field_entry(key: Seq<char>, value: Option<Seq<char>>) -> Seq<(Seq<char>, Seq<char>)> {
    match value {
        Some(v) => seq![(key, v)],
        None => seq![],
    }
}

/// The payload of a trigger: one (key, value) pair for each present field,
/// under the keys `value1`, `value2` and `value3`, in that order.
pub open spec fn payload_entries(d: WebHookData) -> Seq<(Seq<char>, Seq<char>)> {
    field_entry("value1"@, opt_view(d.value1)) + field_entry("value2"@, opt_view(d.value2))
        + field_entry("value3"@, opt_view(d.value3))
}

/// Appends the entry of one field to the payload.
fn push_field(entries: &mut Vec<(String, String)>, key: &str, value: Option<String>)
    ensures
        final(entries).deep_view() == old(entries).deep_view() + field_entry(key@, opt_view(value)),
{
    match value {
        Some(v) => {
            entries.push((String::from_str(key), v));
            assert(final(entries).deep_view() =~= old(entries).deep_view() + field_entry(key@, opt_view(value)));
        },
        None => {
            assert(entries.deep_view() =~= old(entries).deep_view() + field_entry(key@, opt_view(value)));
        },
    }
}

/// Turns the data into the key/value pairs of the JSON object that is sent:
/// present fields only, absent ones are left out rather than sent as null.
pub fn nonblocking_make_serde_value(data: WebHookData) -> (r: Vec<(String, String)>)
    ensures
        r.deep_view() == payload_entries(data),
{
    let mut map: Vec<(String, String)> = Vec::new();
    assert(map.deep_view() =~= Seq::<(Seq<char>, Seq<char>)>::empty());
    push_field(&mut map, "value1", data.value1);
    push_field(&mut map, "value2", data.value2);
    push_field(&mut map, "value3", data.value3);
    assert(map.deep_view() =~= payload_entries(data));
    map
}

/// The payload holds a key exactly when the field of that name is present,
/// with that field's value, and no other key; no key occurs twice.
pub proof fn lemma_payload_keys(d: WebHookData)
    ensures
        forall|k: Seq<char>, v: Seq<char>|
            payload_entries(d).contains((k, v)) <==> ((k == "value1"@ && opt_view(d.value1) == Some(v))
                || (k == "value2"@ && opt_view(d.value2) == Some(v))
                || (k == "value3"@ && opt_view(d.value3) == Some(v))),
        forall|i: int, j: int|
            0 <= i < j < payload_entries(d).len() ==> payload_entries(d)[i].0 != payload_entries(d)[j].0,
{
    reveal_strlit("value1");
    reveal_strlit("value2");
    reveal_strlit("value3");
    let e1 = field_entry("value1"@, opt_view(d.value1));
    let e2 = field_entry("value2"@, opt_view(d.value2));
    let e3 = field_entry("value3"@, opt_view(d.value3));
    let p = payload_entries(d);
    assert(p == e1 + e2 + e3);
    assert forall|k: Seq<char>, v: Seq<char>|
        p.contains((k, v)) <==> ((k == "value1"@ && opt_view(d.value1) == Some(v))
            || (k == "value2"@ && opt_view(d.value2) == Some(v))
            || (k == "value3"@ && opt_view(d.value3) == Some(v))) by {
        if p.contains((k, v)) {
            let i = choose|i: int| 0 <= i < p.len() && p[i] == (k, v);
            if i < e1.len() {
                assert(p[i] == e1[i]);
            } else if i < e1.len() + e2.len() {
                assert(p[i] == e2[i - e1.len()]);
            } else {
                assert(p[i] == e3[i - e1.len() - e2.len()]);
            }
        }
        if k == "value1"@ && opt_view(d.value1) == Some(v) {
            assert(p[0] == (k, v));
        }
        if k == "value2"@ && opt_view(d.value2) == Some(v) {
            assert(p[e1.len() as int] == (k, v));
        }
        if k == "value3"@ && opt_view(d.value3) == Some(v) {
            assert(p[(e1.len() + e2.len()) as int] == (k, v));
        }
    }
    assert forall|i: int, j: int| 0 <= i < j < p.len() implies p[i].0 != p[j].0 by {
        assert("value1"@[5] != "value2"@[5]);
        assert("value1"@[5] != "value3"@[5]);
        assert("value2"@[5] != "value3"@[5]);
        if i < e1.len() {
            assert(p[i] == e1[i]);
        } else if i < e1.len() + e2.len() {
            assert(p[i] == e2[i - e1.len()]);
        }
        if j < e1.len() + e2.len() {
            assert(p[j] == e2[j - e1.len()]);
        } else {
            assert(p[j] == e3[j - e1.len() - e2.len()]);
        }
    }
}

} // verus!
