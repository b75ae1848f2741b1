use vstd::prelude::*;

verus! {

/// A JSON-like value: the loosely typed payload that flows between the agent,
/// the dispatch core and the tools (arguments, configuration, method results).
#[derive(Debug, PartialEq, Eq)]
pub enum ScriptValue {
    Null,
    Bool(bool),
    Int(i64),
    Text(String),
    List(Vec<ScriptValue>),
    Object(Vec<(String, ScriptValue)>),
}

/// The value bound to `key` in an object's entry list: the first entry whose
/// key matches.
pub open spec fn obj_lookup(
    entries: Seq<(String, ScriptValue)>,
    key: Seq<char>,
) -> Option<ScriptValue>
    decreases entries.len(),
{
    if entries.len() == 0 {
        None
    } else if entries[0].0@ == key {
        Some(entries[0].1)
    } else {
        obj_lookup(entries.subrange(1, entries.len() as int), key)
    }
}

/// The value bound to `key`, when `v` is an object that binds it.
pub open spec fn sv_get(v: ScriptValue, key: Seq<char>) -> Option<ScriptValue> {
    match v {
        ScriptValue::Object(entries) => obj_lookup(entries@, key),
        _ => None,
    }
}

/// The text bound to `key`, when `v` is an object and the binding is text.
pub open spec fn sv_get_text(v: ScriptValue, key: Seq<char>) -> Option<Seq<char>> {
    match sv_get(v, key) {
        Some(ScriptValue::Text(s)) => Some(s@),
        _ => None,
    }
}

/// Equality of two string slices, decided without revealing their contents.
pub fn str_eq(a: &str, b: &str) -> (r: bool)
    ensures
        r == (a@ == b@),
{
    let sa: String = a.to_owned();
    let sb: String = b.to_owned();
    sa == sb
}

impl ScriptValue {
    /// Looks `key` up in an object; `None` for a non-object or an absent key.
    pub fn get<'a>(&'a self, key: &str) -> (r: Option<&'a ScriptValue>)
        ensures
            match r {
                Some(v) => sv_get(*self, key@) == Some(*v),
                None => sv_get(*self, key@) is None,
            },
    {
        match self {
            ScriptValue::Object(entries) => {
                let n: usize = entries.len();
                proof {
                    assert(entries@.subrange(0, n as int) =~= entries@);
                }
                let mut i: usize = 0;
                while i < n
                    invariant
                        n == entries@.len(),
                        i <= n,
                        sv_get(*self, key@) == obj_lookup(entries@, key@),
                        obj_lookup(entries@, key@) == obj_lookup(
                            entries@.subrange(i as int, n as int),
                            key@,
                        ),
                    decreases n - i,
                {
                    if str_eq(entries[i].0.as_str(), key) {
                        proof {
                            assert(entries@.subrange(i as int, n as int)[0] == entries@[i as int]);
                            assert(obj_lookup(entries@.subrange(i as int, n as int), key@)
                                == Some(entries@[i as int].1));
                            assert(sv_get(*self, key@) == Some(entries@[i as int].1));
                        }
                        return Some(&entries[i].1);
                    }
                    proof {
                        assert(entries@.subrange(i as int, n as int)[0] == entries@[i as int]);
                        assert(entries@.subrange(i as int, n as int).subrange(
                            1,
                            (n - i) as int,
                        ) =~= entries@.subrange(i as int + 1, n as int));
                    }
                    i += 1;
                }
                None
            },
            _ => None,
        }
    }

    /// The text bound to `key`, cloned out; `None` when absent or not text.
    pub fn get_text(&self, key: &str) -> (r: Option<String>)
        ensures
            match r {
                Some(s) => sv_get_text(*self, key@) == Some(s@),
                None => sv_get_text(*self, key@) is None,
            },
    {
        match self.get(key) {
            Some(ScriptValue::Text(s)) => Some(s.clone()),
            _ => None,
        }
    }
}

} // verus!
