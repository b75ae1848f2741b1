use vstd::prelude::*;
use crate::errors::{NoToolStateError, ToolError, ToolStateNoInvoke, is_no_such_invocation};
use crate::identity::{StatefulTool, tool_name};
use crate::value::{ScriptValue, obj_lookup, str_eq, sv_get, sv_get_text};

verus! {

/// One tool's runtime state: the owning identity and the tool-specific data
/// (credentials, cached session info) as a loosely typed value.
#[derive(Debug, PartialEq, Eq)]
pub struct ToolState {
    pub id: StatefulTool,
    pub data: ScriptValue,
}

/// What a tool's state must hold for the methods registered under its
/// identity: the market-data tool keeps its API key as text under "api key".
pub open spec fn state_wf(st: ToolState) -> bool {
    match st.id {
        StatefulTool::AlphaVantage => sv_get_text(st.data, "api key"@) is Some,
        _ => true,
    }
}

/// Decides `state_wf`, so an unverified caller can test a state it built by
/// hand before filing it.
pub fn state_wf_check(st: &ToolState) -> (r: bool)
    ensures
        r == state_wf(*st),
{
    match st.id {
        StatefulTool::AlphaVantage => st.data.get_text("api key").is_some(),
        _ => true,
    }
}

/// One store entry: a state filed under its identity.
#[derive(Debug, PartialEq, Eq)]
pub struct StoreEntry {
    pub id: StatefulTool,
    pub state: ToolState,
}

/// The state filed under `id`: the first entry that carries that identity.
pub open spec fn lookup_state(entries: Seq<StoreEntry>, id: StatefulTool) -> Option<ToolState>
    decreases entries.len(),
{
    if entries.len() == 0 {
        None
    } else if entries[0].id == id {
        Some(entries[0].state)
    } else {
        lookup_state(entries.subrange(1, entries.len() as int), id)
    }
}

/// An outbound transport request: the one kind of work a method may hand
/// back to the surrounding loop instead of finishing inside the core.
#[derive(Debug, PartialEq, Eq)]
pub struct BrowseRequest {
    pub url: String,
    pub params: Vec<(String, String)>,
}

/// The mathematical content of a browse request: its URL and its ordered
/// query parameters, as character sequences.
pub struct BrowseView {
    pub url: Seq<char>,
    pub params: Seq<(Seq<char>, Seq<char>)>,
}

impl View for BrowseRequest {
    type V = BrowseView;

    open spec fn view(&self) -> BrowseView {
        BrowseView {
            url: self.url@,
            params: Seq::new(self.params@.len(), |i: int| (self.params@[i].0@, self.params@[i].1@)),
        }
    }
}

/// What a method call yields inside the core: a finished value, or an
/// outbound transport request whose response (performed by the surrounding
/// loop) becomes the call's result.
#[derive(Debug, PartialEq, Eq)]
pub enum MethodOutcome {
    Value(ScriptValue),
    Outbound(BrowseRequest),
}

/// One query parameter, encoded for the uniform argument payload: a
/// two-element list of its name and its value.
pub open spec fn parse_param_spec(v: ScriptValue) -> Option<(Seq<char>, Seq<char>)> {
    match v {
        ScriptValue::List(pair) => if pair@.len() == 2 {
            match (pair@[0], pair@[1]) {
                (ScriptValue::Text(k), ScriptValue::Text(val)) => Some((k@, val@)),
                _ => None,
            }
        } else {
            None
        },
        _ => None,
    }
}

/// A parameter list, parsed element by element; `None` as soon as one
/// element is not an encoded parameter.
pub open spec fn parse_params_spec(items: Seq<ScriptValue>) -> Option<Seq<(Seq<char>, Seq<char>)>>
    decreases items.len(),
{
    if items.len() == 0 {
        Some(Seq::empty())
    } else {
        match (parse_param_spec(items[0]), parse_params_spec(
            items.subrange(1, items.len() as int),
        )) {
            (Some(p), Some(rest)) => Some(seq![p] + rest),
            _ => None,
        }
    }
}

/// The browse request encoded in an argument payload: an object with the
/// URL as text under "url" and the encoded parameters under "params".
pub open spec fn parse_browse_spec(args: ScriptValue) -> Option<BrowseView> {
    match (sv_get_text(args, "url"@), sv_get(args, "params"@)) {
        (Some(url), Some(ScriptValue::List(items))) => match parse_params_spec(items@) {
            Some(ps) => Some(BrowseView { url: url, params: ps }),
            None => None,
        },
        _ => None,
    }
}

/// What `invoke` returns: the registry of erased method handlers, keyed by
/// the owning identity and the method's name.
///
/// - `(AlphaVantage, "get api key")` reads the key out of the tool's data;
/// - `(HttpClient, "browse")` decodes its arguments into the outbound
///   request that the surrounding loop performs;
/// - every other pair is refused with `NoSuchInvocation`.
pub open spec fn invoke_post(
    st: ToolState,
    method: Seq<char>,
    args: ScriptValue,
    r: Result<MethodOutcome, ToolError>,
) -> bool {
    if st.id == StatefulTool::AlphaVantage && method == "get api key"@ {
        match sv_get_text(st.data, "api key"@) {
            Some(keyv) => r matches Ok(MethodOutcome::Value(ScriptValue::Text(t))) && t@ == keyv,
            None => r matches Err(e) && is_no_such_invocation(e, st.id, method),
        }
    } else if st.id == StatefulTool::HttpClient && method == "browse"@ {
        match parse_browse_spec(args) {
            Some(bv) => r matches Ok(MethodOutcome::Outbound(breq)) && breq@ == bv,
            None => r matches Err(e) && e matches ToolError::Opaque(_),
        }
    } else {
        r matches Err(e) && is_no_such_invocation(e, st.id, method)
    }
}

/// Decodes an encoded parameter list; `None` iff some element is not a
/// two-element list of texts.
fn parse_params(items: &Vec<ScriptValue>) -> (r: Option<Vec<(String, String)>>)
    ensures
        match r {
            Some(ps) => parse_params_spec(items@) == Some(
                Seq::new(ps@.len(), |i: int| (ps@[i].0@, ps@[i].1@)),
            ),
            None => parse_params_spec(items@) is None,
        },
{
    let n: usize = items.len();
    let mut out: Vec<(String, String)> = Vec::new();
    proof {
        assert(items@.subrange(0, n as int) =~= items@);
    }
    let mut i: usize = 0;
    while i < n
        invariant
            i <= n,
            n == items@.len(),
            i == out@.len(),
            match parse_params_spec(items@.subrange(i as int, n as int)) {
                Some(rest) => parse_params_spec(items@) == Some(
                    Seq::new(out@.len(), |k: int| (out@[k].0@, out@[k].1@)) + rest,
                ),
                None => parse_params_spec(items@) is None,
            },
        decreases n - i,
    {
        proof {
            assert(items@.subrange(i as int, n as int)[0] == items@[i as int]);
            assert(items@.subrange(i as int, n as int).subrange(1, (n - i) as int)
                =~= items@.subrange(i as int + 1, n as int));
        }
        let item = &items[i];
        match item {
            ScriptValue::List(pair) => {
                if pair.len() == 2 {
                    let k = match &pair[0] {
                        ScriptValue::Text(k) => k.clone(),
                        _ => {
                            return None;
                        },
                    };
                    let val = match &pair[1] {
                        ScriptValue::Text(v) => v.clone(),
                        _ => {
                            return None;
                        },
                    };
                    let ghost p = (k@, val@);
                    proof {
                        assert(parse_param_spec(items@[i as int]) == Some(p));
                    }
                    let ghost old_out = out@;
                    out.push((k, val));
                    proof {
                        let ov = Seq::new(old_out.len(), |k0: int| (old_out[k0].0@, old_out[k0].1@));
                        let nv = Seq::new(out@.len(), |k0: int| (out@[k0].0@, out@[k0].1@));
                        assert(nv =~= ov.push(p));
                        match parse_params_spec(items@.subrange(i as int + 1, n as int)) {
                            Some(rest2) => {
                                assert(ov + (seq![p] + rest2) =~= nv + rest2);
                            },
                            None => {},
                        }
                    }
                } else {
                    return None;
                }
            },
            _ => {
                return None;
            },
        }
        i += 1;
    }
    proof {
        assert(items@.subrange(n as int, n as int) =~= Seq::<ScriptValue>::empty());
    }
    Some(out)
}

/// Appending one encoded parameter extends the decoded list by one.
proof fn lemma_parse_params_push(s: Seq<ScriptValue>, x: ScriptValue)
    ensures
        parse_params_spec(s.push(x)) == match (parse_params_spec(s), parse_param_spec(x)) {
            (Some(ps), Some(p)) => Some(ps.push(p)),
            _ => None::<Seq<(Seq<char>, Seq<char>)>>,
        },
    decreases s.len(),
{
    if s.len() == 0 {
        assert(s.push(x)[0] == x);
        assert(s.push(x).subrange(1, 1) =~= Seq::<ScriptValue>::empty());
        assert(parse_params_spec(Seq::<ScriptValue>::empty()) == Some(
            Seq::<(Seq<char>, Seq<char>)>::empty(),
        ));
        match parse_param_spec(x) {
            Some(p) => {
                assert(seq![p] + Seq::<(Seq<char>, Seq<char>)>::empty()
                    =~= Seq::<(Seq<char>, Seq<char>)>::empty().push(p));
            },
            None => {},
        }
    } else {
        let tail = s.subrange(1, s.len() as int);
        assert(s.push(x)[0] == s[0]);
        assert(s.push(x).subrange(1, s.len() + 1 as int) =~= tail.push(x));
        lemma_parse_params_push(tail, x);
        match (parse_param_spec(s[0]), parse_params_spec(tail), parse_param_spec(x)) {
            (Some(p0), Some(ps), Some(p)) => {
                assert(seq![p0] + ps.push(p) =~= (seq![p0] + ps).push(p));
            },
            _ => {},
        }
    }
}

/// Decodes the uniform argument payload of the transport's "browse" method
/// into the outbound request it describes.
pub fn parse_browse_args(args: &ScriptValue) -> (r: Option<BrowseRequest>)
    ensures
        match r {
            Some(b) => parse_browse_spec(*args) == Some(b@),
            None => parse_browse_spec(*args) is None,
        },
{
    let url: String = match args.get_text("url") {
        Some(u) => u,
        None => {
            return None;
        },
    };
    let items: &Vec<ScriptValue> = match args.get("params") {
        Some(ScriptValue::List(items)) => items,
        _ => {
            return None;
        },
    };
    match parse_params(items) {
        Some(ps) => {
            let req = BrowseRequest { url, params: ps };
            Some(req)
        },
        None => None,
    }
}

/// Encodes an outbound request into the uniform argument payload, exactly as
/// the transport's "browse" method decodes it.
pub fn browse_args(req: &BrowseRequest) -> (r: ScriptValue)
    ensures
        parse_browse_spec(r) == Some(req@),
{
    let n: usize = req.params.len();
    let mut items: Vec<ScriptValue> = Vec::new();
    let mut i: usize = 0;
    while i < n
        invariant
            i <= n,
            n == req.params@.len(),
            items@.len() == i,
            parse_params_spec(items@) == Some(req@.params.subrange(0, i as int)),
        decreases n - i,
    {
        let k = req.params[i].0.clone();
        let v = req.params[i].1.clone();
        let mut pair: Vec<ScriptValue> = Vec::new();
        pair.push(ScriptValue::Text(k));
        pair.push(ScriptValue::Text(v));
        let item = ScriptValue::List(pair);
        proof {
            assert(parse_param_spec(item) == Some(req@.params[i as int]));
        }
        let ghost old_items = items@;
        items.push(item);
        proof {
            lemma_parse_params_push(old_items, item);
            assert(req@.params.subrange(0, i as int).push(req@.params[i as int])
                =~= req@.params.subrange(0, i as int + 1));
        }
        i += 1;
    }
    proof {
        assert(req@.params.subrange(0, n as int) =~= req@.params);
    }
    let url = ScriptValue::Text(req.url.clone());
    let mut fields: Vec<(String, ScriptValue)> = Vec::new();
    fields.push(("url".to_owned(), url));
    fields.push(("params".to_owned(), ScriptValue::List(items)));
    let r = ScriptValue::Object(fields);
    proof {
        reveal_strlit("url");
        reveal_strlit("params");
        assert("url"@.len() == 3);
        assert("params"@.len() == 6);
        assert("url"@ != "params"@);
        assert(fields@.len() == 2);
        assert(fields@[0].0@ == "url"@);
        assert(fields@[1].0@ == "params"@);
        assert(obj_lookup(fields@, "url"@) == Some(fields@[0].1));
        assert(fields@.subrange(1, 2)[0] == fields@[1]);
        assert(fields@.subrange(1, 2).subrange(1, 1) =~= Seq::<(String, ScriptValue)>::empty());
        assert(obj_lookup(fields@.subrange(1, 2), "params"@) == Some(fields@[1].1));
        assert(obj_lookup(fields@, "params"@) == Some(fields@[1].1));
    }
    r
}

/// Invokes `method` on one tool's state: the registry of erased method
/// handlers, keyed by the owning identity and the method's name. Every
/// registered method reads the state without changing it.
pub fn invoke(state: &ToolState, method: &str, args: &ScriptValue) -> (r: Result<
    MethodOutcome,
    ToolError,
>)
    ensures
        invoke_post(*state, method@, *args, r),
{
    if state.id == StatefulTool::AlphaVantage && str_eq(method, "get api key") {
        match state.data.get_text("api key") {
            Some(key) => Ok(MethodOutcome::Value(ScriptValue::Text(key))),
            None => Err(
                ToolError::NoSuchInvocation(
                    ToolStateNoInvoke(tool_name(state.id), method.to_owned()),
                ),
            ),
        }
    } else if state.id == StatefulTool::HttpClient && str_eq(method, "browse") {
        match parse_browse_args(args) {
            Some(req) => Ok(MethodOutcome::Outbound(req)),
            None => Err(ToolError::Opaque("browse: malformed request arguments".to_owned())),
        }
    } else {
        Err(ToolError::NoSuchInvocation(ToolStateNoInvoke(tool_name(state.id), method.to_owned())))
    }
}

/// Owns one state per active tool identity, populated only through
/// successful activation; it routes method calls and performs no I/O.
#[derive(Debug, PartialEq, Eq)]
pub struct ToolStateStore(pub Vec<StoreEntry>);

impl ToolStateStore {
    /// The state filed under `id`, if any.
    pub open spec fn state_of(self, id: StatefulTool) -> Option<ToolState> {
        lookup_state(self.0@, id)
    }

    /// Whether `id` is Active: activation filed a state for it.
    pub open spec fn contains(self, id: StatefulTool) -> bool {
        self.state_of(id) is Some
    }

    /// At most one entry per identity, every entry filed under its own
    /// state's identity, every state fit for its registered methods.
    pub open spec fn wf(self) -> bool {
        &&& forall|a: int, b: int|
            0 <= a < b < self.0@.len() ==> self.0@[a].id != self.0@[b].id
        &&& forall|a: int|
            0 <= a < self.0@.len() ==> (#[trigger] self.0@[a]).state.id == self.0@[a].id
                && state_wf(self.0@[a].state)
    }

    /// An empty store: no identity is active.
    pub fn new() -> (r: Self)
        ensures
            r.wf(),
            r.0@.len() == 0,
            forall|id: StatefulTool| #[trigger] r.state_of(id) is None,
    {
        ToolStateStore(Vec::new())
    }

    /// Decides the store invariant, so an unverified caller can test it
    /// before relying on operations that require it.
    pub fn is_wf(&self) -> (r: bool)
        ensures
            r == self.wf(),
    {
        let n: usize = self.0.len();
        let mut i: usize = 0;
        while i < n
            invariant
                i <= n,
                n == self.0@.len(),
                forall|a: int, b: int|
                    0 <= a < b < self.0@.len() && a < i ==> self.0@[a].id != self.0@[b].id,
                forall|a: int|
                    0 <= a < i ==> (#[trigger] self.0@[a]).state.id == self.0@[a].id && state_wf(
                        self.0@[a].state,
                    ),
            decreases n - i,
        {
            if !(self.0[i].state.id == self.0[i].id) || !state_wf_check(&self.0[i].state) {
                return false;
            }
            let mut j: usize = i + 1;
            while j < n
                invariant
                    i < j <= n,
                    i < n,
                    n == self.0@.len(),
                    forall|b: int| i < b < j ==> self.0@[i as int].id != (#[trigger] self.0@[b]).id,
                decreases n - j,
            {
                if self.0[j].id == self.0[i].id {
                    return false;
                }
                j += 1;
            }
            i += 1;
        }
        true
    }

    /// The index of the entry filed under `id`, if any.
    fn find_index(&self, id: StatefulTool) -> (r: Option<usize>)
        ensures
            match r {
                Some(i) => i < self.0@.len() && self.0@[i as int].id == id && lookup_state(
                    self.0@,
                    id,
                ) == Some(self.0@[i as int].state),
                None => lookup_state(self.0@, id) is None,
            },
    {
        let n: usize = self.0.len();
        proof {
            assert(self.0@.subrange(0, n as int) =~= self.0@);
        }
        let mut i: usize = 0;
        while i < n
            invariant
                i <= n,
                n == self.0@.len(),
                lookup_state(self.0@, id) == lookup_state(
                    self.0@.subrange(i as int, n as int),
                    id,
                ),
            decreases n - i,
        {
            proof {
                assert(self.0@.subrange(i as int, n as int)[0] == self.0@[i as int]);
                assert(self.0@.subrange(i as int, n as int).subrange(1, (n - i) as int)
                    =~= self.0@.subrange(i as int + 1, n as int));
            }
            if self.0[i].id == id {
                return Some(i);
            }
            i += 1;
        }
        None
    }

    /// Returns the state for an active tool; fails with `NoToolState(id)`,
    /// never with a default, when `id` was never activated. Exclusive access
    /// runs through the `&mut` receivers of `call_method` and `put_state`.
    pub fn get_state(&self, id: StatefulTool) -> (r: Result<&ToolState, ToolError>)
        ensures
            match r {
                Ok(st) => self.state_of(id) == Some(*st),
                Err(e) => self.state_of(id) is None && e == ToolError::NoToolState(
                    NoToolStateError(id),
                ),
            },
    {
        match self.find_index(id) {
            Some(i) => Ok(&self.0[i].state),
            None => Err(ToolError::NoToolState(NoToolStateError(id))),
        }
    }

    /// Files `state` under `id`, replacing any previous entry: the store
    /// keeps at most one state per identity.
    pub fn put_state(&mut self, id: StatefulTool, state: ToolState)
        requires
            old(self).wf(),
            state.id == id,
            state_wf(state),
        ensures
            final(self).wf(),
            final(self).state_of(id) == Some(state),
            forall|o: StatefulTool|
                o != id ==> #[trigger] final(self).state_of(o) == old(self).state_of(o),
    {
        let entry = StoreEntry { id, state };
        let ghost old_entries = self.0@;
        match self.find_index(id) {
            Some(i) => {
                self.0[i] = entry;
                proof {
                    lemma_lookup_update_unique(old_entries, i as int, entry, id);
                    assert forall|o: StatefulTool| o != id implies #[trigger] lookup_state(
                        self.0@,
                        o,
                    ) == lookup_state(old_entries, o) by {
                        lemma_lookup_update_unique(old_entries, i as int, entry, o);
                    }
                }
            },
            None => {
                proof {
                    lemma_lookup_none(old_entries, id);
                }
                self.0.push(entry);
                proof {
                    lemma_lookup_push(old_entries, entry, id);
                    assert forall|o: StatefulTool| o != id implies #[trigger] lookup_state(
                        self.0@,
                        o,
                    ) == lookup_state(old_entries, o) by {
                        lemma_lookup_push(old_entries, entry, o);
                    }
                }
            },
        }
    }

    /// Resolves the state for `id` and forwards `(method, args)` to it:
    /// the method's own result or error comes back unchanged, and a call on
    /// an identity that was never activated fails with `NoToolState(id)`.
    /// The `&mut` receiver keeps at most one call per store in flight.
    pub fn call_method(&mut self, id: StatefulTool, method: &str, args: &ScriptValue) -> (r: Result<
        MethodOutcome,
        ToolError,
    >)
        ensures
            *final(self) == *old(self),
            match old(self).state_of(id) {
                Some(st) => invoke_post(st, method@, *args, r),
                None => r == Err::<MethodOutcome, ToolError>(
                    ToolError::NoToolState(NoToolStateError(id)),
                ),
            },
    {
        match self.get_state(id) {
            Ok(st) => invoke(st, method, args),
            Err(e) => Err(e),
        }
    }
}

/// Absence under a lookup is absence in every entry.
pub proof fn lemma_lookup_none(entries: Seq<StoreEntry>, id: StatefulTool)
    ensures
        (lookup_state(entries, id) is None) <==> (forall|k: int|
            0 <= k < entries.len() ==> (#[trigger] entries[k]).id != id),
    decreases entries.len(),
{
    if entries.len() > 0 {
        let tail = entries.subrange(1, entries.len() as int);
        lemma_lookup_none(tail, id);
        assert(forall|k: int| 1 <= k < entries.len() ==> (#[trigger] entries[k]) == tail[k - 1]);
    }
}

/// A successful lookup returns the state of an entry filed under that
/// identity.
pub proof fn lemma_lookup_is_entry(entries: Seq<StoreEntry>, id: StatefulTool)
    requires
        lookup_state(entries, id) is Some,
    ensures
        exists|k: int|
            0 <= k < entries.len() && (#[trigger] entries[k]).id == id && lookup_state(entries, id)
                == Some(entries[k].state),
    decreases entries.len(),
{
    if entries[0].id == id {
        assert(entries[0].id == id && lookup_state(entries, id) == Some(entries[0].state));
    } else {
        let tail = entries.subrange(1, entries.len() as int);
        lemma_lookup_is_entry(tail, id);
        let k0 = choose|k: int|
            0 <= k < tail.len() && (#[trigger] tail[k]).id == id && lookup_state(tail, id) == Some(
                tail[k].state,
            );
        assert(entries[k0 + 1] == tail[k0]);
    }
}

/// An active tool's state is well formed and carries its own identity.
pub proof fn lemma_active_state_wf(store: ToolStateStore, id: StatefulTool)
    requires
        store.wf(),
        store.state_of(id) is Some,
    ensures
        state_wf(store.state_of(id).unwrap()),
        store.state_of(id).unwrap().id == id,
{
    lemma_lookup_is_entry(store.0@, id);
    let k0 = choose|k: int|
        0 <= k < store.0@.len() && (#[trigger] store.0@[k]).id == id && lookup_state(store.0@, id)
            == Some(store.0@[k].state);
    assert(state_wf(store.0@[k0].state));
}

/// After an entry is pushed, a lookup finds what it found before, or the new
/// entry where it found nothing and the identity matches.
pub proof fn lemma_lookup_push(entries: Seq<StoreEntry>, e: StoreEntry, id2: StatefulTool)
    ensures
        lookup_state(entries.push(e), id2) == if lookup_state(entries, id2) is Some {
            lookup_state(entries, id2)
        } else if id2 == e.id {
            Some(e.state)
        } else {
            None::<ToolState>
        },
    decreases entries.len(),
{
    if entries.len() == 0 {
        assert(entries.push(e)[0] == e);
        assert(entries.push(e).subrange(1, 1) =~= Seq::<StoreEntry>::empty());
        assert(lookup_state(Seq::<StoreEntry>::empty(), id2) is None);
    } else {
        let tail = entries.subrange(1, entries.len() as int);
        assert(entries.push(e)[0] == entries[0]);
        assert(entries.push(e).subrange(1, entries.len() + 1 as int) =~= tail.push(e));
        lemma_lookup_push(tail, e, id2);
    }
}

/// Replacing the one entry filed under its identity changes that identity's
/// lookup and no other, provided the identities are unique.
pub proof fn lemma_lookup_update_unique(
    entries: Seq<StoreEntry>,
    i: int,
    e: StoreEntry,
    id2: StatefulTool,
)
    requires
        0 <= i < entries.len(),
        entries[i].id == e.id,
        forall|a: int, b: int| 0 <= a < b < entries.len() ==> entries[a].id != entries[b].id,
    ensures
        lookup_state(entries.update(i, e), id2) == if id2 == e.id {
            Some(e.state)
        } else {
            lookup_state(entries, id2)
        },
    decreases entries.len(),
{
    let upd = entries.update(i, e);
    if i == 0 {
        assert(upd[0] == e);
        assert(upd.subrange(1, upd.len() as int) =~= entries.subrange(1, entries.len() as int));
    } else {
        let tail = entries.subrange(1, entries.len() as int);
        assert(upd[0] == entries[0]);
        assert(upd.subrange(1, upd.len() as int) =~= tail.update(i - 1, e));
        assert(tail[i - 1] == entries[i]);
        assert forall|a: int, b: int| 0 <= a < b < tail.len() implies tail[a].id != tail[b].id by {
            assert(tail[a] == entries[a + 1]);
            assert(tail[b] == entries[b + 1]);
        }
        lemma_lookup_update_unique(tail, i - 1, e, id2);
        if entries[0].id == id2 {
            assert(entries[0].id != entries[i].id);
        }
    }
}

} // verus!
