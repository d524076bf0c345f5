//! The shared key-value memory: one store behind a reader-writer lock,
//! exposed to the model as three tools (list, get, set) that all speak to
//! the same store.

use std::sync::Arc;

use vstd::prelude::*;
use vstd::rwlock::{RwLock, RwLockPredicate};

use crate::error::Error;
use crate::jsonargs::{json_field, parse_string_field};
use crate::llm::{Message, MessageView};
use crate::tools::{FunctionalTool, ToolCall, ToolDefinition};

verus! {

/// Relies on `alloc::sync::Arc::clone`: the clone is a new handle to the
/// same allocation, so its value equals the original's.
#[verifier::external_body]
fn arc_clone<T>(a: &Arc<T>) -> (r: Arc<T>)
    ensures
        r == *a,
{
    a.clone()
}

/// The key-value mapping itself: keys and their values at matching
/// positions, in insertion order.
pub struct KVStore {
    pub keys: Vec<String>,
    pub values: Vec<String>,
}

/// The keys of `keys`, one `- {key}` line each, appended to `acc`.
pub open spec fn list_onto(acc: Seq<char>, keys: Seq<String>) -> Seq<char>
    decreases keys.len(),
{
    if keys.len() == 0 {
        acc
    } else {
        list_onto(acc + "- "@ + keys[0]@ + "\n"@, keys.drop_first())
    }
}

impl KVStore {
    /// Keys pair one-to-one with values, and no key occurs twice.
    pub open spec fn wf(&self) -> bool {
        &&& self.keys@.len() == self.values@.len()
        &&& forall|i: int, j: int|
            0 <= i < j < self.keys@.len() ==> self.keys@[i]@ != self.keys@[j]@
    }

    /// Whether some entry holds `key`.
    pub open spec fn spec_contains(&self, key: Seq<char>) -> bool {
        exists|i: int| 0 <= i < self.keys@.len() && self.keys@[i]@ == key
    }

    /// The position of `key`, meaningful when `spec_contains(key)`.
    pub open spec fn spec_index_of(&self, key: Seq<char>) -> int {
        choose|i: int| 0 <= i < self.keys@.len() && self.keys@[i]@ == key
    }

    /// The value stored under `key`, meaningful when `spec_contains(key)`.
    pub open spec fn spec_value_of(&self, key: Seq<char>) -> Seq<char> {
        self.values@[self.spec_index_of(key)]@
    }

    /// The store as a mathematical map from key text to value text.
    pub open spec fn as_map(&self) -> Map<Seq<char>, Seq<char>> {
        Map::new(|k: Seq<char>| self.spec_contains(k), |k: Seq<char>| self.spec_value_of(k))
    }

    /// The value under `key`, if any.
    pub open spec fn spec_get(&self, key: Seq<char>) -> Option<Seq<char>> {
        if self.spec_contains(key) {
            Some(self.spec_value_of(key))
        } else {
            None
        }
    }

    /// What `get_key` answers: the value found, or a not-found note.
    pub open spec fn spec_get_message(&self, key: Seq<char>) -> Seq<char> {
        match self.spec_get(key) {
            Some(v) => "value of key "@ + key + ":\n"@ + v,
            None => "key "@ + key + " is not in memory"@,
        }
    }

    /// What `list_keys` answers: a header, then one line per key in
    /// insertion order.
    pub open spec fn spec_list(&self) -> Seq<char> {
        list_onto("Keys in memory:\n"@, self.keys@)
    }

    /// In a well-formed store any position holding `key` is the position
    /// `spec_index_of` picks: keys are unique.
    proof fn lemma_index_unique(&self, key: Seq<char>, j: int)
        requires
            self.wf(),
            0 <= j < self.keys@.len(),
            self.keys@[j]@ == key,
        ensures
            self.spec_index_of(key) == j,
    {
        assert(self.spec_contains(key));
        let i = self.spec_index_of(key);
        assert(0 <= i < self.keys@.len() && self.keys@[i]@ == key);
        if i < j {
            assert(self.keys@[i]@ != self.keys@[j]@);
        } else if j < i {
            assert(self.keys@[j]@ != self.keys@[i]@);
        }
    }

    /// The position of `key`, scanning from the front.
    fn find(&self, key: &str) -> (r: Option<usize>)
        ensures
            match r {
                Some(i) => i < self.keys@.len() && self.keys@[i as int]@ == key@,
                None => !self.spec_contains(key@),
            },
    {
        let needle = key.to_owned();
        let n = self.keys.len();
        let mut i: usize = 0;
        while i < n
            invariant
                i <= n,
                n == self.keys@.len(),
                needle@ == key@,
                forall|k: int| 0 <= k < i ==> self.keys@[k]@ != key@,
            decreases n - i,
        {
            if self.keys[i].eq(&needle) {
                return Some(i);
            }
            i = i + 1;
        }
        None
    }

    /// Renders the key listing.
    pub fn list_keys(&self) -> (r: String)
        ensures
            r@ == self.spec_list(),
    {
        let mut out = "Keys in memory:\n".to_owned();
        let ghost target = list_onto(out@, self.keys@);
        let n = self.keys.len();
        let mut i: usize = 0;
        proof {
            assert(self.keys@.skip(0) =~= self.keys@);
        }
        while i < n
            invariant
                i <= n,
                n == self.keys@.len(),
                list_onto(out@, self.keys@.skip(i as int)) == target,
            decreases n - i,
        {
            proof {
                assert(self.keys@.skip(i as int).drop_first() =~= self.keys@.skip(i + 1));
                assert(self.keys@.skip(i as int)[0] == self.keys@[i as int]);
            }
            out.append("- ");
            out.append(self.keys[i].as_str());
            out.append("\n");
            i = i + 1;
        }
        out
    }

    /// Renders the value stored under `key`, or a not-found note.
    pub fn get_key(&self, key: &str) -> (r: String)
        requires
            self.wf(),
        ensures
            r@ == self.spec_get_message(key@),
    {
        match self.find(key) {
            Some(i) => {
                proof {
                    self.lemma_index_unique(key@, i as int);
                }
                let mut out = "value of key ".to_owned();
                out.append(key);
                out.append(":\n");
                out.append(self.values[i].as_str());
                out
            },
            None => {
                let mut out = "key ".to_owned();
                out.append(key);
                out.append(" is not in memory");
                out
            },
        }
    }

    /// Stores `value` under `key`, replacing any earlier value; a fresh key
    /// goes to the end of the listing order.
    pub fn set_key(&mut self, key: String, value: String) -> (r: String)
        requires
            old(self).wf(),
        ensures
            final(self).wf(),
            final(self).as_map() == old(self).as_map().insert(key@, value@),
            old(self).spec_contains(key@) ==> final(self).keys == old(self).keys,
            !old(self).spec_contains(key@) ==> final(self).keys@ == old(self).keys@.push(key),
            r@ == "key "@ + key@ + " inserted into memory"@,
    {
        let mut out = "key ".to_owned();
        out.append(key.as_str());
        out.append(" inserted into memory");
        match self.find(key.as_str()) {
            Some(i) => {
                proof {
                    old(self).lemma_index_unique(key@, i as int);
                }
                self.values.remove(i);
                self.values.insert(i, value);
                proof {
                    assert(self.values@ =~= old(self).values@.update(i as int, value));
                    assert(self.wf());
                    assert forall|k: Seq<char>| self.spec_contains(k) && k != key@ implies old(
                        self,
                    ).spec_contains(k) && self.spec_value_of(k) == old(self).spec_value_of(k) by {
                        let j = self.spec_index_of(k);
                        assert(0 <= j < self.keys@.len() && self.keys@[j]@ == k);
                        assert(j != i);
                        old(self).lemma_index_unique(k, j);
                    }
                    assert(self.spec_value_of(key@) == value@) by {
                        self.lemma_index_unique(key@, i as int);
                    }
                    assert(self.as_map() =~= old(self).as_map().insert(key@, value@));
                }
            },
            None => {
                self.keys.push(key);
                self.values.push(value);
                proof {
                    let n = old(self).keys@.len() as int;
                    assert(self.keys@[n]@ == key@);
                    assert(self.wf()) by {
                        assert forall|a: int, b: int|
                            0 <= a < b < self.keys@.len() implies self.keys@[a]@
                            != self.keys@[b]@ by {
                            if b == n {
                                assert(self.keys@[a] == old(self).keys@[a]);
                            }
                        }
                    }
                    self.lemma_index_unique(key@, n);
                    assert(self.spec_value_of(key@) == value@);
                    assert forall|k: Seq<char>| self.spec_contains(k) && k != key@ implies old(
                        self,
                    ).spec_contains(k) && self.spec_value_of(k) == old(self).spec_value_of(k) by {
                        let j = self.spec_index_of(k);
                        assert(0 <= j < self.keys@.len() && self.keys@[j]@ == k);
                        assert(j != n);
                        old(self).lemma_index_unique(k, j);
                    }
                    assert forall|k: Seq<char>| old(self).spec_contains(k) implies self.spec_contains(
                        k,
                    ) by {
                        let j = old(self).spec_index_of(k);
                        assert(self.keys@[j]@ == k);
                    }
                    assert(self.as_map() =~= old(self).as_map().insert(key@, value@));
                }
            },
        }
        out
    }
}

/// Law: a store whose map was just updated with `key -> value` answers a
/// lookup of `key` with exactly `value`, whatever it held before.
pub proof fn lemma_set_then_get(before: KVStore, after: KVStore, key: Seq<char>, value: Seq<char>)
    requires
        after.wf(),
        after.as_map() == before.as_map().insert(key, value),
    ensures
        after.spec_get(key) == Some(value),
        after.spec_get_message(key) == "value of key "@ + key + ":\n"@ + value,
{
    assert(after.as_map().dom().contains(key));
    assert(after.spec_contains(key));
    assert(after.as_map()[key] == value);
    assert(after.spec_value_of(key) == value);
}

/// The lock invariant of the shared store: it stays well-formed.
pub struct StoreWf;

impl RwLockPredicate<KVStore> for StoreWf {
    open spec fn inv(self, v: KVStore) -> bool {
        v.wf()
    }
}

/// A handle to one shared memory store. The three derived tools each hold
/// a clone of this handle; every read and write takes the lock, so their
/// accesses are serialized even if they were ever invoked concurrently.
///
/// Two calls through a handle can see different store states (another
/// handle may write in between), so each answer is only promised to render
/// some well-formed state of the store.
pub struct KVMemoryTool {
    pub store: Arc<RwLock<KVStore, StoreWf>>,
}

impl KVMemoryTool {
    /// A fresh, empty store behind its lock.
    pub fn new() -> (r: Box<KVMemoryTool>) {
        let store = KVStore { keys: Vec::new(), values: Vec::new() };
        Box::new(KVMemoryTool { store: Arc::new(RwLock::new(store, Ghost(StoreWf))) })
    }

    /// Another handle to the same store.
    pub fn clone(&self) -> (r: Self)
        ensures
            r.store == self.store,
    {
        KVMemoryTool { store: arc_clone(&self.store) }
    }

    /// Renders the key listing of the store as locked now.
    pub fn list_keys(&self) -> (r: String)
        ensures
            exists|s: KVStore| s.wf() && r@ == s.spec_list(),
    {
        let read = self.store.acquire_read();
        let msg = read.borrow().list_keys();
        read.release_read();
        msg
    }

    /// Renders the value under `key` in the store as locked now, or a
    /// not-found note.
    pub fn get_key(&self, key: &str) -> (r: String)
        ensures
            exists|s: KVStore| s.wf() && r@ == s.spec_get_message(key@),
    {
        let read = self.store.acquire_read();
        let msg = read.borrow().get_key(key);
        read.release_read();
        msg
    }

    /// Stores `value` under `key` and acknowledges it.
    pub fn set_key(&mut self, key: String, value: String) -> (r: String)
        ensures
            final(self).store == old(self).store,
            r@ == "key "@ + key@ + " inserted into memory"@,
    {
        let (mut store, handle) = self.store.acquire_write();
        let msg = store.set_key(key, value);
        handle.release_write(store);
        msg
    }

    /// The listing tool over this store.
    pub fn list_tool(&self) -> (r: Box<MemoryListTool>)
        ensures
            r.0.store == self.store,
    {
        Box::new(MemoryListTool(self.clone()))
    }

    /// The lookup tool over this store.
    pub fn get_tool(&self) -> (r: Box<MemoryGetTool>)
        ensures
            r.0.store == self.store,
    {
        Box::new(MemoryGetTool(self.clone()))
    }

    /// The update tool over this store.
    pub fn set_tool(&self) -> (r: Box<MemorySetTool>)
        ensures
            r.0.store == self.store,
    {
        Box::new(MemorySetTool(self.clone()))
    }
}

/// Advertises the available keys to the model.
pub struct MemoryListTool(pub KVMemoryTool);

impl FunctionalTool for MemoryListTool {
    fn definition(&self) -> (r: Result<ToolDefinition, Error>)
        ensures
            r matches Ok(d) ==> d@.name == "memory_list_keys"@,
            r is Ok,
    {
        Ok(
            ToolDefinition::new(
                "memory_list_keys",
                "list the keys that are available in memory",
                "{\"type\":\"null\"}",
            ),
        )
    }

    /// Answers with the key listing of the shared store.
    fn invoke_fn(&mut self, call: &ToolCall) -> (r: Result<Message, Error>)
        ensures
            r matches Ok(m) ==> (m@ matches MessageView::Tool { id, name, result } && id
                == call.id@ && name == "memory_list_keys"@ && exists|s: KVStore|
                s.wf() && result == s.spec_list()),
            r is Ok,
    {
        let result = self.0.list_keys();
        Ok(Message::Tool { id: call.id.clone(), name: "memory_list_keys".to_owned(), result })
    }
}

/// Looks one key up for the model.
pub struct MemoryGetTool(pub KVMemoryTool);

impl FunctionalTool for MemoryGetTool {
    fn definition(&self) -> (r: Result<ToolDefinition, Error>)
        ensures
            r matches Ok(d) ==> d@.name == "memory_get_key"@,
            r is Ok,
    {
        Ok(
            ToolDefinition::new(
                "memory_get_key",
                "get the value associated with the given key in memory",
                "{\"type\":\"object\",\"properties\":{\"key\":{\"type\":\"string\"}},\"required\":[\"key\"]}",
            ),
        )
    }

    /// Reads the `key` argument and answers with the value under it, or
    /// with a not-found note; arguments without a `key` string are the
    /// per-call `JsonError`.
    fn invoke_fn(&mut self, call: &ToolCall) -> (r: Result<Message, Error>)
        ensures
            json_field(call.args@, "key"@) is None ==> (r matches Err(e) && e
                matches Error::JsonError(_)),
            json_field(call.args@, "key"@) matches Some(k) ==> (r matches Ok(m) && (m@
                matches MessageView::Tool { id, name, result } && id == call.id@ && name
                == "memory_get_key"@ && exists|s: KVStore|
                s.wf() && result == s.spec_get_message(k))),
    {
        match parse_string_field(call.args.as_str(), "key") {
            None => Err(Error::JsonError("expected a key argument".to_owned())),
            Some(key) => {
                let result = self.0.get_key(key.as_str());
                Ok(
                    Message::Tool {
                        id: call.id.clone(),
                        name: "memory_get_key".to_owned(),
                        result,
                    },
                )
            },
        }
    }
}

/// Stores one key-value pair for the model.
pub struct MemorySetTool(pub KVMemoryTool);

impl FunctionalTool for MemorySetTool {
    fn definition(&self) -> (r: Result<ToolDefinition, Error>)
        ensures
            r matches Ok(d) ==> d@.name == "memory_set_key"@,
            r is Ok,
    {
        Ok(
            ToolDefinition::new(
                "memory_set_key",
                "set the value associated with the given key in memory",
                "{\"type\":\"object\",\"properties\":{\"key\":{\"type\":\"string\"},\"value\":{\"type\":\"string\"}},\"required\":[\"key\",\"value\"]}",
            ),
        )
    }

    /// Reads the `key` and `value` arguments, stores the pair, and
    /// acknowledges; arguments without both strings are the per-call
    /// `JsonError`.
    fn invoke_fn(&mut self, call: &ToolCall) -> (r: Result<Message, Error>)
        ensures
            json_field(call.args@, "key"@) is None || json_field(call.args@, "value"@) is None ==> (
            r matches Err(e) && e matches Error::JsonError(_)),
            json_field(call.args@, "key"@) matches Some(k) ==> (json_field(call.args@, "value"@)
                is Some ==> (r matches Ok(m) && (m@ matches MessageView::Tool { id, name, result }
                && id == call.id@ && name == "memory_set_key"@ && result == "key "@ + k
                + " inserted into memory"@))),
    {
        let key = match parse_string_field(call.args.as_str(), "key") {
            None => {
                return Err(Error::JsonError("expected a key argument".to_owned()));
            },
            Some(key) => key,
        };
        let value = match parse_string_field(call.args.as_str(), "value") {
            None => {
                return Err(Error::JsonError("expected a value argument".to_owned()));
            },
            Some(value) => value,
        };
        let result = self.0.set_key(key, value);
        Ok(Message::Tool { id: call.id.clone(), name: "memory_set_key".to_owned(), result })
    }
}

} // verus!
