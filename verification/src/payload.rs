//! One-shot payload cache for inter-window data passing. A creating window
//! stores a structured value before opening a new window; the new window
//! takes (consumes) it once on initialization.
use vstd::prelude::*;

use crate::strmap::StrMap;

verus! {

#[verifier::external_type_specification]
#[verifier::external_body]
pub struct ExValue(serde_json::Value);

/// Relies on `serde_json::Value::clone`, a derived deep clone: the copy is
/// equal to the value it was cloned from.
#[verifier::external_body]
fn clone_value(v: &serde_json::Value) -> (r: serde_json::Value)
    ensures
        r == *v,
{
    v.clone()
}

/// A label-addressed store of structured payload values, abstracted as a
/// `Map<Seq<char>, serde_json::Value>`. Callers that share one cache across
/// concurrent commands wrap it in their own mutual exclusion.
pub struct PayloadCache {
    entries: StrMap<serde_json::Value>,
}

impl View for PayloadCache {
    type V = Map<Seq<char>, serde_json::Value>;

    closed spec fn view(&self) -> Map<Seq<char>, serde_json::Value> {
        self.entries@
    }
}

impl PayloadCache {
    /// An empty cache.
    pub fn new() -> (r: Self)
        ensures
            r@ == Map::<Seq<char>, serde_json::Value>::empty(),
    {
        PayloadCache { entries: StrMap::new() }
    }

    /// Store a payload for a window label. Overwrites any existing payload.
    pub fn set(&mut self, label: &str, value: serde_json::Value)
        ensures
            final(self)@ == old(self)@.insert(label@, value),
    {
        self.entries.insert(label, value);
    }

    /// Take (consume) the payload for a window label; nothing is left for a
    /// second take.
    pub fn take(&mut self, label: &str) -> (r: Option<serde_json::Value>)
        ensures
            final(self)@ == old(self)@.remove(label@),
            match r {
                Some(v) => old(self)@.dom().contains(label@) && v == old(self)@[label@],
                None => !old(self)@.dom().contains(label@),
            },
    {
        self.entries.remove(label)
    }

    /// Peek at the payload without consuming it.
    pub fn peek(&self, label: &str) -> (r: Option<serde_json::Value>)
        ensures
            match r {
                Some(v) => self@.dom().contains(label@) && v == self@[label@],
                None => !self@.dom().contains(label@),
            },
    {
        match self.entries.get(label) {
            Some(v) => Some(clone_value(v)),
            None => None,
        }
    }

    /// Clear all cached payloads.
    pub fn clear(&mut self)
        ensures
            final(self)@ == Map::<Seq<char>, serde_json::Value>::empty(),
    {
        self.entries.clear();
    }
}

/// One-shot delivery: after a payload is stored and then taken, an
/// immediately following take for the same label finds nothing, and other
/// labels are untouched.
pub proof fn lemma_take_after_set_is_one_shot(
    m0: Map<Seq<char>, serde_json::Value>,
    label: Seq<char>,
    value: serde_json::Value,
)
    ensures
        m0.insert(label, value).dom().contains(label),
        m0.insert(label, value)[label] == value,
        !m0.insert(label, value).remove(label).dom().contains(label),
        forall|k: Seq<char>|
            k != label ==> m0.insert(label, value).remove(label).dom().contains(k)
                == m0.dom().contains(k),
{
}

} // verus!
