//! The subscription registry: an ordered list of (pattern, payload kind)
//! entries. A topic resolves to the first entry, in registration order,
//! whose pattern matches it; the whole set is only ever replaced wholesale.
//!
//! The set of payload shapes carried by the broker is closed, so an entry
//! names its decoder by a tag rather than holding one; the unverified rim
//! decodes the payload for whichever entry dispatch resolves to. Because
//! wildcard patterns are not generally disjoint, first-registered-wins is
//! part of the contract here, not an accident of iteration order.

use vstd::prelude::*;
use vstd::string::*;
use crate::pattern::{has_nonfinal_multi, spec_compile, spec_topic_matches, PatternError,
    TopicPattern};

verus! {

/// The typed payload a subscription decodes its messages into.
#[derive(Debug, Clone, Copy, PartialEq, Eq, Structural)]
pub enum PayloadKind {
    StateUpdate,
    PreparedRecipeIds,
    RecipeList,
    NewResult,
    ErrorReport,
}

/// One registration: a compiled pattern and the payload kind its messages
/// decode into.
#[derive(Debug)]
pub struct Subscription {
    pub pattern: TopicPattern,
    pub kind: PayloadKind,
}

/// Whether the subscription at index `i` of `subs` is the one a topic
/// resolves to: its pattern matches and no earlier pattern does.
pub open spec fn first_match(subs: Seq<Subscription>, topic: Seq<char>, i: int) -> bool {
    &&& 0 <= i < subs.len()
    &&& spec_topic_matches(subs[i].pattern@, topic)
    &&& forall|j: int| 0 <= j < i ==> !spec_topic_matches(subs[j].pattern@, topic)
}

/// The ordered set of active subscriptions.
#[derive(Debug)]
pub struct Registry {
    subs: Vec<Subscription>,
}

impl View for Registry {
    type V = Seq<Subscription>;

    closed spec fn view(&self) -> Seq<Subscription> {
        self.subs@
    }
}

impl Registry {
    /// An empty registry: no topic dispatches anywhere.
    pub fn new() -> (r: Registry)
        ensures
            r@ == Seq::<Subscription>::empty(),
    {
        let r = Registry { subs: Vec::new() };
        proof {
            assert(r@ =~= Seq::<Subscription>::empty());
        }
        r
    }

    /// Replaces the whole active set at once. No part of the old set stays
    /// visible: after two replacements only the second list can dispatch.
    pub fn register_all(&mut self, subs: Vec<Subscription>)
        ensures
            final(self)@ == subs@,
    {
        self.subs = subs;
    }

    /// The active subscriptions, in registration order.
    pub fn subscriptions(&self) -> (r: &Vec<Subscription>)
        ensures
            r@ == self@,
    {
        &self.subs
    }

    /// Resolves a topic to the subscription that handles it: the first
    /// match in registration order, even where several patterns match.
    /// `None` means the message is dropped, which is not an error.
    pub fn dispatch(&self, topic: &str) -> (r: Option<usize>)
        ensures
            match r {
                Some(i) => first_match(self@, topic@, i as int),
                None => forall|j: int|
                    0 <= j < self@.len() ==> !spec_topic_matches(self@[j].pattern@, topic@),
            },
    {
        let n = self.subs.len();
        let mut i: usize = 0;
        while i < n
            invariant
                i <= n,
                n == self@.len(),
                self@ == self.subs@,
                forall|j: int| 0 <= j < i ==> !spec_topic_matches(self@[j].pattern@, topic@),
            decreases n - i,
        {
            if self.subs[i].pattern.matches(topic) {
                return Some(i);
            }
            i = i + 1;
        }
        None
    }
}

/// Joins a topic prefix and a suffix into one topic string.
pub fn topic_with_suffix(prefix: &str, suffix: &str) -> (r: String)
    ensures
        r@ == prefix@ + suffix@,
{
    let mut s = prefix.to_owned();
    s.append(suffix);
    s
}

/// Whether one entry of the standard subscription set is as it should be:
/// compiled from the prefix and the given suffix, with the given kind.
pub open spec fn is_standard_sub(
    sub: Subscription,
    prefix: Seq<char>,
    suffix: Seq<char>,
    kind: PayloadKind,
) -> bool {
    &&& sub.kind == kind
    &&& sub.pattern@ == spec_compile(prefix + suffix)
    &&& sub.pattern.filter_view() == prefix + suffix
}

/// Compiles the standard subscription set for a topic prefix: state,
/// prepared recipe identifiers, the recipe list, per-recipe results and the
/// error channel, in that registration order. Fails only where the prefix
/// itself puts a `#` part in a non-final position of one of the topics.
pub fn standard_subscriptions(prefix: &str) -> (r: Result<Vec<Subscription>, PatternError>)
    ensures
        match r {
            Ok(subs) => {
                &&& subs@.len() == 5
                &&& is_standard_sub(subs@[0], prefix@, "/state"@, PayloadKind::StateUpdate)
                &&& is_standard_sub(
                    subs@[1],
                    prefix@,
                    "/preparedRecipeIds"@,
                    PayloadKind::PreparedRecipeIds,
                )
                &&& is_standard_sub(subs@[2], prefix@, "/recipes"@, PayloadKind::RecipeList)
                &&& is_standard_sub(
                    subs@[3],
                    prefix@,
                    "/recipes/+/result"@,
                    PayloadKind::NewResult,
                )
                &&& is_standard_sub(subs@[4], prefix@, "/error"@, PayloadKind::ErrorReport)
            },
            Err(e) => e == PatternError::MultiWildcardNotLast && (has_nonfinal_multi(
                prefix@ + "/state"@,
            ) || has_nonfinal_multi(prefix@ + "/preparedRecipeIds"@) || has_nonfinal_multi(
                prefix@ + "/recipes"@,
            ) || has_nonfinal_multi(prefix@ + "/recipes/+/result"@) || has_nonfinal_multi(
                prefix@ + "/error"@,
            )),
        },
{
    let state_topic = topic_with_suffix(prefix, "/state");
    let prepared_topic = topic_with_suffix(prefix, "/preparedRecipeIds");
    let recipes_topic = topic_with_suffix(prefix, "/recipes");
    let result_topic = topic_with_suffix(prefix, "/recipes/+/result");
    let error_topic = topic_with_suffix(prefix, "/error");
    let state_pattern = match TopicPattern::compile(state_topic.as_str()) {
        Ok(p) => p,
        Err(e) => {
            return Err(e);
        },
    };
    let prepared_pattern = match TopicPattern::compile(prepared_topic.as_str()) {
        Ok(p) => p,
        Err(e) => {
            return Err(e);
        },
    };
    let recipes_pattern = match TopicPattern::compile(recipes_topic.as_str()) {
        Ok(p) => p,
        Err(e) => {
            return Err(e);
        },
    };
    let result_pattern = match TopicPattern::compile(result_topic.as_str()) {
        Ok(p) => p,
        Err(e) => {
            return Err(e);
        },
    };
    let error_pattern = match TopicPattern::compile(error_topic.as_str()) {
        Ok(p) => p,
        Err(e) => {
            return Err(e);
        },
    };
    let mut subs: Vec<Subscription> = Vec::new();
    subs.push(Subscription { pattern: state_pattern, kind: PayloadKind::StateUpdate });
    subs.push(Subscription { pattern: prepared_pattern, kind: PayloadKind::PreparedRecipeIds });
    subs.push(Subscription { pattern: recipes_pattern, kind: PayloadKind::RecipeList });
    subs.push(Subscription { pattern: result_pattern, kind: PayloadKind::NewResult });
    subs.push(Subscription { pattern: error_pattern, kind: PayloadKind::ErrorReport });
    Ok(subs)
}

/// The filter strings of a subscription list, in order, for subscribing at
/// the wire.
pub fn topic_filters(subs: &Vec<Subscription>) -> (r: Vec<String>)
    ensures
        r@.len() == subs@.len(),
        forall|i: int| 0 <= i < subs@.len() ==> r@[i]@ == subs@[i].pattern.filter_view(),
{
    let n = subs.len();
    let mut r: Vec<String> = Vec::new();
    let mut i: usize = 0;
    while i < n
        invariant
            i <= n,
            n == subs@.len(),
            r@.len() == i,
            forall|j: int| 0 <= j < i ==> r@[j]@ == subs@[j].pattern.filter_view(),
        decreases n - i,
    {
        r.push(subs[i].pattern.topic_filter());
        i = i + 1;
    }
    r
}

} // verus!
