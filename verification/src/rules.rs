//! Spawn rules: an ordered list of predicates over a client's attributes,
//! each with a priority, of which the first that matches wins.

use crate::error::ConfigError;
use vstd::prelude::*;

verus! {

/// What the window manager knows of a managed window.
#[derive(Debug)]
pub struct ClientIdentity {
    /// The id that the display server gave the window.
    pub id: u32,
    /// The window's class name.
    pub class: String,
    /// The window's title.
    pub title: String,
}

impl ClientIdentity {
    /// The identity with the given id, class name and title.
    pub fn new(id: u32, class: &str, title: &str) -> (made: ClientIdentity)
        ensures
            made.id == id,
            made.class@ == class@,
            made.title@ == title@,
    {
        ClientIdentity { id, class: class.to_owned(), title: title.to_owned() }
    }
}

/// The attribute of a client that a predicate reads.
#[derive(Clone, Copy, Debug, PartialEq, Eq, Structural)]
pub enum Attribute {
    ClassName,
    Title,
}

/// A test on one attribute of a client: the attribute must equal the
/// pattern. The pattern is never empty.
#[derive(Debug)]
pub struct Predicate {
    attribute: Attribute,
    pattern: String,
}

impl Predicate {
    #[verifier::type_invariant]
    spec fn pattern_given(self) -> bool {
        self.pattern@.len() > 0
    }

    /// The attribute that the predicate reads.
    pub closed spec fn attribute(self) -> Attribute {
        self.attribute
    }

    /// The text that the attribute must equal.
    pub closed spec fn pattern(self) -> Seq<char> {
        self.pattern@
    }

    /// Whether the predicate holds of a client with the given class name and
    /// title.
    pub open spec fn holds(self, class: Seq<char>, title: Seq<char>) -> bool {
        match self.attribute() {
            Attribute::ClassName => class == self.pattern(),
            Attribute::Title => title == self.pattern(),
        }
    }

    /// Builds a predicate, rejecting an empty pattern as malformed.
    pub fn new(attribute: Attribute, pattern: &str) -> (made: Result<Predicate, ConfigError>)
        ensures
            made is Ok <==> pattern@.len() > 0,
            made matches Ok(p) ==> p.attribute() == attribute && p.pattern() == pattern@,
            made matches Err(e) ==> e == ConfigError::MalformedPredicate,
    {
        if pattern.is_empty() {
            Err(ConfigError::MalformedPredicate)
        } else {
            Ok(Predicate { attribute, pattern: pattern.to_owned() })
        }
    }

    /// A predicate on the class name.
    pub fn class_name(pattern: &str) -> (made: Result<Predicate, ConfigError>)
        ensures
            made is Ok <==> pattern@.len() > 0,
            made matches Ok(p) ==> p.attribute() == Attribute::ClassName && p.pattern()
                == pattern@,
            made matches Err(e) ==> e == ConfigError::MalformedPredicate,
    {
        Predicate::new(Attribute::ClassName, pattern)
    }

    /// A predicate on the title.
    pub fn title(pattern: &str) -> (made: Result<Predicate, ConfigError>)
        ensures
            made is Ok <==> pattern@.len() > 0,
            made matches Ok(p) ==> p.attribute() == Attribute::Title && p.pattern() == pattern@,
            made matches Err(e) ==> e == ConfigError::MalformedPredicate,
    {
        Predicate::new(Attribute::Title, pattern)
    }

    /// Whether the predicate holds of the client.
    pub fn matches(&self, identity: &ClientIdentity) -> (hit: bool)
        ensures
            hit == self.holds(identity.class@, identity.title@),
    {
        match self.attribute {
            Attribute::ClassName => identity.class == self.pattern,
            Attribute::Title => identity.title == self.pattern,
        }
    }

    /// The text that the attribute must equal; it is never empty.
    pub fn pattern_text(&self) -> (text: &str)
        ensures
            text@ == self.pattern(),
            text@.len() > 0,
    {
        proof {
            use_type_invariant(self);
        }
        self.pattern.as_str()
    }

    /// The attribute that the predicate reads.
    pub fn attribute_read(&self) -> (attribute: Attribute)
        ensures
            attribute == self.attribute(),
    {
        self.attribute
    }
}

/// A spawn rule: a predicate and the priority that the caller attached to
/// it. The priority is handed back on a match; it does not order the rules.
#[derive(Debug)]
pub struct MatchRule {
    pub predicate: Predicate,
    pub priority: i32,
}

impl MatchRule {
    /// The rule with the given predicate and priority.
    pub fn new(predicate: Predicate, priority: i32) -> (rule: MatchRule)
        ensures
            rule.predicate == predicate,
            rule.priority == priority,
    {
        MatchRule { predicate, priority }
    }
}

/// Whether rule `at` is the first rule of `rules` that matches the client.
pub open spec fn is_first_match(
    rules: Seq<MatchRule>,
    class: Seq<char>,
    title: Seq<char>,
    at: int,
) -> bool {
    &&& 0 <= at < rules.len()
    &&& rules[at].predicate.holds(class, title)
    &&& forall|j: int| 0 <= j < at ==> !(#[trigger] rules[j]).predicate.holds(class, title)
}

/// The priority of the first rule that matches the client, if any rule does.
pub open spec fn resolved(rules: Seq<MatchRule>, class: Seq<char>, title: Seq<char>) -> Option<
    i32,
> {
    if exists|at: int| is_first_match(rules, class, title, at) {
        Some(rules[choose|at: int| is_first_match(rules, class, title, at)].priority)
    } else {
        None
    }
}

/// Walks the rules in the order given and returns the priority of the first
/// one that matches the client, or `None` when none does.
pub fn resolve(identity: &ClientIdentity, rules: &Vec<MatchRule>) -> (found: Option<i32>)
    ensures
        found == resolved(rules@, identity.class@, identity.title@),
        found is None <==> forall|j: int|
            0 <= j < rules.len() ==> !(#[trigger] rules[j]).predicate.holds(
                identity.class@,
                identity.title@,
            ),
{
    let mut i: usize = 0;
    while i < rules.len()
        invariant
            i <= rules.len(),
            forall|j: int|
                0 <= j < i ==> !(#[trigger] rules[j]).predicate.holds(
                    identity.class@,
                    identity.title@,
                ),
        decreases rules.len() - i,
    {
        if rules[i].predicate.matches(identity) {
            proof {
                lemma_first_match_decides(rules@, identity.class@, identity.title@, i as int);
            }
            return Some(rules[i].priority);
        }
        i += 1;
    }
    proof {
        lemma_no_match_decides(rules@, identity.class@, identity.title@);
    }
    None
}

/// At most one rule is the first to match, and it fixes the result.
pub proof fn lemma_first_match_decides(
    rules: Seq<MatchRule>,
    class: Seq<char>,
    title: Seq<char>,
    at: int,
)
    requires
        is_first_match(rules, class, title, at),
    ensures
        resolved(rules, class, title) == Some(rules[at].priority),
        forall|other: int| is_first_match(rules, class, title, other) ==> other == at,
{
    assert forall|other: int| is_first_match(rules, class, title, other) implies other == at by {
        if other < at {
            assert(!rules[other].predicate.holds(class, title));
        } else if at < other {
            assert(!rules[at].predicate.holds(class, title));
        }
    }
}

/// Where no rule matches, nothing is resolved; and where nothing is
/// resolved, no rule matches.
pub proof fn lemma_no_match_decides(rules: Seq<MatchRule>, class: Seq<char>, title: Seq<char>)
    ensures
        resolved(rules, class, title) is None <==> forall|j: int|
            0 <= j < rules.len() ==> !(#[trigger] rules[j]).predicate.holds(class, title),
{
    if exists|j: int| 0 <= j < rules.len() && (#[trigger] rules[j]).predicate.holds(class, title) {
        let j = choose|j: int|
            0 <= j < rules.len() && (#[trigger] rules[j]).predicate.holds(class, title);
        lemma_some_rule_is_first(rules, class, title, j);
    }
}

/// If some rule up to `upto` matches, then some rule is the first to match.
proof fn lemma_some_rule_is_first(
    rules: Seq<MatchRule>,
    class: Seq<char>,
    title: Seq<char>,
    upto: int,
)
    requires
        0 <= upto < rules.len(),
        rules[upto].predicate.holds(class, title),
    ensures
        exists|at: int| is_first_match(rules, class, title, at),
    decreases upto,
{
    if exists|j: int| 0 <= j < upto && (#[trigger] rules[j]).predicate.holds(class, title) {
        let j = choose|j: int| 0 <= j < upto && (#[trigger] rules[j]).predicate.holds(class, title);
        lemma_some_rule_is_first(rules, class, title, j);
    } else {
        assert(is_first_match(rules, class, title, upto));
    }
}

} // verus!
