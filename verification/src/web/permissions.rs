//! What an agent may do with a tool, a host or the network.
use vstd::prelude::*;
use vstd::string::*;
use crate::text;

verus! {

/// What happens when an agent wants to use a tool.
#[derive(Debug, Clone, Copy, PartialEq, Eq, Structural)]
pub enum ToolPolicy {
    Allow,
    Ask,
    Block,
}

/// What a word says of the use of a tool.
pub open spec fn tool_policy_of(word: Seq<char>) -> Option<ToolPolicy> {
    if word == "allow"@ {
        Some(ToolPolicy::Allow)
    } else if word == "ask"@ {
        Some(ToolPolicy::Ask)
    } else if word == "block"@ {
        Some(ToolPolicy::Block)
    } else {
        None
    }
}

impl ToolPolicy {
    /// The word for a policy.
    pub open spec fn word(self) -> Seq<char> {
        match self {
            ToolPolicy::Allow => "allow"@,
            ToolPolicy::Ask => "ask"@,
            ToolPolicy::Block => "block"@,
        }
    }

    /// What a word says of the use of a tool.
    pub fn parse(word: &str) -> (r: Option<ToolPolicy>)
        ensures
            r == tool_policy_of(word@),
    {
        if text::same(word, "allow") {
            Some(ToolPolicy::Allow)
        } else if text::same(word, "ask") {
            Some(ToolPolicy::Ask)
        } else if text::same(word, "block") {
            Some(ToolPolicy::Block)
        } else {
            None
        }
    }

    /// The word for a policy.
    pub fn as_str(self) -> (r: &'static str)
        ensures
            r@ == self.word(),
    {
        match self {
            ToolPolicy::Allow => "allow",
            ToolPolicy::Ask => "ask",
            ToolPolicy::Block => "block",
        }
    }
}

/// Whether an agent may reach something: a host, or the network.
#[derive(Debug, Clone, Copy, PartialEq, Eq, Structural)]
pub enum Access {
    Allow,
    Deny,
}

/// What a word says of an access.
pub open spec fn access_of(word: Seq<char>) -> Option<Access> {
    if word == "allow"@ {
        Some(Access::Allow)
    } else if word == "deny"@ {
        Some(Access::Deny)
    } else {
        None
    }
}

impl Access {
    /// The word for an access.
    pub open spec fn word(self) -> Seq<char> {
        match self {
            Access::Allow => "allow"@,
            Access::Deny => "deny"@,
        }
    }

    /// What a word says of an access.
    pub fn parse(word: &str) -> (r: Option<Access>)
        ensures
            r == access_of(word@),
    {
        if text::same(word, "allow") {
            Some(Access::Allow)
        } else if text::same(word, "deny") {
            Some(Access::Deny)
        } else {
            None
        }
    }

    /// The word for an access.
    pub fn as_str(self) -> (r: &'static str)
        ensures
            r@ == self.word(),
    {
        match self {
            Access::Allow => "allow",
            Access::Deny => "deny",
        }
    }
}

/// The word for a policy is read back.
pub proof fn law_policy_word_is_read_back(policy: ToolPolicy)
    ensures
        tool_policy_of(policy.word()) == Some(policy),
{
    reveal_strlit("allow");
    reveal_strlit("ask");
    reveal_strlit("block");
    assert("allow"@.len() == 5 && "ask"@.len() == 3 && "block"@.len() == 5);
    assert("allow"@[0] != "block"@[0]);
}

/// The word for an access is read back.
pub proof fn law_access_word_is_read_back(access: Access)
    ensures
        access_of(access.word()) == Some(access),
{
    reveal_strlit("allow");
    reveal_strlit("deny");
    assert("allow"@.len() == 5 && "deny"@.len() == 4);
}

// ── Laws ─────────────────────────────────────────────────────────────────────

/// Only the word for it allows: a word is read as allowing exactly where it is that word, and as the
/// two others exactly where it is theirs.
pub proof fn law_only_its_word_allows(
    word: &str,
    policy: Option<ToolPolicy>,
    access: Option<Access>,
)
    requires
        call_ensures(ToolPolicy::parse, (word,), policy),
        call_ensures(Access::parse, (word,), access),
    ensures
        policy == Some(ToolPolicy::Allow) <==> word@ == "allow"@,
        policy == Some(ToolPolicy::Ask) <==> word@ == "ask"@,
        policy == Some(ToolPolicy::Block) <==> word@ == "block"@,
        access == Some(Access::Allow) <==> word@ == "allow"@,
        access == Some(Access::Deny) <==> word@ == "deny"@,
{
    reveal_strlit("allow");
    reveal_strlit("ask");
    reveal_strlit("block");
    reveal_strlit("deny");
    assert("allow"@.len() == 5 && "ask"@.len() == 3 && "block"@.len() == 5 && "deny"@.len() == 4);
    assert("allow"@[0] != "block"@[0]);
}

} // verus!
