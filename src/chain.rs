use vstd::prelude::*;

verus! {

/// The role of a chain: packet filtering, address translation or route re-dispatch.
#[derive(Debug, Clone, Copy, PartialEq, Eq, Structural)]
pub enum ChainType {
    Filter,
    Nat,
    Route,
}

/// A point of the packet pipeline where a base chain attaches.
#[derive(Debug, Clone, Copy, PartialEq, Eq, Structural)]
pub enum Hook {
    Prerouting,
    Input,
    Forward,
    Output,
    Postrouting,
    Ingress,
    Egress,
}

/// The verdict for packets that reach the end of a base chain.
#[derive(Debug, Clone, Copy, PartialEq, Eq, Structural)]
pub enum ChainPolicy {
    Accept,
    Drop,
}

/// Refusal of a text that names no chain policy; it carries the lowercased text.
#[derive(Debug, Clone)]
pub enum ChainPolicyError {
    InvalidInput(String),
}

/// What `str::to_lowercase` makes of a text.
pub uninterp spec fn lower_of(s: Seq<char>) -> Seq<char>;

/// Relies on `str::to_lowercase`: the lowercase form of the text, a function of its
/// characters alone.
#[verifier::external_body]
fn lowercase(s: &str) -> (r: String)
    ensures
        r@ == lower_of(s@),
{
    s.to_lowercase()
}

/// The canonical text of a policy.
pub open spec fn policy_text(p: ChainPolicy) -> Seq<char> {
    match p {
        ChainPolicy::Accept => seq!['a', 'c', 'c', 'e', 'p', 't'],
        ChainPolicy::Drop => seq!['d', 'r', 'o', 'p'],
    }
}

/// The policy whose canonical text is `t`, if any.
pub open spec fn policy_of_text(t: Seq<char>) -> Option<ChainPolicy> {
    if t == policy_text(ChainPolicy::Accept) {
        Some(ChainPolicy::Accept)
    } else if t == policy_text(ChainPolicy::Drop) {
        Some(ChainPolicy::Drop)
    } else {
        None
    }
}

/// Whether two texts hold the same characters.
fn same_text(a: &str, b: &str) -> (r: bool)
    ensures
        r == (a@ == b@),
{
    let n = a.unicode_len();
    if n != b.unicode_len() {
        return false;
    }
    let mut i: usize = 0;
    while i < n
        invariant
            n == a@.len(),
            n == b@.len(),
            i <= n,
            a@.subrange(0, i as int) == b@.subrange(0, i as int),
        decreases n - i,
    {
        if a.get_char(i) != b.get_char(i) {
            assert(a@[i as int] != b@[i as int]);
            return false;
        }
        assert(a@.subrange(0, i + 1) == a@.subrange(0, i as int).push(a@[i as int]));
        assert(b@.subrange(0, i + 1) == b@.subrange(0, i as int).push(b@[i as int]));
        i = i + 1;
    }
    assert(a@ == a@.subrange(0, n as int));
    assert(b@ == b@.subrange(0, n as int));
    true
}

impl ChainPolicy {
    /// Reads a policy from text that is already lowercase: "accept" or "drop".
    pub fn from_lowercase(folded: &str) -> (r: Result<ChainPolicy, ChainPolicyError>)
        ensures
            match policy_of_text(folded@) {
                Some(p) => r == Ok::<ChainPolicy, ChainPolicyError>(p),
                None => r matches Err(ChainPolicyError::InvalidInput(t)) && t@ == folded@,
            },
    {
        proof {
            reveal_strlit("accept");
            reveal_strlit("drop");
            assert("accept"@ =~= policy_text(ChainPolicy::Accept));
            assert("drop"@ =~= policy_text(ChainPolicy::Drop));
        }
        if same_text(folded, "accept") {
            Ok(ChainPolicy::Accept)
        } else if same_text(folded, "drop") {
            Ok(ChainPolicy::Drop)
        } else {
            Err(ChainPolicyError::InvalidInput(String::from_str(folded)))
        }
    }

    /// Reads a policy from text in any letter case.
    pub fn from_str(s: &str) -> (r: Result<ChainPolicy, ChainPolicyError>)
        ensures
            match policy_of_text(lower_of(s@)) {
                Some(p) => r == Ok::<ChainPolicy, ChainPolicyError>(p),
                None => r matches Err(ChainPolicyError::InvalidInput(t)) && t@ == lower_of(s@),
            },
    {
        let folded = lowercase(s);
        ChainPolicy::from_lowercase(folded.as_str())
    }

    /// The canonical lowercase text of the policy.
    pub fn to_string(&self) -> (r: String)
        ensures
            r@ == policy_text(*self),
    {
        proof {
            reveal_strlit("accept");
            reveal_strlit("drop");
            assert("accept"@ =~= policy_text(ChainPolicy::Accept));
            assert("drop"@ =~= policy_text(ChainPolicy::Drop));
        }
        match self {
            ChainPolicy::Accept => String::from_str("accept"),
            ChainPolicy::Drop => String::from_str("drop"),
        }
    }
}

impl Default for ChainPolicy {
    fn default() -> (r: ChainPolicy)
        ensures
            r == ChainPolicy::Accept,
    {
        ChainPolicy::Accept
    }
}

/// Text that reads as a policy shows again as that policy's canonical text, which is the
/// lowercase form of what was read; and each canonical text reads back as its policy.
pub proof fn lemma_policy_round_trip(text: Seq<char>, p: ChainPolicy)
    ensures
        policy_of_text(lower_of(text)) == Some(p) ==> policy_text(p) == lower_of(text),
        policy_of_text(policy_text(p)) == Some(p),
{
    assert(policy_text(ChainPolicy::Accept) != policy_text(ChainPolicy::Drop)) by {
        assert(policy_text(ChainPolicy::Accept).len() != policy_text(ChainPolicy::Drop).len());
    }
}

/// The named hook priorities.
#[derive(Debug, Clone, Copy, PartialEq, Eq, Structural)]
pub enum Priority {
    NfIpPriConntrackDefrag,
    NfIpPriRaw,
    NfIpPriSelinuxFirst,
    NfIpPriConntrack,
    NfIpPriMangle,
    NfIpPriNatDst,
    NfIpPriFilter,
    NfIpPriSecurity,
    NfIpPriNatSrc,
    NfIpPriSelinuxLast,
    NfIpPriConntrackHelper,
}

/// The integer that a named priority stands for.
pub open spec fn priority_value(p: Priority) -> int {
    match p {
        Priority::NfIpPriConntrackDefrag => -400,
        Priority::NfIpPriRaw => -300,
        Priority::NfIpPriSelinuxFirst => -225,
        Priority::NfIpPriConntrack => -200,
        Priority::NfIpPriMangle => -150,
        Priority::NfIpPriNatDst => -100,
        Priority::NfIpPriFilter => 0,
        Priority::NfIpPriSecurity => 50,
        Priority::NfIpPriNatSrc => 100,
        Priority::NfIpPriSelinuxLast => 225,
        Priority::NfIpPriConntrackHelper => 300,
    }
}

impl Priority {
    /// The integer value of the priority.
    pub fn value(&self) -> (r: i32)
        ensures
            r == priority_value(*self),
    {
        match self {
            Priority::NfIpPriConntrackDefrag => -400,
            Priority::NfIpPriRaw => -300,
            Priority::NfIpPriSelinuxFirst => -225,
            Priority::NfIpPriConntrack => -200,
            Priority::NfIpPriMangle => -150,
            Priority::NfIpPriNatDst => -100,
            Priority::NfIpPriFilter => 0,
            Priority::NfIpPriSecurity => 50,
            Priority::NfIpPriNatSrc => 100,
            Priority::NfIpPriSelinuxLast => 225,
            Priority::NfIpPriConntrackHelper => 300,
        }
    }

    /// The named priority whose value is `value`; an error when none has it.
    pub fn try_from(value: i32) -> (r: Result<Priority, ()>)
        ensures
            match r {
                Ok(p) => priority_value(p) == value,
                Err(_) => forall|p: Priority| priority_value(p) != value,
            },
    {
        match value {
            -400 => Ok(Priority::NfIpPriConntrackDefrag),
            -300 => Ok(Priority::NfIpPriRaw),
            -225 => Ok(Priority::NfIpPriSelinuxFirst),
            -200 => Ok(Priority::NfIpPriConntrack),
            -150 => Ok(Priority::NfIpPriMangle),
            -100 => Ok(Priority::NfIpPriNatDst),
            0 => Ok(Priority::NfIpPriFilter),
            50 => Ok(Priority::NfIpPriSecurity),
            100 => Ok(Priority::NfIpPriNatSrc),
            225 => Ok(Priority::NfIpPriSelinuxLast),
            300 => Ok(Priority::NfIpPriConntrackHelper),
            _ => Err(()),
        }
    }
}

/// Distinct named priorities stand for distinct integers, all within [-400, 300], so
/// the integer of a priority leads back to that priority alone.
pub proof fn lemma_priority_values(p: Priority, q: Priority)
    ensures
        priority_value(p) == priority_value(q) ==> p == q,
        -400 <= priority_value(p) <= 300,
{
}

/// A base chain: its type, an optional named priority and its policy.
#[derive(Debug, Clone, Copy)]
pub struct Chain {
    pub chain_type: ChainType,
    pub priority: Option<Priority>,
    pub policy: ChainPolicy,
}

} // verus!
