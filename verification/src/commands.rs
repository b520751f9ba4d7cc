//! The commands a client may ask the server to execute.
//!
//! Command requests arrive as an identifier with an opaque argument payload;
//! the identifier is validated here, at the boundary, before anything runs.

use vstd::prelude::*;

verus! {

/// The commands this server understands.
#[derive(Clone, Copy, PartialEq, Eq, Structural, Debug)]
pub enum CommandType {
    ExecuteStatement,
}

/// The identifier of a command, as the client sends it.
pub open spec fn spec_id(c: CommandType) -> Seq<char> {
    "executeStatement"@
}

/// Which command an identifier names, if any.
pub open spec fn spec_from_id(s: Seq<char>) -> Option<CommandType> {
    if s == "executeStatement"@ {
        Some(CommandType::ExecuteStatement)
    } else {
        None
    }
}

impl CommandType {
    /// The identifier under which the command is advertised and requested.
    pub fn id(&self) -> (r: &'static str)
        ensures
            r@ == spec_id(*self),
    {
        "executeStatement"
    }

    /// Validate an identifier at the boundary.
    pub fn from_id(id: &str) -> (r: Option<CommandType>)
        ensures
            r == spec_from_id(id@),
    {
        if crate::strutil::str_eq(id, "executeStatement") {
            Some(CommandType::ExecuteStatement)
        } else {
            None
        }
    }

    /// Every command the server advertises.
    pub fn all() -> (r: Vec<CommandType>)
        ensures
            r@.len() == 1,
            r@[0] == CommandType::ExecuteStatement,
    {
        let mut v: Vec<CommandType> = Vec::new();
        v.push(CommandType::ExecuteStatement);
        v
    }
}

/// A command request arrives with the server's own prefix in front of the
/// identifier; stripping removes it and leaves anything else alone.
pub open spec fn spec_strip_prefix(s: Seq<char>) -> Seq<char> {
    if s.len() >= 6 && s.subrange(0, 6) == "pglsp."@ {
        s.subrange(6, s.len() as int)
    } else {
        s
    }
}

/// Drop the leading `pglsp.` from a requested command identifier, if it is
/// there.
pub fn strip_command_prefix(s: &str) -> (r: &str)
    ensures
        r@ == spec_strip_prefix(s@),
{
    let n = s.unicode_len();
    let prefix = "pglsp.";
    proof {
        reveal_strlit("pglsp.");
    }
    if n < 6 {
        return s;
    }
    let mut i: usize = 0;
    while i < 6
        invariant
            n == s@.len(),
            6 <= n,
            i <= 6,
            prefix@ == "pglsp."@,
            prefix@.len() == 6,
            forall|j: int| 0 <= j < i ==> s@[j] == prefix@[j],
        decreases 6 - i,
    {
        if s.get_char(i) != prefix.get_char(i) {
            proof {
                assert(s@.subrange(0, 6)[i as int] != "pglsp."@[i as int]);
            }
            return s;
        }
        i = i + 1;
    }
    proof {
        assert(s@.subrange(0, 6) =~= "pglsp."@);
    }
    s.substring_char(6, n)
}

/// A command's identifier names that command and no other.
pub proof fn lemma_command_id_round_trip(c: CommandType)
    ensures
        spec_from_id(spec_id(c)) == Some(c),
{
}

} // verus!
