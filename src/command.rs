use crate::text::{chars_of, string_of};
use crate::version::{check_version, parse_version, version_of, Version, VersionError};
use vstd::prelude::*;

verus! {

/// The workflow that a command asks for.
#[derive(Debug, Clone, Copy, PartialEq, Eq, Structural)]
pub enum CommandKind {
    ReleaseCandidate,
    Release,
    PrepareHotfix,
}

/// A validated command: a workflow and its version.
#[derive(Debug, Clone, Copy, PartialEq, Eq, Structural)]
pub struct Command {
    pub kind: CommandKind,
    pub version: Version,
}

/// Why a message was refused.
#[derive(Debug, Clone, Copy, PartialEq, Eq, Structural)]
pub enum CommandError {
    MalformedMessage,
    UnknownCommand,
    InvalidVersion,
}

/// `c` equals the lower-case ASCII letter or sign `k`, ignoring ASCII case.
pub open spec fn fold_eq(c: char, k: char) -> bool {
    c == k || ('a' <= k && k <= 'z' && c as u32 + 32 == k as u32)
}

/// `s` equals the keyword `k`, ignoring ASCII case.
pub open spec fn matches_keyword(s: Seq<char>, k: Seq<char>) -> bool {
    s.len() == k.len() && forall|i: int| 0 <= i < s.len() ==> fold_eq(#[trigger] s[i], k[i])
}

pub open spec fn rc_word() -> Seq<char> {
    seq!['r', 'c']
}

pub open spec fn release_word() -> Seq<char> {
    seq!['r', 'e', 'l', 'e', 'a', 's', 'e']
}

pub open spec fn hotfix_word() -> Seq<char> {
    seq!['p', 'r', 'e', 'p', 'a', 'r', 'e', '-', 'h', 'o', 't', 'f', 'i', 'x']
}

/// The workflow that a keyword names, if any.
pub open spec fn kind_of(s: Seq<char>) -> Option<CommandKind> {
    if matches_keyword(s, rc_word()) {
        Some(CommandKind::ReleaseCandidate)
    } else if matches_keyword(s, release_word()) {
        Some(CommandKind::Release)
    } else if matches_keyword(s, hotfix_word()) {
        Some(CommandKind::PrepareHotfix)
    } else {
        None
    }
}

/// The message holds exactly one space, at `i`: splitting on spaces gives two tokens.
pub open spec fn single_space_at(s: Seq<char>, i: int) -> bool {
    0 <= i < s.len() && s[i] == ' ' && forall|j: int| 0 <= j < s.len() && j != i ==> s[j] != ' '
}

/// What parsing a message yields.
pub open spec fn command_of(s: Seq<char>) -> Result<Command, CommandError> {
    if !(exists|i: int| single_space_at(s, i)) {
        Err(CommandError::MalformedMessage)
    } else {
        let i = choose|i: int| single_space_at(s, i);
        let word = s.subrange(0, i);
        let arg = s.subrange(i + 1, s.len() as int);
        match kind_of(word) {
            None => Err(CommandError::UnknownCommand),
            Some(kind) => match version_of(arg) {
                None => Err(CommandError::InvalidVersion),
                Some(v) => if kind != CommandKind::ReleaseCandidate && !v.stable {
                    Err(CommandError::InvalidVersion)
                } else {
                    Ok(Command { kind, version: v })
                },
            },
        }
    }
}

/// Finds the only space of the message, if it holds exactly one.
fn find_single_space(s: &Vec<char>) -> (r: Option<usize>)
    ensures
        r matches Some(i) ==> single_space_at(s@, i as int),
        r is None ==> !(exists|i: int| single_space_at(s@, i)),
{
    let mut found: Option<usize> = None;
    let mut i: usize = 0;
    while i < s.len()
        invariant
            i <= s.len(),
            found matches Some(p) ==> p < i && s@[p as int] == ' ' && forall|j: int|
                0 <= j < i && j != p ==> s@[j] != ' ',
            found is None ==> forall|j: int| 0 <= j < i ==> s@[j] != ' ',
        decreases s.len() - i,
    {
        if s[i] == ' ' {
            match found {
                Some(p) => {
                    assert(!(exists|k: int| single_space_at(s@, k))) by {
                        assert forall|k: int| !single_space_at(s@, k) by {
                            if k != p as int {
                                assert(s@[p as int] == ' ');
                            } else {
                                assert(s@[i as int] == ' ');
                            }
                        }
                    }
                    return None;
                },
                None => {
                    found = Some(i);
                },
            }
        }
        i = i + 1;
    }
    match found {
        Some(p) => Some(p),
        None => {
            assert forall|k: int| !single_space_at(s@, k) by {
                if 0 <= k < s@.len() {
                    assert(s@[k] != ' ');
                }
            }
            None
        },
    }
}

/// Compares characters with a lower-case keyword, ignoring ASCII case.
fn keyword_eq(s: &Vec<char>, from: usize, to: usize, k: &Vec<char>) -> (r: bool)
    requires
        from <= to <= s.len(),
    ensures
        r == matches_keyword(s@.subrange(from as int, to as int), k@),
{
    if to - from != k.len() {
        return false;
    }
    let ghost w = s@.subrange(from as int, to as int);
    let mut i: usize = 0;
    while i < k.len()
        invariant
            i <= k.len(),
            k.len() == to - from,
            from <= to <= s.len(),
            w == s@.subrange(from as int, to as int),
            forall|j: int| 0 <= j < i ==> fold_eq(#[trigger] w[j], k@[j]),
        decreases k.len() - i,
    {
        let c = s[from + i];
        let d = k[i];
        let same = c == d || ('a' <= d && d <= 'z' && (d as u32) - 32 == c as u32);
        if !same {
            assert(!fold_eq(w[i as int], k@[i as int]));
            return false;
        }
        i = i + 1;
    }
    true
}

/// Names the workflow of the keyword found in `s[from..to]`.
fn keyword_kind(s: &Vec<char>, from: usize, to: usize) -> (r: Option<CommandKind>)
    requires
        from <= to <= s.len(),
    ensures
        r == kind_of(s@.subrange(from as int, to as int)),
{
    let rc = vec!['r', 'c'];
    let release = vec!['r', 'e', 'l', 'e', 'a', 's', 'e'];
    let hotfix = vec!['p', 'r', 'e', 'p', 'a', 'r', 'e', '-', 'h', 'o', 't', 'f', 'i', 'x'];
    proof {
        assert(rc@ =~= rc_word());
        assert(release@ =~= release_word());
        assert(hotfix@ =~= hotfix_word());
    }
    if keyword_eq(s, from, to, &rc) {
        Some(CommandKind::ReleaseCandidate)
    } else if keyword_eq(s, from, to, &release) {
        Some(CommandKind::Release)
    } else if keyword_eq(s, from, to, &hotfix) {
        Some(CommandKind::PrepareHotfix)
    } else {
        None
    }
}

/// Parses a chat message of the form `<command> <version>`.
pub fn parse_command(message: &str) -> (r: Result<Command, CommandError>)
    ensures
        r == command_of(message@),
{
    let s = chars_of(message);
    let at = match find_single_space(&s) {
        Some(p) => p,
        None => return Err(CommandError::MalformedMessage),
    };
    let ghost i = choose|i: int| single_space_at(s@, i);
    proof {
        if i != at as int {
            assert(s@[at as int] == ' ');
        }
    }
    let kind = match keyword_kind(&s, 0, at) {
        Some(k) => k,
        None => return Err(CommandError::UnknownCommand),
    };
    let mut arg: Vec<char> = Vec::new();
    let mut j: usize = at + 1;
    while j < s.len()
        invariant
            at + 1 <= j <= s.len(),
            arg@ == s@.subrange(at + 1, j as int),
        decreases s.len() - j,
    {
        arg.push(s[j]);
        j = j + 1;
    }
    let text = string_of(&arg);
    let version = match parse_version(text.as_str()) {
        Ok(v) => v,
        Err(VersionError::InvalidVersion) => return Err(CommandError::InvalidVersion),
    };
    if kind != CommandKind::ReleaseCandidate && !version.stable {
        return Err(CommandError::InvalidVersion);
    }
    Ok(Command { kind, version })
}

/// Checks a bare release version for the stable-only workflows.
pub fn check_stable_argument(s: &str) -> (r: Result<Version, CommandError>)
    ensures
        r is Ok <==> (version_of(s@) matches Some(v) && v.stable),
{
    match check_version(s) {
        Ok(v) => Ok(v),
        Err(_) => Err(CommandError::InvalidVersion),
    }
}

/// Stable-only workflows refuse a version with a prerelease or build part.
pub proof fn lemma_stable_required(s: Seq<char>, i: int)
    requires
        single_space_at(s, i),
        kind_of(s.subrange(0, i)) matches Some(k) && k != CommandKind::ReleaseCandidate,
        version_of(s.subrange(i + 1, s.len() as int)) matches Some(v) && !v.stable,
    ensures
        command_of(s) == Err::<Command, CommandError>(CommandError::InvalidVersion),
{
    let c = choose|j: int| single_space_at(s, j);
    if c != i {
        assert(s[c] == ' ');
    }
}

} // verus!
