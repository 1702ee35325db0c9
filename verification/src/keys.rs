//! The decisions of `keys`: reading the program id that the entrypoint
//! declares, rewriting it, and whether the declared id and the keypair agree.
use vstd::prelude::*;
use vstd::string::StringExecFns;
use crate::content::templates::{declare_id_invocation, declare_id_invocation_text};

verus! {

#[verifier::external_type_specification]
#[verifier::external_body]
pub struct ExRegexError(regex::Error);

/// What `Regex::new(pattern)` and then `captures(haystack)` give for the
/// capture group `group`: `None` where the pattern is refused, `Some(None)`
/// where nothing matches, `Some(Some(None))` where the group does not take
/// part in the first match, and otherwise the text of the group.
pub uninterp spec fn regex_capture(pattern: Seq<char>, haystack: Seq<char>, group: nat) -> Option<
    Option<Option<Seq<char>>>,
>;

/// What `Regex::new(pattern)` and then `replace(haystack, replacement)` give:
/// `None` where the pattern is refused, and otherwise the haystack with its
/// first match replaced (`$` names in the replacement are expanded).
pub uninterp spec fn regex_replace(
    pattern: Seq<char>,
    haystack: Seq<char>,
    replacement: Seq<char>,
) -> Option<Seq<char>>;

/// Compiles `pattern` with `regex::Regex::new` and takes group `group` of
/// the first match of `Regex::captures` in `haystack`.  The contract names
/// the outcome `regex_capture` of the three arguments; the regex semantics
/// are the crate's and are not stated here.
#[verifier::external_body]
fn regex_first_capture(pattern: &str, haystack: &str, group: usize) -> (r: Result<
    Option<Option<String>>,
    regex::Error,
>)
    ensures
        match r {
            Ok(Some(Some(s))) => regex_capture(pattern@, haystack@, group as nat) == Some(
                Some(Some(s@)),
            ),
            Ok(Some(None)) => regex_capture(pattern@, haystack@, group as nat) == Some(
                Some(None::<Seq<char>>),
            ),
            Ok(None) => regex_capture(pattern@, haystack@, group as nat) == Some(
                None::<Option<Seq<char>>>,
            ),
            Err(_) => regex_capture(pattern@, haystack@, group as nat) is None,
        },
{
    let re = regex::Regex::new(pattern)?;
    Ok(re.captures(haystack).map(|c| c.get(group).map(|m| m.as_str().to_string())))
}

/// Compiles `pattern` with `regex::Regex::new` and replaces its first match
/// in `haystack` with `Regex::replace`.  The contract names the outcome
/// `regex_replace` of the three arguments; the regex semantics are the
/// crate's and are not stated here.
#[verifier::external_body]
fn regex_replace_first(pattern: &str, haystack: &str, replacement: &str) -> (r: Result<
    String,
    regex::Error,
>)
    ensures
        match r {
            Ok(s) => regex_replace(pattern@, haystack@, replacement@) == Some(s@),
            Err(_) => regex_replace(pattern@, haystack@, replacement@) is None,
        },
{
    let re = regex::Regex::new(pattern)?;
    Ok(re.replace(haystack, replacement).into_owned())
}

/// The pattern of a `declare_id!("...")` invocation; its group 1 is the
/// declared address, which may be empty.
pub const DECLARE_ID_PATTERN: &'static str = r#"declare_id!\s*\(\s*"([^"]*)"\s*\)"#;

/// Why a keys action cannot go on.
#[derive(Clone, Copy, Debug, PartialEq, Eq, Structural)]
pub enum KeysError {
    /// The regex engine refused the `declare_id!` pattern.
    PatternRejected,
    /// The entrypoint holds no `declare_id!("...")` invocation.
    DeclareIdMissing,
    /// A keypair exists already and overwriting it was not asked for.
    KeypairExists,
}

/// The view of a result that holds a string.
pub open spec fn keys_result_view(r: Result<String, KeysError>) -> Result<Seq<char>, KeysError> {
    match r {
        Ok(s) => Ok(s@),
        Err(e) => Err(e),
    }
}

/// The declared address, given what the capture of the `declare_id!`
/// pattern gave: a missing invocation is an error, a group that took no
/// part counts as the empty address.
pub open spec fn declared_address_outcome(capture: Option<Option<Option<Seq<char>>>>) -> Result<
    Seq<char>,
    KeysError,
> {
    match capture {
        None => Err(KeysError::PatternRejected),
        Some(None) => Err(KeysError::DeclareIdMissing),
        Some(Some(None)) => Ok(Seq::<char>::empty()),
        Some(Some(Some(address))) => Ok(address),
    }
}

/// The declared address, given the first capture of the `declare_id!`
/// pattern (`None` where nothing matched).
pub fn declared_address_from_capture(capture: Option<Option<String>>) -> (r: Result<
    String,
    KeysError,
>)
    ensures
        keys_result_view(r) == declared_address_outcome(
            Some(
                match capture {
                    None => None,
                    Some(None) => Some(None),
                    Some(Some(s)) => Some(Some(s@)),
                },
            ),
        ),
        match capture {
            None => r == Err::<String, KeysError>(KeysError::DeclareIdMissing),
            Some(None) => r is Ok && r->Ok_0@.len() == 0,
            Some(Some(s)) => r is Ok && r->Ok_0@ == s@,
        },
{
    match capture {
        None => Err(KeysError::DeclareIdMissing),
        Some(None) => Ok(String::new()),
        Some(Some(address)) => Ok(address),
    }
}

/// The program address that the entrypoint source `entrypoint` declares.
pub fn declared_program_address(entrypoint: &str) -> (r: Result<String, KeysError>)
    ensures
        keys_result_view(r) == declared_address_outcome(
            regex_capture(DECLARE_ID_PATTERN@, entrypoint@, 1),
        ),
        match regex_capture(DECLARE_ID_PATTERN@, entrypoint@, 1) {
            None => r == Err::<String, KeysError>(KeysError::PatternRejected),
            Some(None) => r == Err::<String, KeysError>(KeysError::DeclareIdMissing),
            Some(Some(None)) => r is Ok && r->Ok_0@.len() == 0,
            Some(Some(Some(s))) => r is Ok && r->Ok_0@ == s,
        },
{
    match regex_first_capture(DECLARE_ID_PATTERN, entrypoint, 1) {
        Ok(capture) => declared_address_from_capture(capture),
        Err(_) => Err(KeysError::PatternRejected),
    }
}

/// The entrypoint source `entrypoint` with its first `declare_id!`
/// invocation declaring `new_address` instead.
pub fn update_declared_id(entrypoint: &str, new_address: &str) -> (r: Result<String, KeysError>)
    ensures
        match r {
            Ok(s) => regex_replace(
                DECLARE_ID_PATTERN@,
                entrypoint@,
                declare_id_invocation_text(new_address@),
            ) == Some(s@),
            Err(e) => e == KeysError::PatternRejected && regex_replace(
                DECLARE_ID_PATTERN@,
                entrypoint@,
                declare_id_invocation_text(new_address@),
            ) is None,
        },
{
    let invocation = declare_id_invocation(new_address);
    match regex_replace_first(DECLARE_ID_PATTERN, entrypoint, invocation.as_str()) {
        Ok(s) => Ok(s),
        Err(_) => Err(KeysError::PatternRejected),
    }
}

/// What `keys sync` does once it knows both addresses.
#[derive(Clone, Copy, Debug, PartialEq, Eq, Structural)]
pub enum SyncAction {
    /// The entrypoint declares the keypair's address: nothing to write.
    AlreadySynced,
    /// The entrypoint must be rewritten to declare the keypair's address.
    UpdateDeclaredId,
}

/// The declared id and the keypair agree: the keypair has an address and
/// the entrypoint declares exactly it.
pub open spec fn keys_agree(declared: Seq<char>, keypair_address: Seq<char>) -> bool {
    keypair_address.len() > 0 && declared == keypair_address
}

/// Whether `keys sync` has anything to write.
pub fn sync_action(declared: &str, keypair_address: &str) -> (a: SyncAction)
    ensures
        a == (if keys_agree(declared@, keypair_address@) {
            SyncAction::AlreadySynced
        } else {
            SyncAction::UpdateDeclaredId
        }),
        a == SyncAction::AlreadySynced <==> keypair_address@.len() > 0 && declared@
            == keypair_address@,
{
    let d = String::from_str(declared);
    let k = String::from_str(keypair_address);
    if !keypair_address.is_empty() && d == k {
        SyncAction::AlreadySynced
    } else {
        SyncAction::UpdateDeclaredId
    }
}

/// Whether `keys generate` may write a keypair: not over an existing one
/// unless `force` is given.
pub fn check_keypair_overwrite(keypair_exists: bool, force: bool) -> (r: Result<(), KeysError>)
    ensures
        r is Err <==> keypair_exists && !force,
        r matches Err(e) ==> e == KeysError::KeypairExists,
{
    if keypair_exists && !force {
        Err(KeysError::KeypairExists)
    } else {
        Ok(())
    }
}

} // verus!
