//! Database migrations: the name of a new migration file, and which file
//! names are migrations.
use crate::decimal::{i64_to_decimal, signed_decimal};
use vstd::prelude::*;
use std::hash::Hasher;
use vstd::string::*;

verus! {

/// The name of a migration file created at `unix_seconds`: the timestamp in
/// seconds followed by `.sql`.
pub fn migration_file_name(unix_seconds: i64) -> (r: String)
    ensures
        r@ == signed_decimal(unix_seconds as int) + ".sql"@,
{
    let mut name = i64_to_decimal(unix_seconds);
    name.append(".sql");
    name
}

/// Feeds `t` into `state` through `t`'s `Hash` implementation (std's
/// `Hash::hash`). Nothing is stated of what is written: that is up to the
/// implementation for `T`.
#[verifier::external_body]
fn hash_into<T: std::hash::Hash>(t: &T, state: &mut std::collections::hash_map::DefaultHasher) {
    t.hash(state)
}

/// Hashes `t` with std's `DefaultHasher`: a fresh hasher, `t` fed into it,
/// and the hasher's `finish`.
pub fn hasher<T: std::hash::Hash>(t: T) -> (r: u64) {
    let mut h = std::collections::hash_map::DefaultHasher::new();
    hash_into(&t, &mut h);
    h.finish()
}

/// What the `regex` crate answers for `pattern` and `text`: whether
/// `Regex::new(pattern)` matches `text`, or `None` when the pattern does not
/// compile.
pub uninterp spec fn regex_match_result(pattern: Seq<char>, text: Seq<char>) -> Option<bool>;

/// `text` starts with ten ASCII digits.
pub open spec fn starts_with_ten_digits(text: Seq<char>) -> bool {
    text.len() >= 10 && forall|i: int| 0 <= i < 10 ==> '0' <= #[trigger] text[i] <= '9'
}

/// The pattern of migration file names: ten digits at the start, then any
/// number of dots.
pub open spec fn migration_file_pattern() -> Seq<char> {
    "^[0-9]{10}\\.*"@
}

/// The regex crate: compiles `pattern` with `Regex::new` and asks
/// `is_match(text)`; `None` when the pattern does not compile. For the
/// migration pattern the answer is stated: it compiles, and, since `^`
/// anchors the match at the start of the text, `[0-9]` is the class of the
/// ten ASCII digits and `\.*` also matches nothing, it matches exactly the
/// texts that start with ten ASCII digits.
#[verifier::external_body]
fn regex_is_match(pattern: &str, text: &str) -> (r: Option<bool>)
    ensures
        r == regex_match_result(pattern@, text@),
        pattern@ == migration_file_pattern() ==> r == Some(starts_with_ten_digits(text@)),
{
    match regex::Regex::new(pattern) {
        Ok(re) => Some(re.is_match(text)),
        Err(_) => None,
    }
}

/// Whether `file_name` names a migration: whether the migration pattern
/// matches it, that is, whether it starts with ten ASCII digits.
pub fn validate(file_name: &str) -> (r: bool)
    ensures
        r == starts_with_ten_digits(file_name@),
{
    match regex_is_match("^[0-9]{10}\\.*", file_name) {
        Some(b) => b,
        None => false,
    }
}

} // verus!
