//! Format checks on the byte strings that describe an asset.
use vstd::prelude::*;

verus! {

/// Longest accepted symbol or display name, in bytes.
pub const MAX_TOKEN_LEN: usize = 32;

/// Longest accepted description, in bytes.
pub const MAX_DESC_LEN: usize = 128;

/// What a format check returns: `Ok(())`, or a message naming the fault.
pub type DispatchResult = Result<(), &'static str>;

pub const ERR_TOKEN_LEN: &'static str = "Token length is zero or too long.";

pub const ERR_TOKEN_CHAR: &'static str =
    "Token can only use numbers, capital/lowercase letters or '-', '.', '|', '~'.";

pub const ERR_TOKEN_NAME_LEN: &'static str = "Token name is zero or too long.";

pub const ERR_TOKEN_NAME_CHAR: &'static str = "Token name can not use an invisiable ASCII char.";

pub const ERR_DESC_LEN: &'static str = "Token desc too long";

pub const ERR_DESC_CHAR: &'static str = "Desc can not use an invisiable ASCII char.";

pub const ERR_MEMO_LEN: &'static str = "memo is too long";

/// A byte allowed in a symbol: a digit, an ASCII letter, or one of `-`, `.`, `|`, `~`.
pub open spec fn is_token_char(c: u8) -> bool {
    (0x30 <= c && c <= 0x39) || (0x41 <= c && c <= 0x5A) || (0x61 <= c && c <= 0x7A) || c
        == 0x2D || c == 0x2E || c == 0x7C || c == 0x7E
}

/// A printable ASCII byte, space included.
pub open spec fn is_visible_char(c: u8) -> bool {
    0x20 <= c && c <= 0x7E
}

pub open spec fn all_token_chars(v: Seq<u8>) -> bool {
    forall|i: int| 0 <= i < v.len() ==> #[trigger] is_token_char(v[i])
}

pub open spec fn all_visible(v: Seq<u8>) -> bool {
    forall|i: int| 0 <= i < v.len() ==> #[trigger] is_visible_char(v[i])
}

/// A well-formed asset symbol.
pub open spec fn valid_token(v: Seq<u8>) -> bool {
    1 <= v.len() <= MAX_TOKEN_LEN && all_token_chars(v)
}

/// A well-formed display name.
pub open spec fn valid_token_name(v: Seq<u8>) -> bool {
    1 <= v.len() <= MAX_TOKEN_LEN && all_visible(v)
}

/// A well-formed description; the empty one included.
pub open spec fn valid_desc(v: Seq<u8>) -> bool {
    v.len() <= MAX_DESC_LEN && all_visible(v)
}

/// What checking a symbol yields: the length fault comes first.
pub open spec fn token_check(v: Seq<u8>) -> DispatchResult {
    if !(1 <= v.len() <= MAX_TOKEN_LEN) {
        Err(ERR_TOKEN_LEN)
    } else if !all_token_chars(v) {
        Err(ERR_TOKEN_CHAR)
    } else {
        Ok(())
    }
}

/// What checking a display name yields: the length fault comes first.
pub open spec fn token_name_check(v: Seq<u8>) -> DispatchResult {
    if !(1 <= v.len() <= MAX_TOKEN_LEN) {
        Err(ERR_TOKEN_NAME_LEN)
    } else if !all_visible(v) {
        Err(ERR_TOKEN_NAME_CHAR)
    } else {
        Ok(())
    }
}

/// What checking a description yields: the length fault comes first.
pub open spec fn desc_check(v: Seq<u8>) -> DispatchResult {
    if v.len() > MAX_DESC_LEN {
        Err(ERR_DESC_LEN)
    } else if !all_visible(v) {
        Err(ERR_DESC_CHAR)
    } else {
        Ok(())
    }
}

/// A symbol with a byte outside its character set is refused, whatever its length.
pub proof fn lemma_bad_token_byte_rejected(v: Seq<u8>, i: int)
    requires
        0 <= i < v.len(),
        !is_token_char(v[i]),
    ensures
        !valid_token(v),
        token_check(v) is Err,
{
}

/// A byte outside printable ASCII makes both a display name and a description invalid.
pub proof fn lemma_invisible_byte_rejected(v: Seq<u8>, i: int)
    requires
        0 <= i < v.len(),
        v[i] < 0x20 || v[i] > 0x7E,
    ensures
        !valid_token_name(v),
        !valid_desc(v),
        token_name_check(v) is Err,
        desc_check(v) is Err,
{
    assert(!is_visible_char(v[i]));
}

/// The empty description is valid; the empty display name is not.
pub proof fn lemma_empty_name_and_desc()
    ensures
        valid_desc(Seq::<u8>::empty()),
        desc_check(Seq::<u8>::empty()) is Ok,
        !valid_token_name(Seq::<u8>::empty()),
        token_name_check(Seq::<u8>::empty()) is Err,
{
}

fn token_char(c: u8) -> (r: bool)
    ensures
        r == is_token_char(c),
{
    (c >= 0x30 && c <= 0x39) || (c >= 0x41 && c <= 0x5A) || (c >= 0x61 && c <= 0x7A) || c
        == 0x2D || c == 0x2E || c == 0x7C || c == 0x7E
}

fn visible_char(c: u8) -> (r: bool)
    ensures
        r == is_visible_char(c),
{
    c >= 0x20 && c <= 0x7E
}

/// Checks an asset symbol: one to 32 bytes, each a digit, a letter, `-`, `.`, `|` or `~`.
/// A bad length is reported before a bad byte.
pub fn is_valid_token(v: &[u8]) -> (r: DispatchResult)
    ensures
        r == token_check(v@),
        r is Ok <==> valid_token(v@),
{
    if v.len() > MAX_TOKEN_LEN || v.len() == 0 {
        return Err(ERR_TOKEN_LEN);
    }
    let mut i: usize = 0;
    while i < v.len()
        invariant
            i <= v@.len(),
            1 <= v@.len() <= MAX_TOKEN_LEN,
            forall|j: int| 0 <= j < i ==> #[trigger] is_token_char(v@[j]),
        decreases v@.len() - i,
    {
        if !token_char(v[i]) {
            return Err(ERR_TOKEN_CHAR);
        }
        i = i + 1;
    }
    Ok(())
}

/// Checks a display name: one to 32 bytes, each printable ASCII.
/// A bad length is reported before a bad byte.
pub fn is_valid_token_name(v: &[u8]) -> (r: DispatchResult)
    ensures
        r == token_name_check(v@),
        r is Ok <==> valid_token_name(v@),
{
    if v.len() > MAX_TOKEN_LEN || v.len() == 0 {
        return Err(ERR_TOKEN_NAME_LEN);
    }
    if !visible_bytes(v) {
        return Err(ERR_TOKEN_NAME_CHAR);
    }
    Ok(())
}

/// Checks a description: at most 128 bytes, each printable ASCII; empty is fine.
/// A bad length is reported before a bad byte.
pub fn is_valid_desc(v: &[u8]) -> (r: DispatchResult)
    ensures
        r == desc_check(v@),
        r is Ok <==> valid_desc(v@),
{
    if v.len() > MAX_DESC_LEN {
        return Err(ERR_DESC_LEN);
    }
    if !visible_bytes(v) {
        return Err(ERR_DESC_CHAR);
    }
    Ok(())
}

/// Checks a memo against the configured longest length `max_len`.
pub fn is_valid_memo(msg: &[u8], max_len: u32) -> (r: DispatchResult)
    ensures
        r is Ok <==> msg@.len() <= max_len,
        msg@.len() > max_len ==> r == Err::<(), &str>(ERR_MEMO_LEN),
{
    if msg.len() > max_len as usize {
        return Err(ERR_MEMO_LEN);
    }
    Ok(())
}

fn visible_bytes(v: &[u8]) -> (r: bool)
    ensures
        r == all_visible(v@),
{
    let mut i: usize = 0;
    while i < v.len()
        invariant
            i <= v@.len(),
            forall|j: int| 0 <= j < i ==> #[trigger] is_visible_char(v@[j]),
        decreases v@.len() - i,
    {
        if !visible_char(v[i]) {
            return false;
        }
        i = i + 1;
    }
    true
}

} // verus!
