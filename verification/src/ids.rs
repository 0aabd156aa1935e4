use vstd::prelude::*;

verus! {

/// The id `uuid::Uuid::parse_str` reads from `text`, as a 128-bit number
/// (`Uuid::as_u128`), or `None` where it refuses the text. It accepts the
/// plain, hyphenated, braced and URN forms, in either case.
pub uninterp spec fn uuid_from_text(text: Seq<char>) -> Option<u128>;

/// The lower-case hexadecimal digit for `n` (below 16): `0` to `9` are code
/// points 48 to 57, `a` to `f` are 97 to 102.
pub open spec fn hex_digit(n: int) -> char {
    if n < 10 {
        (48 + n) as char
    } else {
        (87 + n) as char
    }
}

/// `v` with its last `n` hexadecimal digits dropped (`v / 16^n`).
pub open spec fn drop_hex_digits(v: int, n: nat) -> int
    decreases n,
{
    if n == 0 {
        v
    } else {
        drop_hex_digits(v / 16, (n - 1) as nat)
    }
}

/// The `k`-th of the 32 hexadecimal digits of `id`, most significant first.
pub open spec fn id_nibble(id: u128, k: int) -> int {
    drop_hex_digits(id as int, (31 - k) as nat) % 16
}

/// Which of the 32 digits the `i`-th character of the hyphenated text shows.
pub open spec fn digit_at(i: int) -> int {
    if i < 8 {
        i
    } else if i < 13 {
        i - 1
    } else if i < 18 {
        i - 2
    } else if i < 23 {
        i - 3
    } else {
        i - 4
    }
}

/// The hyphenated lower-case text of an id, as `Uuid::to_string` writes it:
/// 36 characters, hyphens at positions 8, 13, 18 and 23, elsewhere the 32
/// hexadecimal digits of the id (its big-endian bytes), most significant
/// first.
pub open spec fn uuid_text(id: u128) -> Seq<char> {
    Seq::new(
        36,
        |i: int|
            if i == 8 || i == 13 || i == 18 || i == 23 {
                '-'
            } else {
                hex_digit(id_nibble(id, digit_at(i)))
            },
    )
}

/// Calls `uuid::Uuid::parse_str(text)` and turns the id into its number.
/// The contract names the result `uuid_from_text(text)`.
#[verifier::external_body]
pub(crate) fn parse_uuid(text: &str) -> (r: Option<u128>)
    ensures
        r == uuid_from_text(text@),
{
    match uuid::Uuid::parse_str(text) {
        Ok(u) => Some(u.as_u128()),
        Err(_) => None,
    }
}

/// Calls `uuid::Uuid::from_u128(id).to_string()`. The contract states that
/// the text is `uuid_text(id)`, the hyphenated lower-case form, and that
/// `Uuid::parse_str` reads the id back from it (the hyphenated form is one of
/// those it accepts).
#[verifier::external_body]
pub(crate) fn uuid_to_text(id: u128) -> (r: String)
    ensures
        r@ == uuid_text(id),
        uuid_from_text(r@) == Some(id),
{
    uuid::Uuid::from_u128(id).to_string()
}

} // verus!
