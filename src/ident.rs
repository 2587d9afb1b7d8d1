//! Deriving the identifier of a collection or token from the artist's name
//! and the contract's own address.
use vstd::prelude::*;
use vstd::string::*;
use vstd::utf8::*;

use crate::error::ContractError;

verus! {

/// Number of leading bytes of the artist's name that go into an identifier.
pub const PREFIX_BYTES: usize = 3;

/// What `str::to_lowercase` makes of a string.
pub uninterp spec fn lower_of(s: Seq<char>) -> Seq<char>;

/// ASCII lower-casing of one character: 'A'..='Z' become 'a'..='z'.
pub open spec fn ascii_lower_char(c: char) -> char {
    if 'A' <= c && c <= 'Z' {
        ((c as u32) + 32) as char
    } else {
        c
    }
}

/// ASCII lower-casing of a string, character by character.
pub open spec fn ascii_lower(s: Seq<char>) -> Seq<char> {
    s.map_values(|c: char| ascii_lower_char(c))
}

/// Relies on `str::to_lowercase`: the result depends on the characters alone,
/// and on a string of ASCII characters it lowers 'A'..='Z' and keeps the rest.
#[verifier::external_body]
fn lowercase(s: &str) -> (r: String)
    ensures
        r@ == lower_of(s@),
        is_ascii_chars(s@) ==> r@ == ascii_lower(s@),
{
    s.to_lowercase()
}

/// The lower-cased string: `ascii_lower` on an ASCII string, whatever
/// `str::to_lowercase` makes of any other.
pub open spec fn lowercased(s: Seq<char>) -> Seq<char> {
    if is_ascii_chars(s) {
        ascii_lower(s)
    } else {
        lower_of(s)
    }
}

/// The label's UTF-8 encoding has at least `PREFIX_BYTES` bytes, and a
/// character ends exactly after them.
pub open spec fn has_prefix(label: Seq<char>) -> bool {
    encode_utf8(label).len() >= PREFIX_BYTES && is_char_boundary(
        encode_utf8(label),
        PREFIX_BYTES as int,
    )
}

/// The characters that the first `PREFIX_BYTES` bytes of the label encode.
pub open spec fn label_prefix(label: Seq<char>) -> Seq<char> {
    decode_utf8(encode_utf8(label).subrange(0, PREFIX_BYTES as int))
}

/// The identifier of a collection or token created under `label` by the
/// contract at `address`: the lower-cased `prefix-address`, or none when the
/// label has no prefix.
pub open spec fn derived_id(label: Seq<char>, address: Seq<char>) -> Option<Seq<char>> {
    if has_prefix(label) {
        Some(lowercased(label_prefix(label) + seq!['-'] + address))
    } else {
        None
    }
}

/// The first `PREFIX_BYTES` bytes of `label`, checked before the cut: a label
/// that is too short, or that a character straddles at the cut, is refused.
pub fn label_prefix_of(label: &str) -> (r: Result<&str, ContractError>)
    ensures
        match r {
            Ok(p) => has_prefix(label@) && p@ == label_prefix(label@),
            Err(e) => !has_prefix(label@) && e == ContractError::InvalidLabel,
        },
{
    // `is_char_boundary` is false past the end, so this also refuses a label
    // shorter than the prefix.
    if label.is_char_boundary(PREFIX_BYTES) {
        let (head, _) = label.split_at(PREFIX_BYTES);
        proof {
            broadcast use encode_utf8_decode_utf8, encode_utf8_valid_utf8;
            assert(encode_utf8(head@) == encode_utf8(label@).subrange(0, PREFIX_BYTES as int));
            assert(decode_utf8(encode_utf8(head@)) == head@);
        }
        Ok(head)
    } else {
        Err(ContractError::InvalidLabel)
    }
}

/// The identifier for `label` at `contract_address`:
/// `lowercase(prefix + "-" + contract_address)`.
pub fn derive_id(label: &str, contract_address: &str) -> (r: Result<String, ContractError>)
    ensures
        match r {
            Ok(id) => derived_id(label@, contract_address@) == Some(id@),
            Err(e) => derived_id(label@, contract_address@) is None && e
                == ContractError::InvalidLabel,
        },
{
    let head = match label_prefix_of(label) {
        Ok(p) => p,
        Err(e) => return Err(e),
    };
    let mut joined = head.to_owned();
    joined.append("-");
    joined.append(contract_address);
    proof {
        reveal_strlit("-");
    }
    assert(joined@ == label_prefix(label@) + seq!['-'] + contract_address@);
    Ok(lowercase(joined.as_str()))
}

/// The identifier depends on the label and the address alone: the same pair
/// always gives the same identifier, or is always refused.
pub proof fn lemma_derive_id_deterministic(
    label1: Seq<char>,
    address1: Seq<char>,
    label2: Seq<char>,
    address2: Seq<char>,
)
    requires
        label1 == label2,
        address1 == address2,
    ensures
        derived_id(label1, address1) == derived_id(label2, address2),
{
}

/// A label whose UTF-8 encoding is shorter than the prefix is refused, whatever
/// the address.
pub proof fn lemma_short_label_refused(label: Seq<char>, address: Seq<char>)
    requires
        encode_utf8(label).len() < PREFIX_BYTES,
    ensures
        derived_id(label, address) is None,
{
}

/// For an ASCII label, the prefix exists exactly when the label has at least
/// `PREFIX_BYTES` characters, and is then its first `PREFIX_BYTES` characters.
pub proof fn lemma_ascii_label_prefix(label: Seq<char>)
    requires
        is_ascii_chars(label),
    ensures
        has_prefix(label) <==> label.len() >= PREFIX_BYTES,
        has_prefix(label) ==> label_prefix(label) == label.subrange(0, PREFIX_BYTES as int),
{
    broadcast use is_ascii_chars_encode_utf8, encode_utf8_valid_utf8, encode_utf8_decode_utf8;

    let bytes = encode_utf8(label);
    let n = PREFIX_BYTES as int;
    if label.len() > n {
        assert(label[n] <= '\u{7f}');
        assert(bytes[n] == label[n] as u8);
        is_char_boundary_iff_is_leading_byte(bytes, n);
    } else if label.len() == n {
        is_char_boundary_start_end_of_seq(bytes);
    }
    if label.len() >= n {
        let head = label.subrange(0, n);
        assert(is_ascii_chars(head));
        assert(encode_utf8(head) =~= bytes.subrange(0, n));
    }
}

/// An ASCII label and address without capital letters give the label's first
/// `PREFIX_BYTES` characters, a hyphen and the address, unchanged.
pub proof fn lemma_derive_id_of_lowercase_ascii(label: Seq<char>, address: Seq<char>)
    requires
        is_ascii_chars(label),
        is_ascii_chars(address),
        label.len() >= PREFIX_BYTES,
        ascii_lower(label) == label,
        ascii_lower(address) == address,
    ensures
        derived_id(label, address) == Some(
            label.subrange(0, PREFIX_BYTES as int) + seq!['-'] + address,
        ),
{
    lemma_ascii_label_prefix(label);
    let n = PREFIX_BYTES as int;
    let joined = label.subrange(0, n) + seq!['-'] + address;
    assert(is_ascii_chars(joined));
    assert forall|i: int| 0 <= i < joined.len() implies ascii_lower_char(joined[i]) == joined[i] by {
        if i < n {
            assert(ascii_lower(label)[i] == ascii_lower_char(label[i]));
        } else if i > n {
            assert(ascii_lower(address)[i - n - 1] == ascii_lower_char(address[i - n - 1]));
        }
    }
    assert(ascii_lower(joined) =~= joined);
}

/// Identifiers ignore the case of ASCII letters: two ASCII labels that differ
/// only in the case of their letters give the same identifier at any ASCII
/// address, or are both refused.
pub proof fn lemma_derive_id_ignores_ascii_case(
    label1: Seq<char>,
    label2: Seq<char>,
    address: Seq<char>,
)
    requires
        is_ascii_chars(label1),
        is_ascii_chars(label2),
        is_ascii_chars(address),
        ascii_lower(label1) == ascii_lower(label2),
    ensures
        derived_id(label1, address) == derived_id(label2, address),
{
    lemma_ascii_label_prefix(label1);
    lemma_ascii_label_prefix(label2);
    assert(label1.len() == ascii_lower(label1).len());
    let n = PREFIX_BYTES as int;
    if label1.len() >= n {
        let joined1 = label1.subrange(0, n) + seq!['-'] + address;
        let joined2 = label2.subrange(0, n) + seq!['-'] + address;
        assert(is_ascii_chars(joined1));
        assert(is_ascii_chars(joined2));
        assert forall|i: int| 0 <= i < joined1.len() implies ascii_lower_char(joined1[i])
            == ascii_lower_char(joined2[i]) by {
            if i < n {
                assert(ascii_lower(label1)[i] == ascii_lower_char(label1[i]));
                assert(ascii_lower(label2)[i] == ascii_lower_char(label2[i]));
            }
        }
        assert(ascii_lower(joined1) =~= ascii_lower(joined2));
    }
}

} // verus!
