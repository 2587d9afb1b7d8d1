use artist_contracts::error::ContractError;
use artist_contracts::ident::{derive_id, label_prefix_of};

#[test]
fn derive_id_of_lowercase_label() {
    assert_eq!(derive_id("abc", "contract1"), Ok("abc-contract1".to_string()));
}

#[test]
fn derive_id_keeps_only_the_prefix() {
    assert_eq!(derive_id("abcdef", "contract1"), Ok("abc-contract1".to_string()));
}

#[test]
fn derive_id_is_deterministic() {
    let first = derive_id("Picasso", "wasm1xyz");
    let second = derive_id("Picasso", "wasm1xyz");
    assert_eq!(first, second);
    assert_eq!(first, Ok("pic-wasm1xyz".to_string()));
}

#[test]
fn derive_id_ignores_case() {
    assert_eq!(derive_id("ABC", "X1"), derive_id("abc", "X1"));
    assert_eq!(derive_id("ABC", "X1"), Ok("abc-x1".to_string()));
}

#[test]
fn derive_id_lowercases_the_address() {
    assert_eq!(derive_id("Art", "Core1ABC"), Ok("art-core1abc".to_string()));
}

#[test]
fn derive_id_refuses_short_labels() {
    for address in ["", "contract1", "X1"] {
        assert_eq!(derive_id("ab", address), Err(ContractError::InvalidLabel));
        assert_eq!(derive_id("", address), Err(ContractError::InvalidLabel));
    }
}

#[test]
fn derive_id_refuses_a_cut_inside_a_character() {
    // 'é' takes two bytes: "abé" would be cut in its middle.
    assert_eq!(derive_id("abé", "c1"), Err(ContractError::InvalidLabel));
    // A single two-byte character is too short.
    assert_eq!(derive_id("é", "c1"), Err(ContractError::InvalidLabel));
}

#[test]
fn derive_id_takes_multibyte_prefix_on_a_boundary() {
    // 'É' takes two bytes, 'l' one: the prefix is "Él".
    assert_eq!(derive_id("Élan", "c1"), Ok("él-c1".to_string()));
    assert_eq!(derive_id("aé", "c1"), Ok("aé-c1".to_string()));
}

#[test]
fn label_prefix_of_checks_before_cutting() {
    assert_eq!(label_prefix_of("Monet"), Ok("Mon"));
    assert_eq!(label_prefix_of("abc"), Ok("abc"));
    assert_eq!(label_prefix_of("ab"), Err(ContractError::InvalidLabel));
    assert_eq!(label_prefix_of("xy€"), Err(ContractError::InvalidLabel));
}
