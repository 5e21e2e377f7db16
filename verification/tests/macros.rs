use obce::definition::{ChainExtensionDefinition, InterfaceDecl};
use obce::types::AttrToken;

fn name(text: &str) -> String {
    text.to_string()
}

fn empty_interface(trait_name: &str) -> InterfaceDecl {
    InterfaceDecl { name: name(trait_name), type_params: Vec::new(), items: Vec::new() }
}

#[test]
fn definition_extension_id_by_name() {
    let attrs = vec![
        AttrToken::Word(name("id")),
        AttrToken::Equals,
        AttrToken::LitStr(name("pallet-assets-chain-extension@v0.1")),
    ];
    let compiled = ChainExtensionDefinition::generate(&attrs, &empty_interface("Trait")).unwrap();
    assert_eq!(compiled.extension_id, 0x48f6);
}

#[test]
fn definition_extension_id_by_number() {
    let attrs = vec![AttrToken::Word(name("id")), AttrToken::Equals, AttrToken::LitInt(0x13)];
    let compiled = ChainExtensionDefinition::generate(&attrs, &empty_interface("Trait")).unwrap();
    assert_eq!(compiled.extension_id, 0x13);
}

#[test]
fn definition_extension_id_defaults_to_hashed_name() {
    let attrs: Vec<AttrToken> = Vec::new();
    let compiled = ChainExtensionDefinition::generate(&attrs, &empty_interface("Trait")).unwrap();
    assert_eq!(compiled.extension_id, 0xd401);
    assert!(compiled.methods.is_empty());
    assert!(compiled.guest.methods.is_empty());
}
