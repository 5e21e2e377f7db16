use obce::definition::{
    ChainExtensionDefinition, InterfaceDecl, ObceAttr, OperationDecl, Param, TraitItemDecl,
};
use obce::implementation::{
    input_bindings, input_bindings_tuple, is_subsequence, ChainExtensionImplementation,
    GenericArg, GenericsDecl, ImplDecl, ImplItemDecl, ImplMethodDecl, SelfTy, TuplePattern,
};
use obce::types::{AttrToken, AttributeArgs, CompileError, Lit, NestedMeta};
use obce::utils::{blake2b_256, into_u16, into_u32, wire_address};

fn name(text: &str) -> String {
    text.to_string()
}

fn words(texts: &[&str]) -> Vec<String> {
    texts.iter().map(|t| t.to_string()).collect()
}

fn operation(op_name: &str, attrs: Vec<ObceAttr>) -> OperationDecl {
    OperationDecl {
        name: name(op_name),
        inputs: vec![
            Param { pat: name("origin"), ty: name("AccountId") },
            Param { pat: name("amount"), ty: name("Balance") },
        ],
        output: Some(name("Balance")),
        where_preds: Vec::new(),
        attrs,
        has_default_body: false,
    }
}

fn interface(items: Vec<TraitItemDecl>) -> InterfaceDecl {
    InterfaceDecl { name: name("Example"), type_params: Vec::new(), items }
}

fn id_attr_tokens(value: AttrToken) -> Vec<ObceAttr> {
    vec![ObceAttr { tokens: vec![AttrToken::Word(name("id")), AttrToken::Equals, value] }]
}

#[test]
fn hashing_is_deterministic() {
    assert_eq!(into_u16("Trait"), into_u16("Trait"));
    assert_eq!(into_u32("Trait"), into_u32("Trait"));
    assert_ne!(into_u16("Trait"), into_u16("Example"));
}

#[test]
fn hashing_truncates_the_leading_digest_bytes() {
    let mut digest = [0u8; 32];
    blake2b_256("Trait".as_bytes(), &mut digest);
    assert_eq!(
        into_u16("Trait"),
        ((digest[0] as u16) << 8) | (digest[1] as u16)
    );
    assert_eq!(into_u16("Trait"), 0xd401);
    assert_eq!(into_u32("Trait"), 0xd401a81d);
    assert_eq!(into_u16("pallet-assets-chain-extension@v0.1"), 0x48f6);
}

#[test]
fn wire_address_combines_and_splits() {
    let address = wire_address(0x48f6, 0xca6f);
    assert_eq!(address, 0x48f6_ca6f);
    assert_eq!(address >> 16, 0x48f6);
    assert_eq!(address & 0xffff, 0xca6f);
}

#[test]
fn registry_entries_carry_ids_inputs_and_output() {
    let decl = interface(vec![TraitItemDecl::Operation(operation("extract_balance", Vec::new()))]);
    let compiled = ChainExtensionDefinition::generate(&Vec::new(), &decl).unwrap();
    assert_eq!(compiled.extension_id, 0x3519);
    assert_eq!(compiled.methods.len(), 1);
    assert_eq!(compiled.methods[0].hash, 0x1e2b9bee);
    assert_eq!(compiled.methods[0].id, 0x1e2b);
    assert_eq!(compiled.methods[0].input, words(&["AccountId", "Balance"]));
    assert_eq!(compiled.methods[0].output, name("Balance"));
}

#[test]
fn unit_output_renders_as_unit() {
    let mut op = operation("extract_balance", Vec::new());
    op.output = None;
    let decl = interface(vec![TraitItemDecl::Operation(op)]);
    let compiled = ChainExtensionDefinition::generate(&Vec::new(), &decl).unwrap();
    assert_eq!(compiled.methods[0].output, name("()"));
}

#[test]
fn numeric_override_wins_over_hash() {
    let op = operation("extract_balance", id_attr_tokens(AttrToken::LitInt(0x7)));
    let decl = interface(vec![TraitItemDecl::Operation(op)]);
    let compiled = ChainExtensionDefinition::generate(&Vec::new(), &decl).unwrap();
    assert_eq!(compiled.methods[0].id, 0x7);
    // The registry key is hashed from the name regardless of the override.
    assert_eq!(compiled.methods[0].hash, 0x1e2b9bee);
    // The guest stub calls the overridden identifier.
    assert_eq!(compiled.guest.methods[0].id, (0x3519 << 16) | 0x7);
}

#[test]
fn string_override_hashes_the_string() {
    let op = operation(
        "extract_balance",
        id_attr_tokens(AttrToken::LitStr(name("pallet-assets-chain-extension@v0.1"))),
    );
    let decl = interface(vec![TraitItemDecl::Operation(op)]);
    let compiled = ChainExtensionDefinition::generate(&Vec::new(), &decl).unwrap();
    assert_eq!(compiled.methods[0].id, 0x48f6);
}

#[test]
fn guest_stub_mirrors_the_declaration() {
    let decl = interface(vec![TraitItemDecl::Operation(operation("extract_balance", Vec::new()))]);
    let compiled = ChainExtensionDefinition::generate(&Vec::new(), &decl).unwrap();
    let stub = &compiled.guest.methods[0];
    assert_eq!(stub.name, name("extract_balance"));
    assert_eq!(stub.id, (0x3519 << 16) | 0x1e2b);
    assert_eq!(stub.input, words(&["AccountId", "Balance"]));
    assert_eq!(stub.output, name("Balance"));
    assert_eq!(stub.bindings, words(&["origin", "amount"]));
    // The host echo keeps the operation but strips its annotations.
    assert_eq!(compiled.host.items.len(), 1);
}

#[test]
fn default_bodies_are_rejected() {
    let mut op = operation("extract_balance", Vec::new());
    op.has_default_body = true;
    let decl = interface(vec![TraitItemDecl::Operation(op)]);
    assert_eq!(
        ChainExtensionDefinition::generate(&Vec::new(), &decl),
        Err(CompileError::DefaultImplementationNotSupported)
    );
}

#[test]
fn non_operation_items_are_rejected() {
    let decl = interface(vec![TraitItemDecl::Other]);
    assert_eq!(
        ChainExtensionDefinition::generate(&Vec::new(), &decl),
        Err(CompileError::OnlyMethodsSupported)
    );
}

#[test]
fn duplicate_operation_ids_are_rejected() {
    let first = operation("extract_balance", id_attr_tokens(AttrToken::LitInt(0x7)));
    let second = operation("get_value", id_attr_tokens(AttrToken::LitInt(0x7)));
    let decl = interface(vec![
        TraitItemDecl::Operation(first),
        TraitItemDecl::Operation(second),
    ]);
    assert_eq!(
        ChainExtensionDefinition::generate(&Vec::new(), &decl),
        Err(CompileError::DuplicateOperationId)
    );
}

#[test]
fn oversized_numeric_id_is_rejected() {
    let attrs = vec![AttrToken::Word(name("id")), AttrToken::Equals, AttrToken::LitInt(0x1_0000)];
    assert_eq!(
        ChainExtensionDefinition::generate(&attrs, &interface(Vec::new())),
        Err(CompileError::IdOutOfRange)
    );
}

#[test]
fn non_scalar_id_literal_is_rejected() {
    let attrs = vec![AttrToken::Word(name("id")), AttrToken::Equals, AttrToken::LitOther];
    assert_eq!(
        ChainExtensionDefinition::generate(&attrs, &interface(Vec::new())),
        Err(CompileError::IdNotIntOrString)
    );
}

#[test]
fn unknown_annotation_keys_are_rejected() {
    let attrs = vec![AttrToken::Word(name("ident")), AttrToken::Equals, AttrToken::LitInt(3)];
    assert_eq!(
        ChainExtensionDefinition::generate(&attrs, &interface(Vec::new())),
        Err(CompileError::UnexpectedAttribute)
    );
}

#[test]
fn malformed_annotation_lists_are_rejected() {
    let attrs = vec![AttrToken::Comma];
    assert_eq!(
        ChainExtensionDefinition::generate(&attrs, &interface(Vec::new())),
        Err(CompileError::UnableDecodeAttributes)
    );
}

#[test]
fn annotation_parser_splits_entries() {
    let tokens = vec![
        AttrToken::Word(name("critical")),
        AttrToken::Comma,
        AttrToken::Word(name("id")),
        AttrToken::Equals,
        AttrToken::LitInt(7),
    ];
    let args = AttributeArgs::parse(&tokens).unwrap();
    assert_eq!(
        args.0,
        vec![
            NestedMeta::Path(name("critical")),
            NestedMeta::NameValue(name("id"), Lit::Int(7)),
        ]
    );
}

#[test]
fn annotation_parser_accepts_trailing_comma() {
    let tokens = vec![AttrToken::Word(name("critical")), AttrToken::Comma];
    let args = AttributeArgs::parse(&tokens).unwrap();
    assert_eq!(args.0, vec![NestedMeta::Path(name("critical"))]);
}

fn extension_impl(self_ty: SelfTy, trait_path: Option<String>) -> ImplDecl {
    ImplDecl {
        trait_path,
        self_ty,
        generics: GenericsDecl {
            params: vec![
                words(&["'a"]),
                words(&["'b"]),
                words(&["E", ":", "Ext"]),
                words(&["T"]),
                words(&["Extension"]),
            ],
            where_preds: vec![words(&["T", ":", "SysConfig"]), words(&["E", ":", "Ext"])],
        },
        items: vec![ImplItemDecl::Method(ImplMethodDecl {
            name: name("extract_balance"),
            n_inputs: 2,
        })],
    }
}

fn context_self_ty() -> SelfTy {
    SelfTy::Path {
        name: name("ExtensionContext"),
        args: Some(vec![
            GenericArg { tokens: words(&["'a"]) },
            GenericArg { tokens: words(&["'b"]) },
            GenericArg { tokens: words(&["E"]) },
            GenericArg { tokens: words(&["T"]) },
            GenericArg { tokens: words(&["Extension"]) },
        ]),
    }
}

#[test]
fn dispatcher_routes_by_hashed_key() {
    let decl = extension_impl(context_self_ty(), Some(name("BalanceExtension")));
    let compiled = ChainExtensionImplementation::generate(&Vec::new(), &decl).unwrap();
    let chain = &compiled.chain_extension;
    assert_eq!(chain.trait_path, name("BalanceExtension"));
    assert_eq!(chain.arms.len(), 1);
    assert_eq!(chain.arms[0].hash, 0x1e2b9bee);
    assert_eq!(chain.arms[0].method_name, name("extract_balance"));
    assert_eq!(
        chain.arms[0].bindings,
        words(&["__ink_binding_0", "__ink_binding_1"])
    );
}

#[test]
fn generics_are_partitioned_for_dispatcher_and_handler() {
    let decl = extension_impl(context_self_ty(), Some(name("BalanceExtension")));
    let compiled = ChainExtensionImplementation::generate(&Vec::new(), &decl).unwrap();
    let chain = &compiled.chain_extension;
    // The dispatcher drops both lifetimes and the environment parameter.
    assert_eq!(
        chain.main_generics.params,
        vec![words(&["T"]), words(&["Extension"])]
    );
    assert_eq!(chain.main_generics.where_preds, vec![words(&["T", ":", "SysConfig"])]);
    // The handler signature keeps the environment parameter.
    assert_eq!(
        chain.call_generics.params,
        vec![words(&["E", ":", "Ext"]), words(&["T"]), words(&["Extension"])]
    );
    assert_eq!(chain.env.tokens, words(&["E"]));
    assert_eq!(chain.substrate.tokens, words(&["T"]));
    assert_eq!(chain.extension.tokens, words(&["Extension"]));
}

#[test]
fn wrong_generics_count_is_rejected() {
    let self_ty = SelfTy::Path {
        name: name("ExtensionContext"),
        args: Some(vec![GenericArg { tokens: words(&["'a"]) }]),
    };
    let decl = extension_impl(self_ty, Some(name("BalanceExtension")));
    assert_eq!(
        ChainExtensionImplementation::generate(&Vec::new(), &decl),
        Err(CompileError::WrongGenericsCount)
    );
}

#[test]
fn bare_self_type_path_is_rejected() {
    let self_ty = SelfTy::Path { name: name("ExtensionContext"), args: None };
    let decl = extension_impl(self_ty, Some(name("BalanceExtension")));
    assert_eq!(
        ChainExtensionImplementation::generate(&Vec::new(), &decl),
        Err(CompileError::SelfTypeWithoutGenerics)
    );
}

#[test]
fn non_path_self_type_is_rejected() {
    let decl = extension_impl(SelfTy::Other, Some(name("BalanceExtension")));
    assert_eq!(
        ChainExtensionImplementation::generate(&Vec::new(), &decl),
        Err(CompileError::WrongSelfType)
    );
}

#[test]
fn inherent_impl_is_rejected() {
    let decl = extension_impl(context_self_ty(), None);
    assert_eq!(
        ChainExtensionImplementation::generate(&Vec::new(), &decl),
        Err(CompileError::ExpectedImplTraitBlock)
    );
}

#[test]
fn subsequence_test_finds_contiguous_runs() {
    let run = words(&["E", ":", "Ext"]);
    assert!(is_subsequence(&run, &words(&["E"])));
    assert!(is_subsequence(&run, &words(&[":", "Ext"])));
    assert!(is_subsequence(&run, &words(&["E", ":", "Ext"])));
    assert!(!is_subsequence(&run, &words(&["E", "Ext"])));
    assert!(!is_subsequence(&run, &words(&["T"])));
    assert!(!is_subsequence(&words(&["E"]), &words(&["E", ":", "Ext"])));
    assert!(is_subsequence(&run, &Vec::new()));
}

#[test]
fn bindings_are_numbered_in_order() {
    let bindings = input_bindings(3);
    assert_eq!(
        bindings,
        words(&["__ink_binding_0", "__ink_binding_1", "__ink_binding_2"])
    );
    assert_eq!(input_bindings(0), Vec::<String>::new());
    let eleven = input_bindings(11);
    assert_eq!(eleven[10], name("__ink_binding_10"));
}

#[test]
fn binding_tuples_take_three_shapes() {
    assert_eq!(input_bindings_tuple(0), TuplePattern::Unit);
    assert_eq!(input_bindings_tuple(1), TuplePattern::Single(name("__ink_binding_0")));
    assert_eq!(
        input_bindings_tuple(2),
        TuplePattern::Tuple(words(&["__ink_binding_0", "__ink_binding_1"]))
    );
}

#[test]
fn guest_and_host_agree_on_wire_addresses() {
    let decl = interface(vec![TraitItemDecl::Operation(operation("extract_balance", Vec::new()))]);
    let definition = ChainExtensionDefinition::generate(&Vec::new(), &decl).unwrap();
    let impl_decl = extension_impl(context_self_ty(), Some(name("Example")));
    let implementation = ChainExtensionImplementation::generate(&Vec::new(), &impl_decl).unwrap();

    // The guest stub's wire address splits back into the interface
    // identifier and the registered operation identifier.
    let wire = definition.guest.methods[0].id;
    assert_eq!(wire >> 16, definition.extension_id as u32);
    assert_eq!(wire & 0xffff, definition.methods[0].id as u32);
    // The host arm for the handler of the same name carries the registry
    // entry's dispatch key.
    assert_eq!(
        implementation.chain_extension.arms[0].hash,
        definition.methods[0].hash
    );
}

#[test]
fn error_messages_match_the_diagnostics() {
    assert_eq!(CompileError::IdOutOfRange.message(), "id out of range. id must be a valid `u16` integer");
    assert_eq!(CompileError::UnexpectedAttribute.message(), "unexpected attribute");
    assert_eq!(CompileError::WrongSelfType.message(), "the type should be `ExtensionContext`");
}
