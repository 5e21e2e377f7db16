use obce::definition::ObceAttr;
use obce::error::{ChainExtensionError, ErrorEnumDecl, VariantDecl};
use obce::substrate::{CriticalError, SupportCriticalError, ToCriticalErr};
use obce::types::{AttrToken, CompileError};

fn name(text: &str) -> String {
    text.to_string()
}

fn plain_variant(variant_name: &str) -> VariantDecl {
    VariantDecl { name: name(variant_name), attrs: Vec::new(), passthrough: Vec::new() }
}

fn critical_variant(variant_name: &str) -> VariantDecl {
    VariantDecl {
        name: name(variant_name),
        attrs: vec![ObceAttr { tokens: vec![AttrToken::Word(name("critical"))] }],
        passthrough: Vec::new(),
    }
}

/// The classification impl that the compiler emits for an error enum whose
/// `Critical` variant is marked critical, written out by hand.
#[derive(PartialEq, Eq, Debug)]
enum GeneratedError<T> {
    NonCritical(T),
    Critical(CriticalError),
}

impl<T> SupportCriticalError for GeneratedError<T> {
    fn try_to_critical(self) -> Result<CriticalError, Self> {
        match self {
            GeneratedError::Critical(error) => Ok(error),
            _ => Err(self),
        }
    }
}

#[test]
fn error_macro_works() {
    let decl = ErrorEnumDecl {
        name: name("Error"),
        type_params: Vec::new(),
        variants: vec![plain_variant("SimpleError"), plain_variant("AnotherSimpleError")],
    };
    let attrs: Vec<AttrToken> = Vec::new();
    let compiled = ChainExtensionError::generate(&attrs, &decl).unwrap();
    assert_eq!(compiled.critical_variant, None);
    assert_eq!(compiled.variants.len(), 2);
}

#[test]
fn error_macro_with_generics_works() {
    let decl = ErrorEnumDecl {
        name: name("Error"),
        type_params: vec![name("A"), name("B")],
        variants: vec![plain_variant("SimpleError"), plain_variant("AnotherSimpleError")],
    };
    let attrs: Vec<AttrToken> = Vec::new();
    let compiled = ChainExtensionError::generate(&attrs, &decl).unwrap();
    assert_eq!(compiled.type_params, vec![name("A"), name("B")]);
    assert_eq!(compiled.critical_variant, None);
}

#[test]
fn error_macro_with_critical_works() {
    let decl = ErrorEnumDecl {
        name: name("Error"),
        type_params: vec![name("T")],
        variants: vec![plain_variant("NonCritical"), critical_variant("Critical")],
    };
    let attrs: Vec<AttrToken> = Vec::new();
    let compiled = ChainExtensionError::generate(&attrs, &decl).unwrap();
    assert_eq!(compiled.critical_variant, Some(name("Critical")));
    assert!(!compiled.variants[0].host_only);
    assert!(compiled.variants[1].host_only);

    let error: Result<(), _> = Err(GeneratedError::<u32>::Critical(CriticalError::BadOrigin));
    assert_eq!(
        ToCriticalErr(error).try_to_critical_error(),
        Err(CriticalError::BadOrigin)
    );

    let error: Result<(), _> = Err(GeneratedError::NonCritical(123));
    assert_eq!(
        ToCriticalErr(error).try_to_critical_error(),
        Ok(Err(GeneratedError::NonCritical(123)))
    );
}

#[test]
fn two_critical_variants_are_rejected() {
    let decl = ErrorEnumDecl {
        name: name("Error"),
        type_params: Vec::new(),
        variants: vec![critical_variant("FirstCritical"), critical_variant("SecondCritical")],
    };
    let attrs: Vec<AttrToken> = Vec::new();
    assert_eq!(
        ChainExtensionError::generate(&attrs, &decl),
        Err(CompileError::MultipleCriticalVariants)
    );
}

#[test]
fn unknown_variant_annotations_are_rejected() {
    let bogus = VariantDecl {
        name: name("Odd"),
        attrs: vec![ObceAttr { tokens: vec![AttrToken::Word(name("fatal"))] }],
        passthrough: Vec::new(),
    };
    let decl = ErrorEnumDecl { name: name("Error"), type_params: Vec::new(), variants: vec![bogus] };
    let attrs: Vec<AttrToken> = Vec::new();
    assert_eq!(
        ChainExtensionError::generate(&attrs, &decl),
        Err(CompileError::UnexpectedAttribute)
    );
}
