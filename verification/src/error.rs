use vstd::prelude::*;
use crate::definition::ObceAttr;
use crate::types::{AttrToken, AttributeArgs, CompileError, NestedMeta, parse_args_spec};
use crate::utils::clone_strings;

verus! {

/// One variant of an error-enum declaration.
#[derive(Debug, Clone, PartialEq, Eq)]
pub struct VariantDecl {
    pub name: String,
    /// The recognized annotation lists attached to the variant.
    pub attrs: Vec<ObceAttr>,
    /// The variant's other attributes, echoed through unchanged.
    pub passthrough: Vec<String>,
}

/// An error-enum declaration.
#[derive(Debug, Clone, PartialEq, Eq)]
pub struct ErrorEnumDecl {
    pub name: String,
    pub type_params: Vec<String>,
    pub variants: Vec<VariantDecl>,
}

/// Whether one annotation entry is the critical marker.
pub open spec fn meta_is_critical(m: NestedMeta) -> bool {
    m matches NestedMeta::Path(p) && p@ == "critical"@
}

/// Scans the entries of one annotation list, in order. `has_prior` says a
/// critical mark was already found earlier; a second one is rejected, and
/// so is any entry that is not the critical marker. `Ok(true)` says this
/// list marks its variant critical.
pub open spec fn scan_metas(metas: Seq<NestedMeta>, has_prior: bool) -> Result<bool, CompileError>
    decreases metas.len(),
{
    if metas.len() == 0 {
        Ok(false)
    } else if !meta_is_critical(metas[0]) {
        Err(CompileError::UnexpectedAttribute)
    } else if has_prior {
        Err(CompileError::MultipleCriticalVariants)
    } else {
        match scan_metas(metas.skip(1), true) {
            Err(e) => Err(e),
            Ok(_) => Ok(true),
        }
    }
}

/// Scans one variant's annotation lists, in order.
pub open spec fn scan_attrs(attrs: Seq<ObceAttr>, has_prior: bool) -> Result<bool, CompileError>
    decreases attrs.len(),
{
    if attrs.len() == 0 {
        Ok(false)
    } else {
        match parse_args_spec(attrs[0].tokens@) {
            None => Err(CompileError::UnableDecodeAttributes),
            Some(metas) => match scan_metas(metas, has_prior) {
                Err(e) => Err(e),
                Ok(c0) => match scan_attrs(attrs.skip(1), has_prior || c0) {
                    Err(e) => Err(e),
                    Ok(c1) => Ok(c0 || c1),
                },
            },
        }
    }
}

/// Scans the variants in order: the index of the critical variant if one
/// is marked, or the first error.
pub open spec fn scan_variants(vs: Seq<VariantDecl>, has_prior: bool) -> Result<
    Option<int>,
    CompileError,
>
    decreases vs.len(),
{
    if vs.len() == 0 {
        Ok(None)
    } else {
        match scan_attrs(vs[0].attrs@, has_prior) {
            Err(e) => Err(e),
            Ok(c0) => match scan_variants(vs.skip(1), has_prior || c0) {
                Err(e) => Err(e),
                Ok(rest) => Ok(
                    if c0 {
                        Some(0int)
                    } else {
                        match rest {
                            Some(j) => Some(j + 1),
                            None => None,
                        }
                    },
                ),
            },
        }
    }
}

/// With a critical mark already found, an annotation list can only fail
/// or mark nothing: a further critical mark is rejected.
proof fn lemma_scan_metas_prior(metas: Seq<NestedMeta>)
    ensures
        scan_metas(metas, true) != Ok::<bool, CompileError>(true),
{
}

/// With a critical mark already found, a variant's annotation lists can
/// only fail or mark nothing.
proof fn lemma_scan_attrs_prior(attrs: Seq<ObceAttr>)
    ensures
        scan_attrs(attrs, true) != Ok::<bool, CompileError>(true),
    decreases attrs.len(),
{
    if attrs.len() > 0 {
        match parse_args_spec(attrs[0].tokens@) {
            Some(metas) => {
                lemma_scan_metas_prior(metas);
                lemma_scan_attrs_prior(attrs.skip(1));
            },
            None => {},
        }
    }
}

/// What scanning a whole error-enum declaration yields: the critical
/// variant's index, or the first error.
pub open spec fn error_enum_scan(d: ErrorEnumDecl) -> Result<Option<int>, CompileError> {
    scan_variants(d.variants@, false)
}

/// One compiled variant: the declared one with the recognized annotations
/// stripped, gated to the host role where it is the critical one.
#[derive(Debug, Clone, PartialEq, Eq)]
pub struct CompiledVariant {
    pub name: String,
    pub passthrough: Vec<String>,
    /// Whether the variant is compiled only into the host role.
    pub host_only: bool,
}

/// An error enum compiled: the enum re-emitted with baseline structural
/// derivations (equality, cloning, encode and decode, and host-role
/// introspection metadata), plus the classification target if a critical
/// variant is declared.
#[derive(Debug, Clone, PartialEq, Eq)]
pub struct CompiledErrorEnum {
    pub name: String,
    pub type_params: Vec<String>,
    pub variants: Vec<CompiledVariant>,
    /// The critical variant's name, if one is declared: the emitted
    /// classification impl matches its payload out and returns it, and
    /// returns any other value unchanged.
    pub critical_variant: Option<String>,
}

/// Scans one parsed annotation list.
fn scan_args(args: &AttributeArgs, has_prior: bool) -> (r: Result<bool, CompileError>)
    ensures
        r == scan_metas(args.0@, has_prior),
{
    let n = args.0.len();
    let mut k: usize = 0;
    let mut found = false;
    proof {
        assert(args.0@.skip(0) =~= args.0@);
    }
    while k < n
        invariant
            k <= n == args.0@.len(),
            scan_metas(args.0@, has_prior) == (match scan_metas(
                args.0@.skip(k as int),
                has_prior || found,
            ) {
                Err(e) => Err::<bool, CompileError>(e),
                Ok(c) => Ok::<bool, CompileError>(found || c),
            }),
        decreases n - k,
    {
        let ghost rest = args.0@.skip(k as int);
        proof {
            assert(rest[0] == args.0@[k as int]);
            assert(rest.skip(1) =~= args.0@.skip(k as int + 1));
        }
        match &args.0[k] {
            NestedMeta::Path(p) => {
                let critical_key: String = "critical".to_owned();
                if *p == critical_key {
                    if has_prior || found {
                        return Err(CompileError::MultipleCriticalVariants);
                    }
                    found = true;
                } else {
                    return Err(CompileError::UnexpectedAttribute);
                }
            },
            NestedMeta::NameValue(_, _) => {
                return Err(CompileError::UnexpectedAttribute);
            },
        }
        k += 1;
    }
    proof {
        assert(args.0@.skip(n as int) =~= Seq::<NestedMeta>::empty());
    }
    Ok(found)
}

/// Scans one variant's annotation lists.
fn scan_variant(v: &VariantDecl, has_prior: bool) -> (r: Result<bool, CompileError>)
    ensures
        r == scan_attrs(v.attrs@, has_prior),
{
    let n = v.attrs.len();
    let mut k: usize = 0;
    let mut found = false;
    proof {
        assert(v.attrs@.skip(0) =~= v.attrs@);
    }
    while k < n
        invariant
            k <= n == v.attrs@.len(),
            scan_attrs(v.attrs@, has_prior) == (match scan_attrs(
                v.attrs@.skip(k as int),
                has_prior || found,
            ) {
                Err(e) => Err::<bool, CompileError>(e),
                Ok(c) => Ok::<bool, CompileError>(found || c),
            }),
        decreases n - k,
    {
        let ghost rest = v.attrs@.skip(k as int);
        proof {
            assert(rest[0] == v.attrs@[k as int]);
            assert(rest.skip(1) =~= v.attrs@.skip(k as int + 1));
        }
        let args = match AttributeArgs::parse(&v.attrs[k].tokens) {
            Ok(a) => a,
            Err(e) => {
                return Err(e);
            },
        };
        match scan_args(&args, has_prior || found) {
            Ok(c0) => {
                if c0 {
                    found = true;
                }
            },
            Err(e) => {
                return Err(e);
            },
        }
        k += 1;
    }
    proof {
        assert(v.attrs@.skip(n as int) =~= Seq::<ObceAttr>::empty());
    }
    Ok(found)
}

/// The error-enum compiler.
pub struct ChainExtensionError;

impl ChainExtensionError {
    /// Compiles one error-enum declaration: locates at most one variant
    /// marked critical, strips the recognized annotations, gates the
    /// critical variant to the host role, and names it as the target of
    /// the emitted classification impl.
    #[verifier::loop_isolation(false)]
    pub fn generate(_attrs: &Vec<AttrToken>, enum_item: &ErrorEnumDecl) -> (r: Result<
        CompiledErrorEnum,
        CompileError,
    >)
        ensures
            match r {
                Ok(c) => match error_enum_scan(*enum_item) {
                    Err(_) => false,
                    Ok(ci) => {
                        &&& c.name == enum_item.name
                        &&& c.type_params@ == enum_item.type_params@
                        &&& c.variants@.len() == enum_item.variants@.len()
                        &&& forall|i: int|
                            0 <= i < enum_item.variants@.len() ==> {
                                &&& (#[trigger] c.variants@[i]).name == enum_item.variants@[i].name
                                &&& c.variants@[i].passthrough@
                                    == enum_item.variants@[i].passthrough@
                                &&& c.variants@[i].host_only == (ci == Some(i))
                            }
                        &&& match ci {
                            Some(i) => c.critical_variant matches Some(nm) && nm
                                == enum_item.variants@[i].name,
                            None => c.critical_variant is None,
                        }
                    },
                },
                Err(e) => error_enum_scan(*enum_item) == Err::<Option<int>, CompileError>(e),
            },
    {
        let n = enum_item.variants.len();
        let mut variants: Vec<CompiledVariant> = Vec::new();
        let mut crit: Option<usize> = None;
        let mut k: usize = 0;
        proof {
            assert(enum_item.variants@.skip(0) =~= enum_item.variants@);
        }
        while k < n
            invariant
                k <= n == enum_item.variants@.len(),
                variants@.len() == k,
                crit matches Some(c) ==> c < k,
                scan_variants(enum_item.variants@, false) == (match scan_variants(
                    enum_item.variants@.skip(k as int),
                    crit is Some,
                ) {
                    Err(e) => Err::<Option<int>, CompileError>(e),
                    Ok(rest) => Ok::<Option<int>, CompileError>(
                        match crit {
                            Some(c) => Some(c as int),
                            None => match rest {
                                Some(j) => Some(j + k),
                                None => None,
                            },
                        },
                    ),
                }),
                forall|i: int|
                    0 <= i < k ==> {
                        &&& (#[trigger] variants@[i]).name == enum_item.variants@[i].name
                        &&& variants@[i].passthrough@ == enum_item.variants@[i].passthrough@
                        &&& variants@[i].host_only == (crit matches Some(c) && c == i)
                    },
            decreases n - k,
        {
            let ghost rest = enum_item.variants@.skip(k as int);
            proof {
                assert(rest[0] == enum_item.variants@[k as int]);
                assert(rest.skip(1) =~= enum_item.variants@.skip(k as int + 1));
            }
            let v = &enum_item.variants[k];
            let c0 = match scan_variant(v, crit.is_some()) {
                Ok(c) => c,
                Err(e) => {
                    return Err(e);
                },
            };
            proof {
                if crit is Some {
                    lemma_scan_attrs_prior(enum_item.variants@[k as int].attrs@);
                }
            }
            if c0 {
                crit = Some(k);
            }
            variants.push(
                CompiledVariant {
                    name: v.name.clone(),
                    passthrough: clone_strings(&v.passthrough),
                    host_only: c0,
                },
            );
            k += 1;
        }
        proof {
            assert(enum_item.variants@.skip(n as int) =~= Seq::<VariantDecl>::empty());
        }
        let critical_variant = match crit {
            Some(i) => Some(enum_item.variants[i].name.clone()),
            None => None,
        };
        Ok(
            CompiledErrorEnum {
                name: enum_item.name.clone(),
                type_params: clone_strings(&enum_item.type_params),
                variants,
                critical_variant,
            },
        )
    }
}

} // verus!
