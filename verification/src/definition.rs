use vstd::prelude::*;
use vstd::string::StringExecFns;
use crate::types::{AttrToken, AttributeArgs, CompileError, Lit, NestedMeta, parse_args_spec};
use crate::utils::{clone_strings, id16_of, id32_of, into_u16, into_u32, spec_wire_address};

verus! {

/// One parameter of an operation: its binding pattern and its rendered type.
#[derive(Debug, Clone, PartialEq, Eq)]
pub struct Param {
    pub pat: String,
    pub ty: String,
}

/// One recognized annotation list attached to an operation: the raw tokens
/// between the parentheses.
#[derive(Debug, Clone, PartialEq, Eq)]
pub struct ObceAttr {
    pub tokens: Vec<AttrToken>,
}

/// One operation (trait method) of an interface declaration.
#[derive(Debug, Clone, PartialEq, Eq)]
pub struct OperationDecl {
    pub name: String,
    /// The typed (non-receiver) parameters, in declaration order.
    pub inputs: Vec<Param>,
    /// The declared return type; `None` is the unit type.
    pub output: Option<String>,
    /// The operation's own constraint clause, one rendered predicate each.
    pub where_preds: Vec<String>,
    /// The recognized annotation lists attached to the operation.
    pub attrs: Vec<ObceAttr>,
    /// Whether the declaration supplies a default body.
    pub has_default_body: bool,
}

/// One item of an interface declaration: an operation, or anything else
/// (an associated constant or type), which the compiler rejects.
#[derive(Debug, Clone, PartialEq, Eq)]
pub enum TraitItemDecl {
    Operation(OperationDecl),
    Other,
}

/// An interface declaration: a named set of operations.
#[derive(Debug, Clone, PartialEq, Eq)]
pub struct InterfaceDecl {
    pub name: String,
    /// The interface's rendered type parameters, echoed into the artifacts.
    pub type_params: Vec<String>,
    pub items: Vec<TraitItemDecl>,
}

/// The rendered return type of an operation, unit if absent.
pub open spec fn output_ty_view(op: OperationDecl) -> Seq<char> {
    match op.output {
        Some(t) => t@,
        None => "()"@,
    }
}

/// The positional input types of an operation.
pub open spec fn input_tys(op: OperationDecl) -> Seq<String> {
    op.inputs@.map_values(|p: Param| p.ty)
}

/// The positional input binding patterns of an operation.
pub open spec fn input_pats(op: OperationDecl) -> Seq<String> {
    op.inputs@.map_values(|p: Param| p.pat)
}

/// The identifier override contributed by one annotation entry: `id = <int>`
/// must fit 16 bits, `id = "<string>"` hashes the string, and any other
/// entry is rejected.
pub open spec fn meta_id_spec(m: NestedMeta) -> Result<Option<u16>, CompileError> {
    match m {
        NestedMeta::NameValue(key, l) => {
            if key@ == "id"@ {
                match l {
                    Lit::Int(v) => if v <= 0xffff {
                        Ok(Some(v as u16))
                    } else {
                        Err(CompileError::IdOutOfRange)
                    },
                    Lit::Str(s) => Ok(Some(id16_of(s@))),
                    Lit::Other => Err(CompileError::IdNotIntOrString),
                }
            } else {
                Err(CompileError::UnexpectedAttribute)
            }
        },
        NestedMeta::Path(_) => Err(CompileError::UnexpectedAttribute),
    }
}

/// Folds the entries of one annotation list, left to right: the last
/// explicit identifier wins; the first bad entry is the error.
pub open spec fn extract_id_from(metas: Seq<NestedMeta>, acc: Option<u16>) -> Result<
    Option<u16>,
    CompileError,
>
    decreases metas.len(),
{
    if metas.len() == 0 {
        Ok(acc)
    } else {
        match meta_id_spec(metas[0]) {
            Err(e) => Err(e),
            Ok(Some(v)) => extract_id_from(metas.skip(1), Some(v)),
            Ok(None) => extract_id_from(metas.skip(1), acc),
        }
    }
}

/// The identifier override of one raw annotation token list.
pub open spec fn attr_override_spec(tokens: Seq<AttrToken>) -> Result<Option<u16>, CompileError> {
    match parse_args_spec(tokens) {
        None => Err(CompileError::UnableDecodeAttributes),
        Some(metas) => extract_id_from(metas, None),
    }
}

/// The interface's 16-bit identifier: the explicit override if one is
/// given, the hash of the interface's name otherwise.
pub open spec fn config_id_spec(name: Seq<char>, attrs: Seq<AttrToken>) -> Result<
    u16,
    CompileError,
> {
    match attr_override_spec(attrs) {
        Err(e) => Err(e),
        Ok(Some(v)) => Ok(v),
        Ok(None) => Ok(id16_of(name)),
    }
}

/// Folds an operation's annotation lists, left to right: the last explicit
/// identifier wins; the first bad list is the error.
pub open spec fn method_attrs_id(attrs: Seq<ObceAttr>, acc: Option<u16>) -> Result<
    Option<u16>,
    CompileError,
>
    decreases attrs.len(),
{
    if attrs.len() == 0 {
        Ok(acc)
    } else {
        match attr_override_spec(attrs[0].tokens@) {
            Err(e) => Err(e),
            Ok(Some(v)) => method_attrs_id(attrs.skip(1), Some(v)),
            Ok(None) => method_attrs_id(attrs.skip(1), acc),
        }
    }
}

/// An operation's 16-bit identifier: the explicit override if one is given,
/// the hash of the operation's name otherwise.
pub open spec fn method_id_spec(op: OperationDecl) -> Result<u16, CompileError> {
    match method_attrs_id(op.attrs@, None) {
        Err(e) => Err(e),
        Ok(Some(v)) => Ok(v),
        Ok(None) => Ok(id16_of(op.name@)),
    }
}

/// The interface-level configuration: the resolved extension identifier.
#[derive(Debug, Clone, PartialEq, Eq)]
pub struct Config {
    pub id: u16,
}

impl Config {
    /// Resolves the interface identifier: the hashed name by default, the
    /// explicit annotation if one is given.
    pub fn new(trait_item: &InterfaceDecl, attrs: &Vec<AttrToken>) -> (r: Result<
        Config,
        CompileError,
    >)
        ensures
            match r {
                Ok(c) => config_id_spec(trait_item.name@, attrs@) == Ok::<u16, CompileError>(c.id),
                Err(e) => config_id_spec(trait_item.name@, attrs@) == Err::<u16, CompileError>(e),
            },
    {
        let mut config = Config { id: into_u16(trait_item.name.as_str()) };
        match config.parse_attributes(attrs) {
            Ok(_) => Ok(config),
            Err(e) => Err(e),
        }
    }

    /// Applies the interface-level annotation list to this configuration.
    fn parse_attributes(&mut self, attrs: &Vec<AttrToken>) -> (r: Result<(), CompileError>)
        ensures
            match r {
                Ok(_) => match attr_override_spec(attrs@) {
                    Ok(ov) => final(self).id == (match ov {
                        Some(v) => v,
                        None => old(self).id,
                    }),
                    Err(_) => false,
                },
                Err(e) => attr_override_spec(attrs@) == Err::<Option<u16>, CompileError>(e)
                    && *final(self) == *old(self),
            },
    {
        let args = match AttributeArgs::parse(attrs) {
            Ok(a) => a,
            Err(e) => {
                return Err(e);
            },
        };
        match extract_attributes(&args) {
            Ok(Some(id)) => {
                self.id = id;
                Ok(())
            },
            Ok(None) => Ok(()),
            Err(e) => Err(e),
        }
    }
}

/// The per-operation configuration: the resolved identifier and the
/// operation's rendered input and output types.
#[derive(Debug, Clone, PartialEq, Eq)]
pub struct MethodConfig {
    pub id: u16,
    pub input: Vec<String>,
    pub output: String,
}

impl MethodConfig {
    /// Resolves an operation's identifier and collects its positional input
    /// types and its output type.
    pub fn new(method_item: &OperationDecl) -> (r: Result<MethodConfig, CompileError>)
        ensures
            match r {
                Ok(c) => {
                    &&& method_id_spec(*method_item) == Ok::<u16, CompileError>(c.id)
                    &&& c.input@ == input_tys(*method_item)
                    &&& c.output@ == output_ty_view(*method_item)
                },
                Err(e) => method_id_spec(*method_item) == Err::<u16, CompileError>(e),
            },
    {
        let mut input: Vec<String> = Vec::new();
        let n = method_item.inputs.len();
        let mut j: usize = 0;
        while j < n
            invariant
                j <= n == method_item.inputs@.len(),
                input@.len() == j,
                forall|t: int| 0 <= t < j ==> input@[t] == method_item.inputs@[t].ty,
            decreases n - j,
        {
            input.push(method_item.inputs[j].ty.clone());
            j += 1;
        }
        proof {
            assert(input@ =~= input_tys(*method_item));
        }
        let output = match &method_item.output {
            Some(t) => t.clone(),
            None => "()".to_owned(),
        };
        let mut config = MethodConfig { id: into_u16(method_item.name.as_str()), input, output };
        match config.parse_attributes(method_item) {
            Ok(_) => Ok(config),
            Err(e) => Err(e),
        }
    }

    /// Applies each of the operation's annotation lists to this
    /// configuration, in order.
    fn parse_attributes(&mut self, method_item: &OperationDecl) -> (r: Result<(), CompileError>)
        ensures
            match r {
                Ok(_) => match method_attrs_id(method_item.attrs@, None) {
                    Ok(ov) => final(self).id == (match ov {
                        Some(v) => v,
                        None => old(self).id,
                    }) && final(self).input == old(self).input && final(self).output == old(
                        self,
                    ).output,
                    Err(_) => false,
                },
                Err(e) => method_attrs_id(method_item.attrs@, None) == Err::<
                    Option<u16>,
                    CompileError,
                >(e) && *final(self) == *old(self),
            },
    {
        let n = method_item.attrs.len();
        let mut k: usize = 0;
        let mut over: Option<u16> = None;
        proof {
            assert(method_item.attrs@.skip(0) =~= method_item.attrs@);
        }
        while k < n
            invariant
                k <= n == method_item.attrs@.len(),
                method_attrs_id(method_item.attrs@, None) == method_attrs_id(
                    method_item.attrs@.skip(k as int),
                    over,
                ),
            decreases n - k,
        {
            let ghost rest = method_item.attrs@.skip(k as int);
            proof {
                assert(rest[0] == method_item.attrs@[k as int]);
                assert(rest.skip(1) =~= method_item.attrs@.skip(k as int + 1));
            }
            let args = match AttributeArgs::parse(&method_item.attrs[k].tokens) {
                Ok(a) => a,
                Err(e) => {
                    return Err(e);
                },
            };
            match extract_attributes(&args) {
                Ok(Some(id)) => {
                    over = Some(id);
                },
                Ok(None) => {},
                Err(e) => {
                    return Err(e);
                },
            }
            k += 1;
        }
        proof {
            assert(method_item.attrs@.skip(n as int) =~= Seq::<ObceAttr>::empty());
        }
        match over {
            Some(id) => {
                self.id = id;
            },
            None => {},
        }
        Ok(())
    }
}

/// Extracts the identifier override of a parsed annotation list: the last
/// `id = <integer|string>` entry wins, and any unrecognized entry is
/// rejected.
pub fn extract_attributes(attrs: &AttributeArgs) -> (r: Result<Option<u16>, CompileError>)
    ensures
        r == extract_id_from(attrs.0@, None::<u16>),
{
    let n = attrs.0.len();
    let mut k: usize = 0;
    let mut id: Option<u16> = None;
    proof {
        assert(attrs.0@.skip(0) =~= attrs.0@);
    }
    while k < n
        invariant
            k <= n == attrs.0@.len(),
            extract_id_from(attrs.0@, None::<u16>) == extract_id_from(
                attrs.0@.skip(k as int),
                id,
            ),
        decreases n - k,
    {
        let ghost rest = attrs.0@.skip(k as int);
        proof {
            assert(rest[0] == attrs.0@[k as int]);
            assert(rest.skip(1) =~= attrs.0@.skip(k as int + 1));
        }
        match &attrs.0[k] {
            NestedMeta::NameValue(key, l) => {
                let id_key: String = "id".to_owned();
                if *key == id_key {
                    match l {
                        Lit::Int(v) => {
                            if *v <= 0xffff {
                                id = Some(*v as u16);
                            } else {
                                return Err(CompileError::IdOutOfRange);
                            }
                        },
                        Lit::Str(s) => {
                            id = Some(into_u16(s.as_str()));
                        },
                        Lit::Other => {
                            return Err(CompileError::IdNotIntOrString);
                        },
                    }
                } else {
                    return Err(CompileError::UnexpectedAttribute);
                }
            },
            NestedMeta::Path(_) => {
                return Err(CompileError::UnexpectedAttribute);
            },
        }
        k += 1;
    }
    proof {
        assert(attrs.0@.skip(n as int) =~= Seq::<NestedMeta>::empty());
    }
    Ok(id)
}

/// An explicit numeric identifier annotation always wins: where the
/// annotation list resolves to an explicit identifier, the interface's
/// identifier is that value, and the hashed default plays no part.
pub proof fn lemma_explicit_id_wins(name: Seq<char>, attrs: Seq<AttrToken>, v: u16)
    requires
        attr_override_spec(attrs) == Ok::<Option<u16>, CompileError>(Some(v)),
    ensures
        config_id_spec(name, attrs) == Ok::<u16, CompileError>(v),
{
}

/// Without an explicit identifier annotation, the identifier is the hash
/// of the name.
pub proof fn lemma_default_id_is_hash(name: Seq<char>, attrs: Seq<AttrToken>)
    requires
        attr_override_spec(attrs) == Ok::<Option<u16>, CompileError>(None::<u16>),
    ensures
        config_id_spec(name, attrs) == Ok::<u16, CompileError>(id16_of(name)),
{
}

/// An explicit integer identifier is taken exactly as written.
pub proof fn lemma_int_id_exact(key: String, v: u128)
    requires
        key@ == "id"@,
        v <= 0xffff,
    ensures
        meta_id_spec(NestedMeta::NameValue(key, Lit::Int(v))) == Ok::<Option<u16>, CompileError>(
            Some(v as u16),
        ),
{
}

/// An explicit string identifier is equivalent to hashing that string.
pub proof fn lemma_string_id_is_hash(key: String, s: String)
    requires
        key@ == "id"@,
    ensures
        meta_id_spec(NestedMeta::NameValue(key, Lit::Str(s))) == Ok::<Option<u16>, CompileError>(
            Some(id16_of(s@)),
        ),
{
}

/// The operation held by an interface item.
pub open spec fn op_of(it: TraitItemDecl) -> OperationDecl {
    match it {
        TraitItemDecl::Operation(op) => op,
        TraitItemDecl::Other => arbitrary(),
    }
}

/// Whether every item of an interface declaration is an operation.
pub open spec fn all_operations(items: Seq<TraitItemDecl>) -> bool {
    forall|i: int| 0 <= i < items.len() ==> items[i] is Operation
}

/// The first error among the operations, in declaration order: a default
/// body, else a bad annotation.
pub open spec fn methods_error(items: Seq<TraitItemDecl>) -> Option<CompileError>
    decreases items.len(),
{
    if items.len() == 0 {
        None
    } else {
        match items[0] {
            TraitItemDecl::Operation(op) => {
                if op.has_default_body {
                    Some(CompileError::DefaultImplementationNotSupported)
                } else {
                    match method_id_spec(op) {
                        Err(e) => Some(e),
                        Ok(_) => methods_error(items.skip(1)),
                    }
                }
            },
            TraitItemDecl::Other => methods_error(items.skip(1)),
        }
    }
}

/// An operation's resolved identifier, where its annotations are valid.
pub open spec fn resolved_op_id(op: OperationDecl) -> u16 {
    match method_id_spec(op) {
        Ok(v) => v,
        Err(_) => arbitrary(),
    }
}

/// Whether two operations of the interface resolve to one identifier.
pub open spec fn has_duplicate_ids(items: Seq<TraitItemDecl>) -> bool {
    exists|i: int, j: int|
        0 <= i < j < items.len() && resolved_op_id(op_of(items[i])) == resolved_op_id(
            op_of(items[j]),
        )
}

/// The first error of compiling an interface declaration, if any: a bad
/// interface annotation, then a non-operation item, then the first bad
/// operation, then a duplicate operation identifier.
pub open spec fn definition_error(attrs: Seq<AttrToken>, decl: InterfaceDecl) -> Option<
    CompileError,
> {
    match config_id_spec(decl.name@, attrs) {
        Err(e) => Some(e),
        Ok(_) => {
            if !all_operations(decl.items@) {
                Some(CompileError::OnlyMethodsSupported)
            } else {
                match methods_error(decl.items@) {
                    Some(e) => Some(e),
                    None => if has_duplicate_ids(decl.items@) {
                        Some(CompileError::DuplicateOperationId)
                    } else {
                        None
                    },
                }
            }
        },
    }
}

/// Where no operation errs, every operation has no default body and a
/// resolvable identifier.
proof fn lemma_methods_error_none(items: Seq<TraitItemDecl>)
    requires
        methods_error(items) is None,
    ensures
        forall|i: int|
            0 <= i < items.len() && items[i] is Operation ==> !op_of(#[trigger] items[i]).has_default_body
                && method_id_spec(op_of(items[i])) is Ok,
    decreases items.len(),
{
    if items.len() > 0 {
        lemma_methods_error_none(items.skip(1));
        assert forall|i: int|
            0 <= i < items.len() && items[i] is Operation implies !op_of(
            #[trigger] items[i],
        ).has_default_body && method_id_spec(op_of(items[i])) is Ok by {
            if i > 0 {
                assert(items.skip(1)[i - 1] == items[i]);
            }
        }
    }
}

/// One method-registry entry: the operation's 32-bit dispatch key, its
/// 16-bit identifier, and its input and output types.
#[derive(Debug, Clone, PartialEq, Eq)]
pub struct MethodDescription {
    pub hash: u32,
    pub id: u16,
    pub input: Vec<String>,
    pub output: String,
}

/// One guest-side stub operation: its synthesized body performs the call
/// addressed by `id` with the declared bindings, encoding the input tuple
/// and decoding the output type, whose bounds join the operation's own
/// constraint clause.
#[derive(Debug, Clone, PartialEq, Eq)]
pub struct GuestMethod {
    pub name: String,
    /// The 32-bit wire address the stub calls.
    pub id: u32,
    pub input: Vec<String>,
    pub output: String,
    /// The declared binding patterns handed to the call, in order.
    pub bindings: Vec<String>,
    /// The operation's own constraint clause, which the synthesized encode
    /// and decode bounds join.
    pub where_preds: Vec<String>,
}

/// The guest-role variant of an interface: every operation turned into a
/// calling stub.
#[derive(Debug, Clone, PartialEq, Eq)]
pub struct GuestInterface {
    pub name: String,
    pub type_params: Vec<String>,
    pub methods: Vec<GuestMethod>,
}

/// Everything compiled from one interface declaration: the interface's
/// identifier, the method registry, the host-role echo and the guest-role
/// stub variant.
#[derive(Debug, Clone, PartialEq, Eq)]
pub struct CompiledDefinition {
    pub extension_id: u16,
    pub methods: Vec<MethodDescription>,
    pub host: InterfaceDecl,
    pub guest: GuestInterface,
}

/// Whether one registry entry describes one operation.
pub open spec fn method_description_matches(d: MethodDescription, op: OperationDecl) -> bool {
    &&& d.hash == id32_of(op.name@)
    &&& d.id == resolved_op_id(op)
    &&& d.input@ == input_tys(op)
    &&& d.output@ == output_ty_view(op)
}

/// Whether one guest stub describes one operation of an interface with the
/// given identifier.
pub open spec fn guest_method_matches(g: GuestMethod, op: OperationDecl, ext_id: u16) -> bool {
    &&& g.name == op.name
    &&& g.id == spec_wire_address(ext_id, resolved_op_id(op))
    &&& g.input@ == input_tys(op)
    &&& g.output@ == output_ty_view(op)
    &&& g.bindings@ == input_pats(op)
    &&& g.where_preds@ == op.where_preds@
}

/// Whether one echoed operation is the declared one with its annotations
/// stripped.
pub open spec fn host_op_matches(h: OperationDecl, op: OperationDecl) -> bool {
    &&& h.name == op.name
    &&& h.inputs@ == op.inputs@
    &&& h.output == op.output
    &&& h.where_preds@ == op.where_preds@
    &&& h.attrs@.len() == 0
    &&& h.has_default_body == op.has_default_body
}

/// Whether the host-role echo is the declared interface with all
/// annotations stripped.
pub open spec fn host_matches(h: InterfaceDecl, decl: InterfaceDecl) -> bool {
    &&& h.name == decl.name
    &&& h.type_params@ == decl.type_params@
    &&& h.items@.len() == decl.items@.len()
    &&& forall|i: int|
        0 <= i < decl.items@.len() ==> (#[trigger] h.items@[i]) is Operation && host_op_matches(
            op_of(h.items@[i]),
            op_of(decl.items@[i]),
        )
}

/// Whether the guest-role variant carries one stub for each declared
/// operation, addressed under the given interface identifier.
pub open spec fn guest_matches(g: GuestInterface, decl: InterfaceDecl, ext_id: u16) -> bool {
    &&& g.name == decl.name
    &&& g.type_params@ == decl.type_params@
    &&& g.methods@.len() == decl.items@.len()
    &&& forall|i: int|
        0 <= i < decl.items@.len() ==> guest_method_matches(
            #[trigger] g.methods@[i],
            op_of(decl.items@[i]),
            ext_id,
        )
}

/// Whether a compiled artifact set is what the declaration compiles to.
pub open spec fn compiled_definition_matches(
    c: CompiledDefinition,
    attrs: Seq<AttrToken>,
    decl: InterfaceDecl,
) -> bool {
    &&& config_id_spec(decl.name@, attrs) == Ok::<u16, CompileError>(c.extension_id)
    &&& c.methods@.len() == decl.items@.len()
    &&& forall|i: int|
        0 <= i < decl.items@.len() ==> method_description_matches(
            #[trigger] c.methods@[i],
            op_of(decl.items@[i]),
        )
    &&& host_matches(c.host, decl)
    &&& guest_matches(c.guest, decl, c.extension_id)
}

/// Copies a vector of parameters.
fn clone_params(v: &Vec<Param>) -> (r: Vec<Param>)
    ensures
        r@ == v@,
{
    let mut r: Vec<Param> = Vec::new();
    let n = v.len();
    let mut k: usize = 0;
    while k < n
        invariant
            k <= n == v@.len(),
            r@.len() == k,
            forall|i: int| 0 <= i < k ==> r@[i] == v@[i],
        decreases n - k,
    {
        r.push(Param { pat: v[k].pat.clone(), ty: v[k].ty.clone() });
        k += 1;
    }
    proof {
        assert(r@ =~= v@);
    }
    r
}

/// Copies an optional rendered type.
fn clone_output(o: &Option<String>) -> (r: Option<String>)
    ensures
        r == *o,
{
    match o {
        Some(s) => Some(s.clone()),
        None => None,
    }
}

/// Copies an operation, leaving its annotations behind.
fn strip_operation(op: &OperationDecl) -> (r: OperationDecl)
    ensures
        host_op_matches(r, *op),
{
    OperationDecl {
        name: op.name.clone(),
        inputs: clone_params(&op.inputs),
        output: clone_output(&op.output),
        where_preds: clone_strings(&op.where_preds),
        attrs: Vec::new(),
        has_default_body: op.has_default_body,
    }
}

/// The interface compiler.
pub struct ChainExtensionDefinition;

impl ChainExtensionDefinition {
    /// Compiles one interface declaration: resolves the interface and
    /// operation identifiers, rejects malformed declarations, and emits the
    /// method registry, the host-role echo and the guest-role stub variant.
    #[verifier::loop_isolation(false)]
    pub fn generate(attrs: &Vec<AttrToken>, trait_item: &InterfaceDecl) -> (r: Result<
        CompiledDefinition,
        CompileError,
    >)
        ensures
            match r {
                Ok(c) => definition_error(attrs@, *trait_item) is None
                    && compiled_definition_matches(c, attrs@, *trait_item),
                Err(e) => definition_error(attrs@, *trait_item) == Some(e),
            },
    {
        let config = match Config::new(trait_item, attrs) {
            Ok(c) => c,
            Err(e) => {
                return Err(e);
            },
        };
        let n = trait_item.items.len();
        let mut k: usize = 0;
        while k < n
            invariant
                k <= n == trait_item.items@.len(),
                forall|i: int| 0 <= i < k ==> trait_item.items@[i] is Operation,
            decreases n - k,
        {
            match &trait_item.items[k] {
                TraitItemDecl::Operation(_) => {},
                TraitItemDecl::Other => {
                    return Err(CompileError::OnlyMethodsSupported);
                },
            }
            k += 1;
        }
        let mut methods: Vec<MethodDescription> = Vec::new();
        let mut ids: Vec<u16> = Vec::new();
        let mut host_items: Vec<TraitItemDecl> = Vec::new();
        let mut k: usize = 0;
        proof {
            assert(trait_item.items@.skip(0) =~= trait_item.items@);
        }
        while k < n
            invariant
                k <= n == trait_item.items@.len(),
                all_operations(trait_item.items@),
                methods_error(trait_item.items@) == methods_error(
                    trait_item.items@.skip(k as int),
                ),
                methods@.len() == k,
                ids@.len() == k,
                host_items@.len() == k,
                forall|i: int|
                    0 <= i < k ==> method_description_matches(
                        #[trigger] methods@[i],
                        op_of(trait_item.items@[i]),
                    ),
                forall|i: int|
                    0 <= i < k ==> ids@[i] == resolved_op_id(op_of(#[trigger] trait_item.items@[i])),
                forall|i: int|
                    0 <= i < k ==> (#[trigger] host_items@[i]) is Operation && host_op_matches(
                        op_of(host_items@[i]),
                        op_of(trait_item.items@[i]),
                    ),
            decreases n - k,
        {
            let ghost rest = trait_item.items@.skip(k as int);
            proof {
                assert(rest[0] == trait_item.items@[k as int]);
                assert(rest.skip(1) =~= trait_item.items@.skip(k as int + 1));
            }
            match &trait_item.items[k] {
                TraitItemDecl::Operation(method) => {
                    if method.has_default_body {
                        return Err(CompileError::DefaultImplementationNotSupported);
                    }
                    let mc = match MethodConfig::new(method) {
                        Ok(c) => c,
                        Err(e) => {
                            return Err(e);
                        },
                    };
                    let hash = into_u32(method.name.as_str());
                    ids.push(mc.id);
                    methods.push(
                        MethodDescription { hash, id: mc.id, input: mc.input, output: mc.output },
                    );
                    host_items.push(TraitItemDecl::Operation(strip_operation(method)));
                },
                TraitItemDecl::Other => {
                    return unreached();
                },
            }
            k += 1;
        }
        proof {
            assert(trait_item.items@.skip(n as int) =~= Seq::<TraitItemDecl>::empty());
        }
        let m = ids.len();
        let mut a: usize = 0;
        while a < m
            invariant
                a <= m == ids@.len(),
                n == trait_item.items@.len() == m,
                forall|i: int|
                    0 <= i < m ==> ids@[i] == resolved_op_id(op_of(#[trigger] trait_item.items@[i])),
                forall|i: int, j: int| 0 <= i < j < m && i < a ==> ids@[i] != ids@[j],
            decreases m - a,
        {
            let mut b = a + 1;
            while b < m
                invariant
                    a < b <= m == ids@.len(),
                    n == trait_item.items@.len() == m,
                    forall|i: int|
                        0 <= i < m ==> ids@[i] == resolved_op_id(
                            op_of(#[trigger] trait_item.items@[i]),
                        ),
                    forall|j: int| a < j < b ==> ids@[a as int] != ids@[j],
                decreases m - b,
            {
                if ids[a] == ids[b] {
                    proof {
                        assert(resolved_op_id(op_of(trait_item.items@[a as int]))
                            == resolved_op_id(op_of(trait_item.items@[b as int])));
                    }
                    return Err(CompileError::DuplicateOperationId);
                }
                b += 1;
            }
            a += 1;
        }
        proof {
            assert(!has_duplicate_ids(trait_item.items@)) by {
                if has_duplicate_ids(trait_item.items@) {
                    let (i, j) = choose|i: int, j: int|
                        0 <= i < j < trait_item.items@.len() && resolved_op_id(
                            op_of(trait_item.items@[i]),
                        ) == resolved_op_id(op_of(trait_item.items@[j]));
                    assert(ids@[i] == ids@[j]);
                }
            }
        }
        let stripped = InterfaceDecl {
            name: trait_item.name.clone(),
            type_params: clone_strings(&trait_item.type_params),
            items: host_items,
        };
        let host = Self::substrate(stripped);
        let guest = Self::ink(trait_item, &config);
        Ok(CompiledDefinition { extension_id: config.id, methods, host, guest })
    }

    /// The host-role artifact: the stripped interface echoed unchanged.
    fn substrate(trait_item: InterfaceDecl) -> (r: InterfaceDecl)
        ensures
            r == trait_item,
    {
        trait_item
    }

    /// The guest-role artifact: every operation gains a stub that performs
    /// the call addressed by the interface and operation identifiers.
    #[verifier::loop_isolation(false)]
    fn ink(trait_item: &InterfaceDecl, trait_config: &Config) -> (r: GuestInterface)
        requires
            all_operations(trait_item.items@),
            methods_error(trait_item.items@) is None,
        ensures
            guest_matches(r, *trait_item, trait_config.id),
    {
        proof {
            lemma_methods_error_none(trait_item.items@);
        }
        let ext_id: u32 = (trait_config.id as u32) << 16;
        let n = trait_item.items.len();
        let mut guest_methods: Vec<GuestMethod> = Vec::new();
        let mut k: usize = 0;
        while k < n
            invariant
                k <= n == trait_item.items@.len(),
                all_operations(trait_item.items@),
                ext_id == (trait_config.id as u32) << 16,
                forall|i: int|
                    0 <= i < n && trait_item.items@[i] is Operation ==> !op_of(
                        #[trigger] trait_item.items@[i],
                    ).has_default_body && method_id_spec(op_of(trait_item.items@[i])) is Ok,
                guest_methods@.len() == k,
                forall|i: int|
                    0 <= i < k ==> guest_method_matches(
                        #[trigger] guest_methods@[i],
                        op_of(trait_item.items@[i]),
                        trait_config.id,
                    ),
            decreases n - k,
        {
            let method = match &trait_item.items[k] {
                TraitItemDecl::Operation(m) => m,
                TraitItemDecl::Other => {
                    return unreached();
                },
            };
            let mc = match MethodConfig::new(method) {
                Ok(c) => c,
                Err(_) => {
                    return unreached();
                },
            };
            let id: u32 = ext_id | (mc.id as u32);
            let mut bindings: Vec<String> = Vec::new();
            let nb = method.inputs.len();
            let mut j: usize = 0;
            while j < nb
                invariant
                    j <= nb == method.inputs@.len(),
                    bindings@.len() == j,
                    forall|t: int| 0 <= t < j ==> bindings@[t] == method.inputs@[t].pat,
                decreases nb - j,
            {
                bindings.push(method.inputs[j].pat.clone());
                j += 1;
            }
            proof {
                assert(bindings@ =~= input_pats(*method));
            }
            guest_methods.push(
                GuestMethod {
                    name: method.name.clone(),
                    id,
                    input: mc.input,
                    output: mc.output,
                    bindings,
                    where_preds: clone_strings(&method.where_preds),
                },
            );
            k += 1;
        }
        GuestInterface {
            name: trait_item.name.clone(),
            type_params: clone_strings(&trait_item.type_params),
            methods: guest_methods,
        }
    }
}

} // verus!
