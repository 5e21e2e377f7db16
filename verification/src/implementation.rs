use vstd::prelude::*;
use vstd::string::StringExecFns;
use crate::definition::{
    compiled_definition_matches, op_of, resolved_op_id, CompiledDefinition, InterfaceDecl,
};
use crate::types::{AttrToken, CompileError};
use crate::utils::{clone_strings, id32_of, into_u32, lemma_wire_address_round_trip};

verus! {

/// A generics list of an implementation declaration: the rendered token
/// sequences of its parameters and of its constraint-clause predicates.
#[derive(Debug, Clone, PartialEq, Eq)]
pub struct GenericsDecl {
    pub params: Vec<Vec<String>>,
    pub where_preds: Vec<Vec<String>>,
}

/// One generic argument of the self type, as its rendered token sequence.
#[derive(Debug, Clone, PartialEq, Eq)]
pub struct GenericArg {
    pub tokens: Vec<String>,
}

/// The self type of an implementation declaration.
#[derive(Debug, Clone, PartialEq, Eq)]
pub enum SelfTy {
    /// A type path: the last segment's name and its generic argument list,
    /// `None` where the segment carries no angle-bracketed arguments.
    Path { name: String, args: Option<Vec<GenericArg>> },
    /// Anything that is not a type path.
    Other,
}

/// One handler (method) of an implementation declaration: its name and how
/// many typed (non-receiver) parameters it declares.
#[derive(Debug, Clone, PartialEq, Eq)]
pub struct ImplMethodDecl {
    pub name: String,
    pub n_inputs: usize,
}

/// One item of an implementation declaration.
#[derive(Debug, Clone, PartialEq, Eq)]
pub enum ImplItemDecl {
    Method(ImplMethodDecl),
    Other,
}

/// An implementation declaration bound to the five-parameter host-context
/// carrier type.
#[derive(Debug, Clone, PartialEq, Eq)]
pub struct ImplDecl {
    /// The implemented trait's rendered path, `None` for an inherent impl.
    pub trait_path: Option<String>,
    pub self_ty: SelfTy,
    pub generics: GenericsDecl,
    pub items: Vec<ImplItemDecl>,
}

/// The views of one rendered token sequence.
pub open spec fn tok_views(toks: Seq<String>) -> Seq<Seq<char>> {
    toks.map_values(|s: String| s@)
}

/// The token sequences of a list of rendered entries.
pub open spec fn entry_seqs(es: Seq<Vec<String>>) -> Seq<Seq<String>> {
    es.map_values(|e: Vec<String>| e@)
}

/// Whether `search` occurs in `src` as a contiguous run.
pub open spec fn spec_is_subsequence(src: Seq<Seq<char>>, search: Seq<Seq<char>>) -> bool {
    exists|i: int|
        0 <= i && i + search.len() <= src.len() && #[trigger] src.subrange(i, i + search.len())
            == search
}

/// The entries that survive filtering: those in which the filtered
/// argument's tokens do not occur as a contiguous run.
pub open spec fn kept_seqs(es: Seq<Seq<String>>, filter: Seq<Seq<char>>) -> Seq<Seq<String>>
    decreases es.len(),
{
    if es.len() == 0 {
        Seq::empty()
    } else {
        let rest = kept_seqs(es.drop_first(), filter);
        if spec_is_subsequence(tok_views(es[0]), filter) {
            rest
        } else {
            seq![es[0]] + rest
        }
    }
}

/// Whether the window of `src` starting at `i` equals `search`.
fn window_matches(src: &[String], search: &[String], i: usize) -> (r: bool)
    requires
        i + search@.len() <= src@.len(),
    ensures
        r == (tok_views(src@).subrange(i as int, i + search@.len()) == tok_views(search@)),
{
    let ns = search.len();
    let nsrc = src.len();
    let mut j: usize = 0;
    while j < ns
        invariant
            j <= ns == search@.len(),
            nsrc == src@.len(),
            i + ns <= nsrc,
            forall|t: int| 0 <= t < j ==> tok_views(src@)[i + t] == tok_views(search@)[t],
        decreases ns - j,
    {
        if src[i + j] == search[j] {
            j += 1;
        } else {
            proof {
                assert(tok_views(src@)[i + j] != tok_views(search@)[j as int]);
                assert(tok_views(src@).subrange(i as int, i + ns) != tok_views(search@)) by {
                    if tok_views(src@).subrange(i as int, i + ns) == tok_views(search@) {
                        assert(tok_views(src@).subrange(i as int, i + ns)[j as int] == tok_views(
                            src@,
                        )[i + j]);
                    }
                }
            }
            return false;
        }
    }
    proof {
        assert(tok_views(src@).subrange(i as int, i + ns) =~= tok_views(search@));
    }
    true
}

/// Whether `search` occurs in `src` as a contiguous run of equal tokens.
pub fn is_subsequence(src: &[String], search: &[String]) -> (r: bool)
    ensures
        r == spec_is_subsequence(tok_views(src@), tok_views(search@)),
{
    let n = src.len();
    let ns = search.len();
    if ns > n {
        return false;
    }
    let lim = n - ns;
    let mut i: usize = 0;
    loop
        invariant_except_break
            i <= lim,
        invariant
            lim == n - ns,
            n == src@.len(),
            ns == search@.len(),
            forall|t: int|
                0 <= t < i ==> #[trigger] tok_views(src@).subrange(t, t + search@.len())
                    != tok_views(search@),
        ensures
            forall|t: int|
                0 <= t <= lim ==> #[trigger] tok_views(src@).subrange(t, t + search@.len())
                    != tok_views(search@),
        decreases lim - i,
    {
        if window_matches(src, search, i) {
            proof {
                let sv = tok_views(src@);
                let wv = tok_views(search@);
                assert(sv.subrange(i as int, i as int + wv.len()) == wv);
                assert(spec_is_subsequence(sv, wv));
            }
            return true;
        }
        if i == lim {
            break;
        }
        i += 1;
    }
    false
}

/// Filters a list of rendered entries: keeps, in order, copies of those in
/// which the filter's tokens do not occur as a contiguous run.
#[verifier::loop_isolation(false)]
fn filter_entries(entries: &Vec<Vec<String>>, filter: &Vec<String>) -> (r: Vec<Vec<String>>)
    ensures
        entry_seqs(r@) == kept_seqs(entry_seqs(entries@), tok_views(filter@)),
{
    let ghost vs = entry_seqs(entries@);
    let ghost f = tok_views(filter@);
    let n = entries.len();
    let mut out: Vec<Vec<String>> = Vec::new();
    let mut k: usize = 0;
    proof {
        assert(vs.skip(0) =~= vs);
        assert(entry_seqs(out@) =~= Seq::<Seq<String>>::empty());
    }
    while k < n
        invariant
            k <= n == entries@.len(),
            vs.len() == n,
            kept_seqs(vs, f) == entry_seqs(out@) + kept_seqs(vs.skip(k as int), f),
        decreases n - k,
    {
        let ghost rest = vs.skip(k as int);
        proof {
            assert(rest[0] == vs[k as int]);
            assert(vs[k as int] == entries@[k as int]@);
            assert(rest.drop_first() =~= vs.skip(k as int + 1));
        }
        let entry = &entries[k];
        if !is_subsequence(entry.as_slice(), filter.as_slice()) {
            let copy = clone_strings(entry);
            out.push(copy);
            proof {
                assert(entry_seqs(out@) =~= entry_seqs(out@.drop_last()) + seq![copy@]);
            }
        }
        k += 1;
    }
    proof {
        assert(vs.skip(n as int) =~= Seq::<Seq<String>>::empty());
    }
    out
}

/// Removes from a generics list every parameter and every predicate in
/// which the filtered argument's rendered tokens occur as a contiguous run.
pub fn filter_generics(generics: &GenericsDecl, filter: &GenericArg) -> (r: GenericsDecl)
    ensures
        entry_seqs(r.params@) == kept_seqs(
            entry_seqs(generics.params@),
            tok_views(filter.tokens@),
        ),
        entry_seqs(r.where_preds@) == kept_seqs(
            entry_seqs(generics.where_preds@),
            tok_views(filter.tokens@),
        ),
{
    GenericsDecl {
        params: filter_entries(&generics.params, &filter.tokens),
        where_preds: filter_entries(&generics.where_preds, &filter.tokens),
    }
}

/// The decimal digit character of `d`.
pub open spec fn digit_char(d: nat) -> char {
    if d == 0 {
        '0'
    } else if d == 1 {
        '1'
    } else if d == 2 {
        '2'
    } else if d == 3 {
        '3'
    } else if d == 4 {
        '4'
    } else if d == 5 {
        '5'
    } else if d == 6 {
        '6'
    } else if d == 7 {
        '7'
    } else if d == 8 {
        '8'
    } else {
        '9'
    }
}

/// The decimal rendering of `n`, most significant digit first.
pub open spec fn spec_decimal(n: nat) -> Seq<char>
    decreases n,
{
    if n < 10 {
        seq![digit_char(n)]
    } else {
        spec_decimal(n / 10) + seq![digit_char(n % 10)]
    }
}

/// One decimal digit as text.
fn digit_str(d: usize) -> (r: &'static str)
    requires
        d < 10,
    ensures
        r@ == seq![digit_char(d as nat)],
{
    proof {
        reveal_strlit("0");
        reveal_strlit("1");
        reveal_strlit("2");
        reveal_strlit("3");
        reveal_strlit("4");
        reveal_strlit("5");
        reveal_strlit("6");
        reveal_strlit("7");
        reveal_strlit("8");
        reveal_strlit("9");
    }
    if d == 0 {
        "0"
    } else if d == 1 {
        "1"
    } else if d == 2 {
        "2"
    } else if d == 3 {
        "3"
    } else if d == 4 {
        "4"
    } else if d == 5 {
        "5"
    } else if d == 6 {
        "6"
    } else if d == 7 {
        "7"
    } else if d == 8 {
        "8"
    } else {
        "9"
    }
}

/// Renders a number in decimal.
fn usize_to_dec(n: usize) -> (r: String)
    ensures
        r@ == spec_decimal(n as nat),
    decreases n,
{
    let d = n % 10;
    let q = n / 10;
    let ds = digit_str(d);
    if q == 0 {
        ds.to_owned()
    } else {
        let mut s = usize_to_dec(q);
        s.append(ds);
        s
    }
}

/// The name synthesized for the `i`-th positional binding of a handler.
pub open spec fn binding_name_spec(i: nat) -> Seq<char> {
    "__ink_binding_"@ + spec_decimal(i)
}

/// Synthesizes the `i`-th positional binding name.
fn binding_name(i: usize) -> (r: String)
    ensures
        r@ == binding_name_spec(i as nat),
{
    let mut s: String = "__ink_binding_".to_owned();
    let d = usize_to_dec(i);
    s.append(d.as_str());
    s
}

/// Synthesizes one uniquely numbered binding name for each of `n`
/// positional parameters.
pub fn input_bindings(n: usize) -> (r: Vec<String>)
    ensures
        r@.len() == n,
        forall|i: int| 0 <= i < n ==> (#[trigger] r@[i])@ == binding_name_spec(i as nat),
{
    let mut r: Vec<String> = Vec::new();
    let mut k: usize = 0;
    while k < n
        invariant
            k <= n,
            r@.len() == k,
            forall|i: int| 0 <= i < k ==> (#[trigger] r@[i])@ == binding_name_spec(i as nat),
        decreases n - k,
    {
        r.push(binding_name(k));
        k += 1;
    }
    r
}

/// The pattern that an arm binds the decoded input tuple to.
#[derive(Debug, Clone, PartialEq, Eq)]
pub enum TuplePattern {
    /// No inputs: the wildcard unit pattern.
    Unit,
    /// One input: the bare binding.
    Single(String),
    /// Two or more inputs: the parenthesized binding tuple.
    Tuple(Vec<String>),
}

/// Whether a pattern binds exactly `n` synthesized positional names.
pub open spec fn tuple_pattern_matches(p: TuplePattern, n: nat) -> bool {
    match p {
        TuplePattern::Unit => n == 0,
        TuplePattern::Single(b) => n == 1 && b@ == binding_name_spec(0),
        TuplePattern::Tuple(bs) => n >= 2 && bs@.len() == n && forall|i: int|
            0 <= i < n ==> (#[trigger] bs@[i])@ == binding_name_spec(i as nat),
    }
}

/// Shapes the synthesized bindings of `n` positional parameters into the
/// pattern the decoded input tuple is bound to.
pub fn input_bindings_tuple(n: usize) -> (r: TuplePattern)
    ensures
        tuple_pattern_matches(r, n as nat),
{
    let mut bindings = input_bindings(n);
    if n == 0 {
        TuplePattern::Unit
    } else if n == 1 {
        match bindings.pop() {
            Some(b) => TuplePattern::Single(b),
            None => unreached(),
        }
    } else {
        TuplePattern::Tuple(bindings)
    }
}

/// The five generic arguments of the host-context carrier type, in the
/// order they are declared: two lifetime markers, the environment type, the
/// target-config type and the storage type.
#[derive(Debug, Clone, PartialEq, Eq)]
pub struct ExtensionContext {
    pub lifetime1: GenericArg,
    pub lifetime2: GenericArg,
    pub env: GenericArg,
    pub substrate: GenericArg,
    pub extension: GenericArg,
}

/// The self type's generic argument list, where it has one.
pub open spec fn split_args(impl_item: ImplDecl) -> Seq<GenericArg> {
    match impl_item.self_ty {
        SelfTy::Path { name: _, args } => match args {
            Some(a) => a@,
            None => Seq::empty(),
        },
        SelfTy::Other => Seq::empty(),
    }
}

/// Why the self type is rejected, if it is: it must be a type path whose
/// last segment carries exactly five generic arguments.
pub open spec fn split_generics_error(impl_item: ImplDecl) -> Option<CompileError> {
    match impl_item.self_ty {
        SelfTy::Path { name: _, args } => match args {
            Some(a) => if a@.len() == 5 {
                None
            } else {
                Some(CompileError::WrongGenericsCount)
            },
            None => Some(CompileError::SelfTypeWithoutGenerics),
        },
        SelfTy::Other => Some(CompileError::WrongSelfType),
    }
}

/// Copies one generic argument.
fn clone_arg(a: &GenericArg) -> (r: GenericArg)
    ensures
        r.tokens@ == a.tokens@,
{
    GenericArg { tokens: clone_strings(&a.tokens) }
}

/// The handlers among an implementation's items, in order.
pub open spec fn method_items(items: Seq<ImplItemDecl>) -> Seq<ImplMethodDecl>
    decreases items.len(),
{
    if items.len() == 0 {
        Seq::empty()
    } else {
        let rest = method_items(items.drop_first());
        match items[0] {
            ImplItemDecl::Method(m) => seq![m] + rest,
            ImplItemDecl::Other => rest,
        }
    }
}

/// One arm of the generated dispatch match: on the identifier registered
/// under `hash`, decode the input tuple into the synthesized bindings,
/// invoke the named handler with them, classify its result and encode it.
#[derive(Debug, Clone, PartialEq, Eq)]
pub struct DispatchArm {
    /// The 32-bit dispatch key of the handler's name; the arm matches the
    /// method identifier registered under this key.
    pub hash: u32,
    pub method_name: String,
    /// The synthesized positional binding names handed to the handler.
    pub bindings: Vec<String>,
    /// The pattern the decoded input tuple is bound to.
    pub pattern: TuplePattern,
}

/// Whether one dispatch arm routes to one handler.
pub open spec fn arm_matches(a: DispatchArm, m: ImplMethodDecl) -> bool {
    &&& a.hash == id32_of(m.name@)
    &&& a.method_name == m.name
    &&& a.bindings@.len() == m.n_inputs
    &&& forall|t: int|
        0 <= t < m.n_inputs ==> (#[trigger] a.bindings@[t])@ == binding_name_spec(t as nat)
    &&& tuple_pattern_matches(a.pattern, m.n_inputs as nat)
}

/// The host-side dispatcher compiled from one implementation declaration.
#[derive(Debug, Clone, PartialEq, Eq)]
pub struct ChainExtensionImpl {
    /// The generics of the dispatcher impl: the declaration's, without the
    /// two lifetime markers and the environment type.
    pub main_generics: GenericsDecl,
    /// The generics of the per-call handler signature: the declaration's,
    /// without the two lifetime markers.
    pub call_generics: GenericsDecl,
    pub env: GenericArg,
    pub substrate: GenericArg,
    pub extension: GenericArg,
    /// The implemented trait, which the dispatch arms invoke.
    pub trait_path: String,
    /// One arm per handler; an unmatched identifier fails the call.
    pub arms: Vec<DispatchArm>,
}

/// The generics filtered for the dispatcher impl: the two lifetime markers
/// and the environment type removed.
pub open spec fn main_kept(es: Seq<Seq<String>>, impl_item: ImplDecl) -> Seq<Seq<String>> {
    kept_seqs(
        kept_seqs(
            kept_seqs(es, tok_views(split_args(impl_item)[0].tokens@)),
            tok_views(split_args(impl_item)[1].tokens@),
        ),
        tok_views(split_args(impl_item)[2].tokens@),
    )
}

/// The generics filtered for the per-call handler: the two lifetime markers
/// removed.
pub open spec fn call_kept(es: Seq<Seq<String>>, impl_item: ImplDecl) -> Seq<Seq<String>> {
    kept_seqs(
        kept_seqs(es, tok_views(split_args(impl_item)[0].tokens@)),
        tok_views(split_args(impl_item)[1].tokens@),
    )
}

/// The first error of compiling an implementation declaration, if any: a
/// bad self type, then a missing trait.
pub open spec fn implementation_error(impl_item: ImplDecl) -> Option<CompileError> {
    match split_generics_error(impl_item) {
        Some(e) => Some(e),
        None => if impl_item.trait_path is None {
            Some(CompileError::ExpectedImplTraitBlock)
        } else {
            None
        },
    }
}

/// Whether a compiled dispatcher is what the declaration compiles to.
pub open spec fn chain_matches(c: ChainExtensionImpl, d: ImplDecl) -> bool {
    &&& entry_seqs(c.main_generics.params@) == main_kept(entry_seqs(d.generics.params@), d)
    &&& entry_seqs(c.main_generics.where_preds@) == main_kept(
        entry_seqs(d.generics.where_preds@),
        d,
    )
    &&& entry_seqs(c.call_generics.params@) == call_kept(entry_seqs(d.generics.params@), d)
    &&& entry_seqs(c.call_generics.where_preds@) == call_kept(
        entry_seqs(d.generics.where_preds@),
        d,
    )
    &&& c.env.tokens@ == split_args(d)[2].tokens@
    &&& c.substrate.tokens@ == split_args(d)[3].tokens@
    &&& c.extension.tokens@ == split_args(d)[4].tokens@
    &&& d.trait_path matches Some(p) && c.trait_path == p
    &&& c.arms@.len() == method_items(d.items@).len()
    &&& forall|i: int|
        0 <= i < c.arms@.len() ==> arm_matches(#[trigger] c.arms@[i], method_items(d.items@)[i])
}

/// Whether the argument lists of two self types render the same.
pub open spec fn self_ty_matches(h: SelfTy, d: SelfTy) -> bool {
    match (h, d) {
        (SelfTy::Path { name: hn, args: ha }, SelfTy::Path { name: dn, args: da }) => hn == dn
            && match (ha, da) {
            (Some(h2), Some(d2)) => h2@.map_values(|g: GenericArg| g.tokens@) == d2@.map_values(
                |g: GenericArg| g.tokens@,
            ),
            (None, None) => true,
            _ => false,
        },
        (SelfTy::Other, SelfTy::Other) => true,
        _ => false,
    }
}

/// Whether the echoed declaration is the declared one.
pub open spec fn impl_echo_matches(h: ImplDecl, d: ImplDecl) -> bool {
    &&& h.trait_path == d.trait_path
    &&& self_ty_matches(h.self_ty, d.self_ty)
    &&& entry_seqs(h.generics.params@) == entry_seqs(d.generics.params@)
    &&& entry_seqs(h.generics.where_preds@) == entry_seqs(d.generics.where_preds@)
    &&& h.items@ == d.items@
}

/// Copies a list of rendered entries.
fn clone_entries(v: &Vec<Vec<String>>) -> (r: Vec<Vec<String>>)
    ensures
        entry_seqs(r@) == entry_seqs(v@),
{
    let mut r: Vec<Vec<String>> = Vec::new();
    let n = v.len();
    let mut k: usize = 0;
    while k < n
        invariant
            k <= n == v@.len(),
            r@.len() == k,
            forall|i: int| 0 <= i < k ==> (#[trigger] r@[i])@ == v@[i]@,
        decreases n - k,
    {
        r.push(clone_strings(&v[k]));
        k += 1;
    }
    proof {
        assert(entry_seqs(r@) =~= entry_seqs(v@));
    }
    r
}

/// Copies a self type.
fn clone_self_ty(s: &SelfTy) -> (r: SelfTy)
    ensures
        self_ty_matches(r, *s),
{
    match s {
        SelfTy::Path { name, args } => {
            let cloned_args = match args {
                Some(a) => {
                    let mut r: Vec<GenericArg> = Vec::new();
                    let n = a.len();
                    let mut k: usize = 0;
                    while k < n
                        invariant
                            k <= n == a@.len(),
                            r@.len() == k,
                            forall|i: int| 0 <= i < k ==> (#[trigger] r@[i]).tokens@ == a@[i].tokens@,
                        decreases n - k,
                    {
                        r.push(clone_arg(&a[k]));
                        k += 1;
                    }
                    proof {
                        assert(r@.map_values(|g: GenericArg| g.tokens@) =~= a@.map_values(
                            |g: GenericArg| g.tokens@,
                        ));
                    }
                    Some(r)
                },
                None => None,
            };
            SelfTy::Path { name: name.clone(), args: cloned_args }
        },
        SelfTy::Other => SelfTy::Other,
    }
}

/// Copies an implementation's items.
fn clone_items(v: &Vec<ImplItemDecl>) -> (r: Vec<ImplItemDecl>)
    ensures
        r@ == v@,
{
    let mut r: Vec<ImplItemDecl> = Vec::new();
    let n = v.len();
    let mut k: usize = 0;
    while k < n
        invariant
            k <= n == v@.len(),
            r@.len() == k,
            forall|i: int| 0 <= i < k ==> r@[i] == v@[i],
        decreases n - k,
    {
        let item = match &v[k] {
            ImplItemDecl::Method(m) => ImplItemDecl::Method(
                ImplMethodDecl { name: m.name.clone(), n_inputs: m.n_inputs },
            ),
            ImplItemDecl::Other => ImplItemDecl::Other,
        };
        r.push(item);
        k += 1;
    }
    proof {
        assert(r@ =~= v@);
    }
    r
}

/// Copies an implementation declaration.
fn clone_impl_decl(d: &ImplDecl) -> (r: ImplDecl)
    ensures
        impl_echo_matches(r, *d),
{
    let trait_path = match &d.trait_path {
        Some(p) => Some(p.clone()),
        None => None,
    };
    ImplDecl {
        trait_path,
        self_ty: clone_self_ty(&d.self_ty),
        generics: GenericsDecl {
            params: clone_entries(&d.generics.params),
            where_preds: clone_entries(&d.generics.where_preds),
        },
        items: clone_items(&d.items),
    }
}

/// Everything compiled from one implementation declaration: the
/// declaration echoed unchanged, and the host-side dispatcher.
#[derive(Debug, Clone, PartialEq, Eq)]
pub struct CompiledImplementation {
    pub original: ImplDecl,
    pub chain_extension: ChainExtensionImpl,
}

/// The implementation compiler.
pub struct ChainExtensionImplementation;

impl ChainExtensionImplementation {
    /// Compiles one implementation declaration: echoes it unchanged and
    /// emits the host-side dispatcher beside it.
    pub fn generate(_attrs: &Vec<AttrToken>, impl_item: &ImplDecl) -> (r: Result<
        CompiledImplementation,
        CompileError,
    >)
        ensures
            match r {
                Ok(c) => implementation_error(*impl_item) is None && impl_echo_matches(
                    c.original,
                    *impl_item,
                ) && chain_matches(c.chain_extension, *impl_item),
                Err(e) => implementation_error(*impl_item) == Some(e),
            },
    {
        let original = clone_impl_decl(impl_item);
        let chain_extension = match Self::chain_extension_trait_impl(impl_item) {
            Ok(c) => c,
            Err(e) => {
                return Err(e);
            },
        };
        Ok(CompiledImplementation { original, chain_extension })
    }

    /// Compiles the dispatcher: splits the self type's five generic
    /// arguments, partitions the declaration's generics for the dispatcher
    /// and for the per-call handler, and emits one dispatch arm per
    /// handler.
    #[verifier::loop_isolation(false)]
    fn chain_extension_trait_impl(impl_item: &ImplDecl) -> (r: Result<
        ChainExtensionImpl,
        CompileError,
    >)
        ensures
            match r {
                Ok(c) => implementation_error(*impl_item) is None && chain_matches(c, *impl_item),
                Err(e) => implementation_error(*impl_item) == Some(e),
            },
    {
        let context = match Self::split_generics(impl_item) {
            Ok(c) => c,
            Err(e) => {
                return Err(e);
            },
        };
        let main1 = filter_generics(&impl_item.generics, &context.lifetime1);
        let main2 = filter_generics(&main1, &context.lifetime2);
        let main_generics = filter_generics(&main2, &context.env);
        let call1 = filter_generics(&impl_item.generics, &context.lifetime1);
        let call_generics = filter_generics(&call1, &context.lifetime2);
        let trait_path = match &impl_item.trait_path {
            Some(p) => p.clone(),
            None => {
                return Err(CompileError::ExpectedImplTraitBlock);
            },
        };
        let ghost ms = method_items(impl_item.items@);
        let n = impl_item.items.len();
        let mut arms: Vec<DispatchArm> = Vec::new();
        let mut k: usize = 0;
        proof {
            assert(impl_item.items@.skip(0) =~= impl_item.items@);
            assert(ms.skip(0) =~= ms);
        }
        while k < n
            invariant
                k <= n,
                arms@.len() <= ms.len(),
                ms.skip(arms@.len() as int) == method_items(impl_item.items@.skip(k as int)),
                forall|i: int| 0 <= i < arms@.len() ==> arm_matches(#[trigger] arms@[i], ms[i]),
            decreases n - k,
        {
            let ghost rest_items = impl_item.items@.skip(k as int);
            let ghost alen = arms@.len() as int;
            proof {
                assert(rest_items[0] == impl_item.items@[k as int]);
                assert(rest_items.drop_first() =~= impl_item.items@.skip(k as int + 1));
            }
            match &impl_item.items[k] {
                ImplItemDecl::Method(method) => {
                    proof {
                        assert(ms.skip(alen)[0] == ms[alen]);
                        assert(ms.skip(alen).drop_first() =~= ms.skip(alen + 1));
                    }
                    let hash = into_u32(method.name.as_str());
                    let bindings = input_bindings(method.n_inputs);
                    let pattern = input_bindings_tuple(method.n_inputs);
                    arms.push(
                        DispatchArm { hash, method_name: method.name.clone(), bindings, pattern },
                    );
                },
                ImplItemDecl::Other => {},
            }
            k += 1;
        }
        proof {
            assert(impl_item.items@.skip(n as int) =~= Seq::<ImplItemDecl>::empty());
        }
        Ok(
            ChainExtensionImpl {
                main_generics,
                call_generics,
                env: context.env,
                substrate: context.substrate,
                extension: context.extension,
                trait_path,
                arms,
            },
        )
    }

    /// The two emitted artifact sets agree on the wire protocol: for an
    /// interface compiled on the guest side and an implementation compiled
    /// on the host side whose handler of the same position bears the same
    /// name, the guest stub's wire address splits back into the compiled
    /// interface identifier and the operation identifier registered for
    /// that operation, and the host's dispatch arm carries the registry
    /// entry's dispatch key, under which that identifier is matched.
    pub proof fn lemma_guest_host_agreement(
        c: CompiledDefinition,
        attrs: Seq<AttrToken>,
        decl: InterfaceDecl,
        imp: ChainExtensionImpl,
        impl_decl: ImplDecl,
        i: int,
    )
        requires
            compiled_definition_matches(c, attrs, decl),
            chain_matches(imp, impl_decl),
            0 <= i < decl.items@.len(),
            i < method_items(impl_decl.items@).len(),
            method_items(impl_decl.items@)[i].name@ == op_of(decl.items@[i]).name@,
        ensures
            c.guest.methods@[i].id >> 16 == c.extension_id as u32,
            c.guest.methods@[i].id & 0xffff == c.methods@[i].id as u32,
            imp.arms@[i].hash == c.methods@[i].hash,
    {
        lemma_wire_address_round_trip(c.extension_id, resolved_op_id(op_of(decl.items@[i])));
    }

    /// Splits the self type: it must be a type path carrying exactly the
    /// five generic arguments of the host-context carrier.
    fn split_generics(impl_item: &ImplDecl) -> (r: Result<ExtensionContext, CompileError>)
        ensures
            match r {
                Ok(ctx) => {
                    &&& split_generics_error(*impl_item) is None
                    &&& ctx.lifetime1.tokens@ == split_args(*impl_item)[0].tokens@
                    &&& ctx.lifetime2.tokens@ == split_args(*impl_item)[1].tokens@
                    &&& ctx.env.tokens@ == split_args(*impl_item)[2].tokens@
                    &&& ctx.substrate.tokens@ == split_args(*impl_item)[3].tokens@
                    &&& ctx.extension.tokens@ == split_args(*impl_item)[4].tokens@
                },
                Err(e) => split_generics_error(*impl_item) == Some(e),
            },
    {
        match &impl_item.self_ty {
            SelfTy::Path { name: _, args: Some(a) } => {
                if a.len() == 5 {
                    Ok(
                        ExtensionContext {
                            lifetime1: clone_arg(&a[0]),
                            lifetime2: clone_arg(&a[1]),
                            env: clone_arg(&a[2]),
                            substrate: clone_arg(&a[3]),
                            extension: clone_arg(&a[4]),
                        },
                    )
                } else {
                    Err(CompileError::WrongGenericsCount)
                }
            },
            SelfTy::Path { name: _, args: None } => Err(CompileError::SelfTypeWithoutGenerics),
            SelfTy::Other => Err(CompileError::WrongSelfType),
        }
    }
}

} // verus!
