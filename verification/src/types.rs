use vstd::prelude::*;

verus! {

/// An error raised while compiling a declaration. Every error aborts the
/// compilation of the declaration it was found in.
#[derive(Clone, Copy, Debug, PartialEq, Eq, Structural)]
pub enum CompileError {
    /// The annotation token list does not follow the comma-separated
    /// `path` / `key = literal` grammar.
    UnableDecodeAttributes,
    /// An `id` annotation carries an integer that does not fit in 16 bits.
    IdOutOfRange,
    /// An `id` annotation carries a literal that is neither integer nor string.
    IdNotIntOrString,
    /// An annotation entry other than the recognized ones.
    UnexpectedAttribute,
    /// An interface declaration holds an item that is not an operation.
    OnlyMethodsSupported,
    /// An operation declares a default body.
    DefaultImplementationNotSupported,
    /// Two operations of one interface resolve to the same 16-bit identifier.
    DuplicateOperationId,
    /// An implementation declaration does not implement a trait.
    ExpectedImplTraitBlock,
    /// The implementation's self type is not a type path.
    WrongSelfType,
    /// The implementation's self type carries no generic argument list.
    SelfTypeWithoutGenerics,
    /// The implementation's self type does not carry exactly five generic
    /// arguments.
    WrongGenericsCount,
    /// More than one error-enum variant is marked critical.
    MultipleCriticalVariants,
}

impl CompileError {
    /// The diagnostic text of this error.
    pub fn message(&self) -> (r: &'static str)
        ensures
            *self == CompileError::UnableDecodeAttributes ==> r@ == "unable decode attributes"@,
            *self == CompileError::IdOutOfRange ==> r@ == "id out of range. id must be a valid `u16` integer"@,
            *self == CompileError::IdNotIntOrString ==> r@ == "id should be integer or string"@,
            *self == CompileError::UnexpectedAttribute ==> r@ == "unexpected attribute"@,
            *self == CompileError::OnlyMethodsSupported ==> r@ == "only methods are supported in the trait definition"@,
            *self == CompileError::DefaultImplementationNotSupported ==> r@ == "default implementation is not supported in chains extension"@,
            *self == CompileError::DuplicateOperationId ==> r@ == "each operation `id` must be unique within the interface"@,
            *self == CompileError::ExpectedImplTraitBlock ==> r@ == "expected impl trait block"@,
            *self == CompileError::WrongSelfType ==> r@ == "the type should be `ExtensionContext`"@,
            *self == CompileError::SelfTypeWithoutGenerics ==> r@ == "`ExtensionContext` should have `<'a, 'b, E, T, Extension>`"@,
            *self == CompileError::WrongGenericsCount ==> r@ == "`ExtensionContext` should have 5 generics as `<'a, 'b, E, T, Extension>`"@,
            *self == CompileError::MultipleCriticalVariants ==> r@ == "only one enum variant can be marked as critical"@,
    {
        match self {
            CompileError::UnableDecodeAttributes => "unable decode attributes",
            CompileError::IdOutOfRange => "id out of range. id must be a valid `u16` integer",
            CompileError::IdNotIntOrString => "id should be integer or string",
            CompileError::UnexpectedAttribute => "unexpected attribute",
            CompileError::OnlyMethodsSupported => "only methods are supported in the trait definition",
            CompileError::DefaultImplementationNotSupported => "default implementation is not supported in chains extension",
            CompileError::DuplicateOperationId => "each operation `id` must be unique within the interface",
            CompileError::ExpectedImplTraitBlock => "expected impl trait block",
            CompileError::WrongSelfType => "the type should be `ExtensionContext`",
            CompileError::SelfTypeWithoutGenerics => "`ExtensionContext` should have `<'a, 'b, E, T, Extension>`",
            CompileError::WrongGenericsCount => "`ExtensionContext` should have 5 generics as `<'a, 'b, E, T, Extension>`",
            CompileError::MultipleCriticalVariants => "only one enum variant can be marked as critical",
        }
    }
}

/// One token of an annotation list, as handed to the attribute parser.
#[derive(Debug, Clone, PartialEq, Eq)]
pub enum AttrToken {
    /// A bare word (an identifier or path segment).
    Word(String),
    /// The `=` punctuation.
    Equals,
    /// The `,` punctuation.
    Comma,
    /// An integer literal, carried by value.
    LitInt(u128),
    /// A string literal, carried without its quotes.
    LitStr(String),
    /// A literal of any other kind (a boolean, a character).
    LitOther,
}

/// The literal of a `key = literal` annotation entry.
#[derive(Debug, Clone, PartialEq, Eq)]
pub enum Lit {
    Int(u128),
    Str(String),
    /// A literal of any other kind; no recognized key accepts one.
    Other,
}

/// One parsed annotation entry: a bare path or a `key = literal` pair.
#[derive(Debug, Clone, PartialEq, Eq)]
pub enum NestedMeta {
    Path(String),
    NameValue(String, Lit),
}

/// A parsed annotation list.
#[derive(Debug, Clone, PartialEq, Eq)]
pub struct AttributeArgs(pub Vec<NestedMeta>);

/// The literal carried by one token, if it carries one.
pub open spec fn lit_of(t: AttrToken) -> Option<Lit> {
    match t {
        AttrToken::LitInt(v) => Some(Lit::Int(v)),
        AttrToken::LitStr(s) => Some(Lit::Str(s)),
        AttrToken::LitOther => Some(Lit::Other),
        _ => None,
    }
}

/// The annotation grammar: zero or more comma-separated entries, each a bare
/// word or a `word = literal` pair, with an optional trailing comma. `None`
/// is a malformed list.
pub open spec fn parse_args_spec(tokens: Seq<AttrToken>) -> Option<Seq<NestedMeta>>
    decreases tokens.len(),
{
    if tokens.len() == 0 {
        Some(Seq::empty())
    } else {
        match tokens[0] {
            AttrToken::Word(w) => {
                if tokens.len() == 1 {
                    Some(seq![NestedMeta::Path(w)])
                } else {
                    match tokens[1] {
                        AttrToken::Comma => {
                            match parse_args_spec(tokens.skip(2)) {
                                Some(rest) => Some(seq![NestedMeta::Path(w)] + rest),
                                None => None,
                            }
                        },
                        AttrToken::Equals => {
                            if tokens.len() < 3 {
                                None
                            } else {
                                match lit_of(tokens[2]) {
                                    Some(l) => {
                                        if tokens.len() == 3 {
                                            Some(seq![NestedMeta::NameValue(w, l)])
                                        } else {
                                            match tokens[3] {
                                                AttrToken::Comma => {
                                                    match parse_args_spec(tokens.skip(4)) {
                                                        Some(rest) => Some(
                                                            seq![NestedMeta::NameValue(w, l)] + rest,
                                                        ),
                                                        None => None,
                                                    }
                                                },
                                                _ => None,
                                            }
                                        }
                                    },
                                    None => None,
                                }
                            }
                        },
                        _ => None,
                    }
                }
            },
            _ => None,
        }
    }
}

impl AttributeArgs {
    /// Parses an annotation token list into its comma-separated entries.
    pub fn parse(tokens: &Vec<AttrToken>) -> (r: Result<AttributeArgs, CompileError>)
        ensures
            match r {
                Ok(args) => parse_args_spec(tokens@) == Some(args.0@),
                Err(e) => parse_args_spec(tokens@) is None && e
                    == CompileError::UnableDecodeAttributes,
            },
    {
        proof {
            assert(tokens@.skip(0) =~= tokens@);
        }
        match Self::parse_from(tokens, 0) {
            Ok(v) => Ok(AttributeArgs(v)),
            Err(e) => Err(e),
        }
    }

    /// Parses the entries that start at token `i`.
    fn parse_from(tokens: &Vec<AttrToken>, i: usize) -> (r: Result<Vec<NestedMeta>, CompileError>)
        requires
            i <= tokens@.len(),
        ensures
            match r {
                Ok(v) => parse_args_spec(tokens@.skip(i as int)) == Some(v@),
                Err(e) => parse_args_spec(tokens@.skip(i as int)) is None && e
                    == CompileError::UnableDecodeAttributes,
            },
        decreases tokens@.len() - i,
    {
        let ghost rest_toks = tokens@.skip(i as int);
        if i == tokens.len() {
            let v: Vec<NestedMeta> = Vec::new();
            return Ok(v);
        }
        proof {
            assert(rest_toks[0] == tokens@[i as int]);
        }
        let w = match &tokens[i] {
            AttrToken::Word(w) => w.clone(),
            _ => {
                return Err(CompileError::UnableDecodeAttributes);
            },
        };
        if i + 1 == tokens.len() {
            let mut v: Vec<NestedMeta> = Vec::new();
            v.push(NestedMeta::Path(w));
            return Ok(v);
        }
        proof {
            assert(rest_toks[1] == tokens@[i + 1]);
        }
        match &tokens[i + 1] {
            AttrToken::Comma => {
                let rest = match Self::parse_from(tokens, i + 2) {
                    Ok(v) => v,
                    Err(e) => {
                        proof {
                            assert(rest_toks.skip(2) =~= tokens@.skip(i + 2));
                        }
                        return Err(e);
                    },
                };
                let mut v = rest;
                v.insert(0, NestedMeta::Path(w));
                proof {
                    assert(rest_toks.skip(2) =~= tokens@.skip(i + 2));
                    assert(v@ =~= seq![NestedMeta::Path(w)] + v@.skip(1));
                }
                Ok(v)
            },
            AttrToken::Equals => {
                if i + 2 == tokens.len() {
                    return Err(CompileError::UnableDecodeAttributes);
                }
                proof {
                    assert(rest_toks[2] == tokens@[i + 2]);
                }
                let l = match &tokens[i + 2] {
                    AttrToken::LitInt(v) => Lit::Int(*v),
                    AttrToken::LitStr(s) => Lit::Str(s.clone()),
                    AttrToken::LitOther => Lit::Other,
                    _ => {
                        return Err(CompileError::UnableDecodeAttributes);
                    },
                };
                let meta = NestedMeta::NameValue(w, l);
                if i + 3 == tokens.len() {
                    let mut v: Vec<NestedMeta> = Vec::new();
                    v.push(meta);
                    return Ok(v);
                }
                proof {
                    assert(rest_toks[3] == tokens@[i + 3]);
                }
                match &tokens[i + 3] {
                    AttrToken::Comma => {
                        let rest = match Self::parse_from(tokens, i + 4) {
                            Ok(v) => v,
                            Err(e) => {
                                proof {
                                    assert(rest_toks.skip(4) =~= tokens@.skip(i + 4));
                                }
                                return Err(e);
                            },
                        };
                        let mut v = rest;
                        v.insert(0, meta);
                        proof {
                            assert(rest_toks.skip(4) =~= tokens@.skip(i + 4));
                            assert(v@ =~= seq![meta] + v@.skip(1));
                        }
                        Ok(v)
                    },
                    _ => Err(CompileError::UnableDecodeAttributes),
                }
            },
            _ => Err(CompileError::UnableDecodeAttributes),
        }
    }
}

} // verus!
