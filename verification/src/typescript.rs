use vstd::prelude::*;
use vstd::string::*;

use crate::utils::{pascal_of, to_pascal_case, to_underscored, underscored};

verus! {

broadcast use vstd::std_specs::vec::axiom_vec_index_decreases;

/// The closed set of value-type shapes of the contract language, as far as the
/// generated declarations read them. Lengths carried by strings, buffers and
/// lists do not take part in rendering and are not held here.
pub enum TypeSig {
    Bool,
    Int,
    UInt,
    Principal,
    Optional(Box<TypeSig>),
    Response(Box<TypeSig>, Box<TypeSig>),
    StringAscii,
    StringUtf8,
    Buffer,
    List(Box<TypeSig>),
    Tuple(Vec<TupleField>),
    Callable,
    TraitReference,
    ListUnion,
    NoType,
}

/// One named field of a tuple type, in the stored field order.
pub struct TupleField {
    pub name: String,
    pub sig: TypeSig,
}

/// A function's type as the analyzer exposes it: only the fixed-arity shape
/// renders; every other shape is kept but contributes nothing.
pub enum FnType {
    Fixed { args: Vec<FnArg>, ret: TypeSig },
    Unsupported,
}

/// One named argument of a fixed-arity function.
pub struct FnArg {
    pub name: String,
    pub sig: TypeSig,
}

/// The named imports that rendered declarations may require, one flag each.
/// The declaration order below is the lexicographic order of the names, which
/// fixes the order of the emitted import statement.
#[derive(Clone, Copy)]
pub struct ImportSet {
    pub boolean_cv: bool,
    pub buffer_cv: bool,
    pub int_cv: bool,
    pub list_cv: bool,
    pub optional_cv: bool,
    pub principal_cv: bool,
    pub response_error_cv: bool,
    pub response_ok_cv: bool,
    pub string_ascii_cv: bool,
    pub string_utf8_cv: bool,
    pub tuple_cv: bool,
    pub uint_cv: bool,
}

/// One importable name.
#[derive(Clone, Copy, PartialEq, Eq, Structural)]
pub enum ImportName {
    BooleanCV,
    BufferCV,
    IntCV,
    ListCV,
    OptionalCV,
    PrincipalCV,
    ResponseErrorCV,
    ResponseOkCV,
    StringAsciiCV,
    StringUtf8CV,
    TupleCV,
    UIntCV,
}

/// The text of one importable name.
pub open spec fn import_text(n: ImportName) -> Seq<char> {
    match n {
        ImportName::BooleanCV => "BooleanCV"@,
        ImportName::BufferCV => "BufferCV"@,
        ImportName::IntCV => "IntCV"@,
        ImportName::ListCV => "ListCV"@,
        ImportName::OptionalCV => "OptionalCV"@,
        ImportName::PrincipalCV => "PrincipalCV"@,
        ImportName::ResponseErrorCV => "ResponseErrorCV"@,
        ImportName::ResponseOkCV => "ResponseOkCV"@,
        ImportName::StringAsciiCV => "StringAsciiCV"@,
        ImportName::StringUtf8CV => "StringUtf8CV"@,
        ImportName::TupleCV => "TupleCV"@,
        ImportName::UIntCV => "UIntCV"@,
    }
}

impl ImportSet {
    /// The set with no import required.
    pub open spec fn none() -> ImportSet {
        ImportSet {
            boolean_cv: false,
            buffer_cv: false,
            int_cv: false,
            list_cv: false,
            optional_cv: false,
            principal_cv: false,
            response_error_cv: false,
            response_ok_cv: false,
            string_ascii_cv: false,
            string_utf8_cv: false,
            tuple_cv: false,
            uint_cv: false,
        }
    }

    /// The set requiring exactly the one name `n`.
    pub open spec fn just(n: ImportName) -> ImportSet {
        match n {
            ImportName::BooleanCV => ImportSet { boolean_cv: true, ..ImportSet::none() },
            ImportName::BufferCV => ImportSet { buffer_cv: true, ..ImportSet::none() },
            ImportName::IntCV => ImportSet { int_cv: true, ..ImportSet::none() },
            ImportName::ListCV => ImportSet { list_cv: true, ..ImportSet::none() },
            ImportName::OptionalCV => ImportSet { optional_cv: true, ..ImportSet::none() },
            ImportName::PrincipalCV => ImportSet { principal_cv: true, ..ImportSet::none() },
            ImportName::ResponseErrorCV => ImportSet {
                response_error_cv: true,
                ..ImportSet::none()
            },
            ImportName::ResponseOkCV => ImportSet { response_ok_cv: true, ..ImportSet::none() },
            ImportName::StringAsciiCV => ImportSet { string_ascii_cv: true, ..ImportSet::none() },
            ImportName::StringUtf8CV => ImportSet { string_utf8_cv: true, ..ImportSet::none() },
            ImportName::TupleCV => ImportSet { tuple_cv: true, ..ImportSet::none() },
            ImportName::UIntCV => ImportSet { uint_cv: true, ..ImportSet::none() },
        }
    }

    /// Field-wise union: a name is required when either side requires it.
    pub open spec fn union(self, o: ImportSet) -> ImportSet {
        ImportSet {
            boolean_cv: self.boolean_cv || o.boolean_cv,
            buffer_cv: self.buffer_cv || o.buffer_cv,
            int_cv: self.int_cv || o.int_cv,
            list_cv: self.list_cv || o.list_cv,
            optional_cv: self.optional_cv || o.optional_cv,
            principal_cv: self.principal_cv || o.principal_cv,
            response_error_cv: self.response_error_cv || o.response_error_cv,
            response_ok_cv: self.response_ok_cv || o.response_ok_cv,
            string_ascii_cv: self.string_ascii_cv || o.string_ascii_cv,
            string_utf8_cv: self.string_utf8_cv || o.string_utf8_cv,
            tuple_cv: self.tuple_cv || o.tuple_cv,
            uint_cv: self.uint_cv || o.uint_cv,
        }
    }

    /// Whether the name `n` is required.
    pub open spec fn has(self, n: ImportName) -> bool {
        match n {
            ImportName::BooleanCV => self.boolean_cv,
            ImportName::BufferCV => self.buffer_cv,
            ImportName::IntCV => self.int_cv,
            ImportName::ListCV => self.list_cv,
            ImportName::OptionalCV => self.optional_cv,
            ImportName::PrincipalCV => self.principal_cv,
            ImportName::ResponseErrorCV => self.response_error_cv,
            ImportName::ResponseOkCV => self.response_ok_cv,
            ImportName::StringAsciiCV => self.string_ascii_cv,
            ImportName::StringUtf8CV => self.string_utf8_cv,
            ImportName::TupleCV => self.tuple_cv,
            ImportName::UIntCV => self.uint_cv,
        }
    }

    /// The required names as a set of their texts.
    pub open spec fn names(self) -> Set<Seq<char>> {
        Set::new(|t: Seq<char>| exists|n: ImportName| self.has(n) && t == import_text(n))
    }

    /// The required names, each once, in the lexicographic order of the texts.
    pub open spec fn list(self) -> Seq<Seq<char>> {
        (if self.boolean_cv {
            seq!["BooleanCV"@]
        } else {
            Seq::empty()
        }) + (if self.buffer_cv {
            seq!["BufferCV"@]
        } else {
            Seq::empty()
        }) + (if self.int_cv {
            seq!["IntCV"@]
        } else {
            Seq::empty()
        }) + (if self.list_cv {
            seq!["ListCV"@]
        } else {
            Seq::empty()
        }) + (if self.optional_cv {
            seq!["OptionalCV"@]
        } else {
            Seq::empty()
        }) + (if self.principal_cv {
            seq!["PrincipalCV"@]
        } else {
            Seq::empty()
        }) + (if self.response_error_cv {
            seq!["ResponseErrorCV"@]
        } else {
            Seq::empty()
        }) + (if self.response_ok_cv {
            seq!["ResponseOkCV"@]
        } else {
            Seq::empty()
        }) + (if self.string_ascii_cv {
            seq!["StringAsciiCV"@]
        } else {
            Seq::empty()
        }) + (if self.string_utf8_cv {
            seq!["StringUtf8CV"@]
        } else {
            Seq::empty()
        }) + (if self.tuple_cv {
            seq!["TupleCV"@]
        } else {
            Seq::empty()
        }) + (if self.uint_cv {
            seq!["UIntCV"@]
        } else {
            Seq::empty()
        })
    }
}

/// The accumulator a rendering pass writes into: the declaration names made so
/// far, in order, and the imports they require.
pub struct Reporter {
    pub fn_names: Vec<String>,
    pub imports: ImportSet,
}

/// The texts of a sequence of names.
pub open spec fn texts_of(v: Seq<String>) -> Seq<Seq<char>> {
    v.map_values(|s: String| s@)
}

impl Reporter {
    /// A fresh accumulator: no declarations, no imports.
    pub fn new() -> (r: Reporter)
        ensures
            r.fn_names@.len() == 0,
            r.imports == ImportSet::none(),
    {
        Reporter {
            fn_names: Vec::new(),
            imports: ImportSet {
                boolean_cv: false,
                buffer_cv: false,
                int_cv: false,
                list_cv: false,
                optional_cv: false,
                principal_cv: false,
                response_error_cv: false,
                response_ok_cv: false,
                string_ascii_cv: false,
                string_utf8_cv: false,
                tuple_cv: false,
                uint_cv: false,
            },
        }
    }

    /// Records one generated declaration name.
    pub fn add_fn(&mut self, name: String)
        ensures
            final(self).fn_names@ == old(self).fn_names@.push(name),
            final(self).imports == old(self).imports,
    {
        self.fn_names.push(name);
    }

    /// Records that the declarations need the import `n`.
    pub fn add_import(&mut self, n: ImportName)
        ensures
            final(self).imports == old(self).imports.union(ImportSet::just(n)),
            final(self).fn_names@ == old(self).fn_names@,
    {
        match n {
            ImportName::BooleanCV => self.imports.boolean_cv = true,
            ImportName::BufferCV => self.imports.buffer_cv = true,
            ImportName::IntCV => self.imports.int_cv = true,
            ImportName::ListCV => self.imports.list_cv = true,
            ImportName::OptionalCV => self.imports.optional_cv = true,
            ImportName::PrincipalCV => self.imports.principal_cv = true,
            ImportName::ResponseErrorCV => self.imports.response_error_cv = true,
            ImportName::ResponseOkCV => self.imports.response_ok_cv = true,
            ImportName::StringAsciiCV => self.imports.string_ascii_cv = true,
            ImportName::StringUtf8CV => self.imports.string_utf8_cv = true,
            ImportName::TupleCV => self.imports.tuple_cv = true,
            ImportName::UIntCV => self.imports.uint_cv = true,
        }
    }
}

/// The host-language type expression for `t`. Composite shapes recurse into
/// their parts; shapes the host bindings cannot express render to a
/// placeholder, and the empty type renders to the bottom type literal.
pub open spec fn ts_text(t: TypeSig) -> Seq<char>
    decreases t, 0int,
{
    match t {
        TypeSig::Bool => "BooleanCV"@,
        TypeSig::Int => "IntCV"@,
        TypeSig::UInt => "UIntCV"@,
        TypeSig::Principal => "PrincipalCV"@,
        TypeSig::Optional(inner) => "OptionalCV<"@ + ts_text(*inner) + ">"@,
        TypeSig::Response(ok, err) => "ResponseOkCV<"@ + ts_text(*ok) + "> | ResponseErrorCV<"@
            + ts_text(*err) + ">"@,
        TypeSig::StringAscii => "StringAsciiCV"@,
        TypeSig::StringUtf8 => "StringUtf8CV"@,
        TypeSig::Buffer => "BufferCV"@,
        TypeSig::List(inner) => "ListCV<"@ + ts_text(*inner) + ">"@,
        TypeSig::Tuple(fields) => "TupleCV<{ "@ + fields_text(fields, 0) + " }>"@,
        TypeSig::Callable => "unknown"@,
        TypeSig::TraitReference => "unknown"@,
        TypeSig::ListUnion => "unknown[]"@,
        TypeSig::NoType => "never"@,
    }
}

/// The tuple members from index `i` on, each `name: type`, separated by `, `.
pub open spec fn fields_text(fs: Vec<TupleField>, i: int) -> Seq<char>
    decreases fs, fs.len() - i,
{
    if i < 0 || i >= fs.len() {
        Seq::empty()
    } else if i == fs.len() - 1 {
        fs[i].name@ + ": "@ + ts_text(fs[i].sig)
    } else {
        fs[i].name@ + ": "@ + ts_text(fs[i].sig) + ", "@ + fields_text(fs, i + 1)
    }
}

/// The imports that the type expression for `t` requires, transitively.
pub open spec fn ts_imports(t: TypeSig) -> ImportSet
    decreases t, 0int,
{
    match t {
        TypeSig::Bool => ImportSet::just(ImportName::BooleanCV),
        TypeSig::Int => ImportSet::just(ImportName::IntCV),
        TypeSig::UInt => ImportSet::just(ImportName::UIntCV),
        TypeSig::Principal => ImportSet::just(ImportName::PrincipalCV),
        TypeSig::Optional(inner) => ImportSet::just(ImportName::OptionalCV).union(
            ts_imports(*inner),
        ),
        TypeSig::Response(ok, err) => ImportSet::just(ImportName::ResponseOkCV).union(
            ImportSet::just(ImportName::ResponseErrorCV),
        ).union(ts_imports(*ok)).union(ts_imports(*err)),
        TypeSig::StringAscii => ImportSet::just(ImportName::StringAsciiCV),
        TypeSig::StringUtf8 => ImportSet::just(ImportName::StringUtf8CV),
        TypeSig::Buffer => ImportSet::just(ImportName::BufferCV),
        TypeSig::List(inner) => ImportSet::just(ImportName::ListCV).union(ts_imports(*inner)),
        TypeSig::Tuple(fields) => ImportSet::just(ImportName::TupleCV).union(
            fields_imports(fields, 0),
        ),
        TypeSig::Callable => ImportSet::none(),
        TypeSig::TraitReference => ImportSet::none(),
        TypeSig::ListUnion => ImportSet::none(),
        TypeSig::NoType => ImportSet::none(),
    }
}

/// The imports required by the tuple members from index `i` on.
pub open spec fn fields_imports(fs: Vec<TupleField>, i: int) -> ImportSet
    decreases fs, fs.len() - i,
{
    if i < 0 || i >= fs.len() {
        ImportSet::none()
    } else {
        ts_imports(fs[i].sig).union(fields_imports(fs, i + 1))
    }
}

proof fn lemma_union_none(a: ImportSet)
    ensures
        a.union(ImportSet::none()) == a,
        ImportSet::none().union(a) == a,
{
}

proof fn lemma_union_assoc(a: ImportSet, b: ImportSet, c: ImportSet)
    ensures
        a.union(b).union(c) == a.union(b.union(c)),
{
}

/// Renders the members of a tuple type, `name: type` separated by `, `,
/// recording the imports the member types require.
#[verifier::rlimit(100)]
fn render_tuple_fields(fields: &Vec<TupleField>, reporter: &mut Reporter) -> (r: String)
    ensures
        r@ == fields_text(*fields, 0),
        final(reporter).imports == old(reporter).imports.union(fields_imports(*fields, 0)),
        final(reporter).fn_names@ == old(reporter).fn_names@,
    decreases *fields, 0int,
{
    let ghost orig = reporter.imports;
    let ghost orig_names = reporter.fn_names@;
    let mut r = String::new();
    let mut i: usize = 0;
    proof {
        assert(r@ + fields_text(*fields, 0) =~= fields_text(*fields, 0));
        lemma_union_none(orig);
    }
    while i < fields.len()
        invariant
            i <= fields.len(),
            r@ + fields_text(*fields, i as int) == fields_text(*fields, 0),
            reporter.imports.union(fields_imports(*fields, i as int)) == orig.union(
                fields_imports(*fields, 0),
            ),
            reporter.fn_names@ == orig_names,
        decreases fields.len() - i,
    {
        let ghost prev_r = r@;
        let ghost pre = reporter.imports;
        proof {
            vstd::std_specs::vec::axiom_vec_index_decreases(*fields, i as int);
            assert(decreases_to!(fields[i as int] => fields[i as int].sig));
        }
        let f = &fields[i];
        r.append(f.name.as_str());
        r.append(": ");
        let t = f.sig.into_ts_type(reporter);
        r.append(t.as_str());
        if i < fields.len() - 1 {
            r.append(", ");
        }
        proof {
            lemma_union_assoc(
                pre,
                ts_imports(fields[i as int].sig),
                fields_imports(*fields, i as int + 1),
            );
            if i + 1 < fields.len() {
                assert(r@ + fields_text(*fields, i as int + 1) =~= prev_r + fields_text(
                    *fields,
                    i as int,
                ));
            } else {
                assert(fields_text(*fields, i as int + 1) =~= Seq::<char>::empty());
                assert(r@ + fields_text(*fields, i as int + 1) =~= prev_r + fields_text(
                    *fields,
                    i as int,
                ));
            }
        }
        i = i + 1;
    }
    proof {
        assert(fields_text(*fields, fields.len() as int) =~= Seq::<char>::empty());
        assert(r@ + fields_text(*fields, fields.len() as int) =~= r@);
        lemma_union_none(reporter.imports);
    }
    r
}

impl TypeSig {
    /// Renders the host-language type expression for `self`, recording every
    /// import the expression requires. Total: every shape yields an
    /// expression.
    #[verifier::rlimit(100)]
    pub fn into_ts_type(&self, reporter: &mut Reporter) -> (r: String)
        ensures
            r@ == ts_text(*self),
            final(reporter).imports == old(reporter).imports.union(ts_imports(*self)),
            final(reporter).fn_names@ == old(reporter).fn_names@,
        decreases *self, 0int,
    {
        match self {
            TypeSig::Bool => {
                reporter.add_import(ImportName::BooleanCV);
                String::from_str("BooleanCV")
            },
            TypeSig::Int => {
                reporter.add_import(ImportName::IntCV);
                String::from_str("IntCV")
            },
            TypeSig::UInt => {
                reporter.add_import(ImportName::UIntCV);
                String::from_str("UIntCV")
            },
            TypeSig::Principal => {
                reporter.add_import(ImportName::PrincipalCV);
                String::from_str("PrincipalCV")
            },
            TypeSig::Optional(inner) => {
                reporter.add_import(ImportName::OptionalCV);
                let mut r = String::from_str("OptionalCV<");
                let t = inner.into_ts_type(reporter);
                r.append(t.as_str());
                r.append(">");
                proof {
                    lemma_union_assoc(
                        old(reporter).imports,
                        ImportSet::just(ImportName::OptionalCV),
                        ts_imports(**inner),
                    );
                }
                r
            },
            TypeSig::Response(ok, err) => {
                reporter.add_import(ImportName::ResponseOkCV);
                reporter.add_import(ImportName::ResponseErrorCV);
                let mut r = String::from_str("ResponseOkCV<");
                let t_ok = ok.into_ts_type(reporter);
                r.append(t_ok.as_str());
                r.append("> | ResponseErrorCV<");
                let t_err = err.into_ts_type(reporter);
                r.append(t_err.as_str());
                r.append(">");
                proof {
                    let o = old(reporter).imports;
                    let jok = ImportSet::just(ImportName::ResponseOkCV);
                    let jerr = ImportSet::just(ImportName::ResponseErrorCV);
                    let iok = ts_imports(**ok);
                    let ierr = ts_imports(**err);
                    lemma_union_assoc(o, jok, jerr);
                    lemma_union_assoc(o, jok.union(jerr), iok);
                    lemma_union_assoc(o, jok.union(jerr).union(iok), ierr);
                }
                r
            },
            TypeSig::StringAscii => {
                reporter.add_import(ImportName::StringAsciiCV);
                String::from_str("StringAsciiCV")
            },
            TypeSig::StringUtf8 => {
                reporter.add_import(ImportName::StringUtf8CV);
                String::from_str("StringUtf8CV")
            },
            TypeSig::Buffer => {
                reporter.add_import(ImportName::BufferCV);
                String::from_str("BufferCV")
            },
            TypeSig::List(inner) => {
                reporter.add_import(ImportName::ListCV);
                let mut r = String::from_str("ListCV<");
                let t = inner.into_ts_type(reporter);
                r.append(t.as_str());
                r.append(">");
                proof {
                    lemma_union_assoc(
                        old(reporter).imports,
                        ImportSet::just(ImportName::ListCV),
                        ts_imports(**inner),
                    );
                }
                r
            },
            TypeSig::Tuple(fields) => {
                let ghost orig = reporter.imports;
                reporter.add_import(ImportName::TupleCV);
                let mut r = String::from_str("TupleCV<{ ");
                let inner = render_tuple_fields(fields, reporter);
                r.append(inner.as_str());
                r.append(" }>");
                proof {
                    lemma_union_assoc(
                        orig,
                        ImportSet::just(ImportName::TupleCV),
                        fields_imports(*fields, 0),
                    );
                    assert(r@ =~= ts_text(*self));
                }
                r
            },
            TypeSig::Callable => {
                proof {
                    lemma_union_none(reporter.imports);
                }
                String::from_str("unknown")
            },
            TypeSig::TraitReference => {
                proof {
                    lemma_union_none(reporter.imports);
                }
                String::from_str("unknown")
            },
            TypeSig::ListUnion => {
                proof {
                    lemma_union_none(reporter.imports);
                }
                String::from_str("unknown[]")
            },
            TypeSig::NoType => {
                proof {
                    lemma_union_none(reporter.imports);
                }
                String::from_str("never")
            },
        }
    }
}

/// The pieces joined with `sep` standing between successive pieces.
pub open spec fn joined(parts: Seq<Seq<char>>, sep: Seq<char>) -> Seq<char>
    decreases parts.len(),
{
    if parts.len() == 0 {
        Seq::empty()
    } else if parts.len() == 1 {
        parts[0]
    } else {
        joined(parts.drop_last(), sep) + sep + parts.last()
    }
}

/// One argument as it stands in a declaration: hyphens in its name become
/// underscores, then its rendered type.
pub open spec fn arg_text(a: FnArg) -> Seq<char> {
    underscored(a.name@) + ": "@ + ts_text(a.sig)
}

/// The argument list of a declaration, separated by `, `.
pub open spec fn args_text(args: Seq<FnArg>) -> Seq<char> {
    joined(args.map_values(|a: FnArg| arg_text(a)), ", "@)
}

/// The imports required by the argument types from index `i` on.
pub open spec fn args_imports(args: Seq<FnArg>, i: int) -> ImportSet
    decreases args.len() - i,
{
    if i < 0 || i >= args.len() {
        ImportSet::none()
    } else {
        ts_imports(args[i].sig).union(args_imports(args, i + 1))
    }
}

/// The declaration one function yields: a fixed-arity function becomes one
/// exported type naming the function, its arguments and its return type; any
/// other shape yields nothing.
pub open spec fn fn_text(name: Seq<char>, t: FnType) -> Seq<char> {
    match t {
        FnType::Fixed { args, ret } => "export type "@ + pascal_of(name)
            + " = {\n    functionName: \""@ + name + "\",\n    functionArgs: ["@ + args_text(args@)
            + "],\n    functionReturn: "@ + ts_text(ret) + ",\n}\n"@,
        FnType::Unsupported => Seq::empty(),
    }
}

/// The imports one function's declaration requires.
pub open spec fn fn_imports(t: FnType) -> ImportSet {
    match t {
        FnType::Fixed { args, ret } => ts_imports(ret).union(args_imports(args@, 0)),
        FnType::Unsupported => ImportSet::none(),
    }
}

/// The union members one function contributes: its declaration name when it
/// renders, nothing otherwise.
pub open spec fn fn_members(name: Seq<char>, t: FnType) -> Seq<Seq<char>> {
    match t {
        FnType::Fixed { .. } => seq![pascal_of(name)],
        FnType::Unsupported => Seq::empty(),
    }
}

/// The declarations of a list of functions that render, in their given
/// order, joined with a newline between successive declarations; a function
/// that does not render contributes nothing, not even an empty line.
pub open spec fn decls_text(fns: Seq<(String, FnType)>) -> Seq<char> {
    joined(
        fns.map_values(|p: (String, FnType)| fn_text(p.0@, p.1)).filter(
            |t: Seq<char>| t.len() > 0,
        ),
        "\n"@,
    )
}

/// The imports required by the functions from index `i` on.
pub open spec fn fns_imports(fns: Seq<(String, FnType)>, i: int) -> ImportSet
    decreases fns.len() - i,
{
    if i < 0 || i >= fns.len() {
        ImportSet::none()
    } else {
        fn_imports(fns[i].1).union(fns_imports(fns, i + 1))
    }
}

/// The declaration names contributed by the functions from index `i` on.
pub open spec fn members(fns: Seq<(String, FnType)>, i: int) -> Seq<Seq<char>>
    decreases fns.len() - i,
{
    if i < 0 || i >= fns.len() {
        Seq::empty()
    } else {
        fn_members(fns[i].0@, fns[i].1) + members(fns, i + 1)
    }
}

impl FnType {
    /// Renders the declaration for one function, recording its imports and,
    /// when it renders, its declaration name.
    #[verifier::rlimit(100)]
    pub fn into_ts_type(&self, fn_name: &str, reporter: &mut Reporter) -> (r: String)
        ensures
            r@ == fn_text(fn_name@, *self),
            final(reporter).imports == old(reporter).imports.union(fn_imports(*self)),
            texts_of(final(reporter).fn_names@) == texts_of(old(reporter).fn_names@)
                + fn_members(fn_name@, *self),
    {
        match self {
            FnType::Fixed { args, ret } => {
                let ghost orig = reporter.imports;
                let ghost orig_names = reporter.fn_names@;
                let fn_type_name = to_pascal_case(fn_name);
                let ret = ret.into_ts_type(reporter);
                let mut argstr = String::new();
                let mut i: usize = 0;
                let ghost m = args@.map_values(|a: FnArg| arg_text(a));
                let ghost base = reporter.imports;
                proof {
                    assert(argstr@ =~= joined(m.take(0), ", "@));
                    lemma_union_none(base);
                }
                while i < args.len()
                    invariant
                        i <= args.len(),
                        m == args@.map_values(|a: FnArg| arg_text(a)),
                        m.len() == args@.len(),
                        argstr@ == joined(m.take(i as int), ", "@),
                        reporter.imports.union(args_imports(args@, i as int)) == base.union(
                            args_imports(args@, 0),
                        ),
                        reporter.fn_names@ == old(reporter).fn_names@,
                    decreases args.len() - i,
                {
                    if i != 0 {
                        argstr.append(", ");
                    }
                    let ghost pre = reporter.imports;
                    let a = &args[i];
                    let an = to_underscored(a.name.as_str());
                    argstr.append(an.as_str());
                    argstr.append(": ");
                    let at = a.sig.into_ts_type(reporter);
                    argstr.append(at.as_str());
                    proof {
                        lemma_union_assoc(
                            pre,
                            ts_imports(args[i as int].sig),
                            args_imports(args@, i as int + 1),
                        );
                        assert(m[i as int] == arg_text(args@[i as int]));
                        assert(m.take(i as int + 1).drop_last() =~= m.take(i as int));
                        assert(m.take(i as int + 1).last() == m[i as int]);
                        if i == 0 {
                            assert(argstr@ =~= joined(m.take(1), ", "@));
                        } else {
                            assert(argstr@ =~= joined(m.take(i as int), ", "@) + ", "@ + m[
                                i as int
                            ]);
                        }
                    }
                    i = i + 1;
                }
                proof {
                    assert(m.take(args@.len() as int) =~= m);
                    assert(args_imports(args@, args@.len() as int) == ImportSet::none());
                    lemma_union_none(reporter.imports);
                }
                reporter.add_fn(fn_type_name.clone());
                let mut r = String::from_str("export type ");
                r.append(fn_type_name.as_str());
                r.append(" = {\n    functionName: \"");
                r.append(fn_name);
                r.append("\",\n    functionArgs: [");
                r.append(argstr.as_str());
                r.append("],\n    functionReturn: ");
                r.append(ret.as_str());
                r.append(",\n}\n");
                proof {
                    assert(r@ =~= fn_text(fn_name@, *self));
                    assert(texts_of(reporter.fn_names@) =~= texts_of(orig_names)
                        + fn_members(fn_name@, *self));
                }
                r
            },
            FnType::Unsupported => {
                proof {
                    lemma_union_none(reporter.imports);
                    assert(texts_of(reporter.fn_names@) =~= texts_of(reporter.fn_names@)
                        + Seq::<Seq<char>>::empty());
                }
                String::new()
            },
        }
    }
}

/// Renders one labeled group of functions in their given order, joined with a
/// newline between successive contributions.
#[verifier::rlimit(100)]
fn render_group(fns: &Vec<(String, FnType)>, reporter: &mut Reporter) -> (r: String)
    ensures
        r@ == decls_text(fns@),
        final(reporter).imports == old(reporter).imports.union(fns_imports(fns@, 0)),
        texts_of(final(reporter).fn_names@) == texts_of(old(reporter).fn_names@) + members(
            fns@,
            0,
        ),
{
    let ghost orig = reporter.imports;
    let ghost orig_names = reporter.fn_names@;
    let ghost m = fns@.map_values(|p: (String, FnType)| fn_text(p.0@, p.1));
    let ghost keep = |t: Seq<char>| t.len() > 0;
    let mut r = String::new();
    let mut any: bool = false;
    let mut i: usize = 0;
    proof {
        reveal_with_fuel(Seq::<Seq<char>>::filter, 2);
        assert(m.take(0).filter(keep) =~= Seq::<Seq<char>>::empty());
        assert(r@ =~= joined(m.take(0).filter(keep), "\n"@));
        lemma_union_none(orig);
    }
    while i < fns.len()
        invariant
            i <= fns.len(),
            m == fns@.map_values(|p: (String, FnType)| fn_text(p.0@, p.1)),
            keep == (|t: Seq<char>| t.len() > 0),
            m.len() == fns@.len(),
            r@ == joined(m.take(i as int).filter(keep), "\n"@),
            any == (m.take(i as int).filter(keep).len() > 0),
            reporter.imports.union(fns_imports(fns@, i as int)) == orig.union(
                fns_imports(fns@, 0),
            ),
            texts_of(reporter.fn_names@) + members(fns@, i as int) == texts_of(orig_names)
                + members(fns@, 0),
        decreases fns.len() - i,
    {
        let ghost pre = reporter.imports;
        let ghost pre_names = reporter.fn_names@;
        let ghost prev = r@;
        let ghost f_pre = m.take(i as int).filter(keep);
        let p = &fns[i];
        let d = p.1.into_ts_type(p.0.as_str(), reporter);
        proof {
            reveal_with_fuel(Seq::<Seq<char>>::filter, 2);
            assert(m[i as int] == fn_text(fns@[i as int].0@, fns@[i as int].1));
            assert(m.take(i as int + 1).drop_last() =~= m.take(i as int));
            assert(m.take(i as int + 1).last() == m[i as int]);
            lemma_union_assoc(pre, fn_imports(fns@[i as int].1), fns_imports(fns@, i as int + 1));
            assert((texts_of(pre_names) + fn_members(fns@[i as int].0@, fns@[i as int].1))
                + members(fns@, i as int + 1) =~= texts_of(pre_names) + (fn_members(
                fns@[i as int].0@,
                fns@[i as int].1,
            ) + members(fns@, i as int + 1)));
        }
        if !d.as_str().is_empty() {
            if any {
                r.append("\n");
            }
            r.append(d.as_str());
            any = true;
            proof {
                reveal_with_fuel(Seq::<Seq<char>>::filter, 2);
                assert(m.take(i as int + 1).filter(keep) == f_pre.push(d@));
                if f_pre.len() == 0 {
                    assert(prev =~= Seq::<char>::empty());
                    assert(f_pre.push(d@).drop_last() =~= f_pre);
                    assert(r@ =~= joined(f_pre.push(d@), "\n"@));
                } else {
                    assert(f_pre.push(d@).drop_last() =~= f_pre);
                    assert(f_pre.push(d@).last() == d@);
                    assert(r@ =~= joined(f_pre, "\n"@) + "\n"@ + d@);
                }
            }
        } else {
            proof {
                reveal_with_fuel(Seq::<Seq<char>>::filter, 2);
                assert(m.take(i as int + 1).filter(keep) == f_pre);
            }
        }
        i = i + 1;
    }
    proof {
        assert(m.take(fns@.len() as int) =~= m);
        lemma_union_none(reporter.imports);
        assert(texts_of(reporter.fn_names@) + Seq::<Seq<char>>::empty() =~= texts_of(
            reporter.fn_names@,
        ));
    }
    r
}

/// Appends `name` to the list exactly when `flag` is set.
fn push_if(v: &mut Vec<String>, flag: bool, name: &str)
    ensures
        texts_of(final(v)@) == texts_of(old(v)@) + (if flag {
            seq![name@]
        } else {
            Seq::<Seq<char>>::empty()
        }),
{
    if flag {
        let owned = name.to_owned();
        v.push(owned);
        proof {
            assert(texts_of(v@) =~= texts_of(old(v)@) + seq![name@]);
        }
    } else {
        proof {
            assert(texts_of(v@) =~= texts_of(v@) + Seq::<Seq<char>>::empty());
        }
    }
}

/// The required import names as strings, in the order of `s.list()`.
#[verifier::rlimit(100)]
fn import_list(s: &ImportSet) -> (r: Vec<String>)
    ensures
        texts_of(r@) == s.list(),
{
    let mut v: Vec<String> = Vec::new();
    proof {
        assert(texts_of(v@) =~= Seq::<Seq<char>>::empty());
    }
    push_if(&mut v, s.boolean_cv, "BooleanCV");
    push_if(&mut v, s.buffer_cv, "BufferCV");
    push_if(&mut v, s.int_cv, "IntCV");
    push_if(&mut v, s.list_cv, "ListCV");
    push_if(&mut v, s.optional_cv, "OptionalCV");
    push_if(&mut v, s.principal_cv, "PrincipalCV");
    push_if(&mut v, s.response_error_cv, "ResponseErrorCV");
    push_if(&mut v, s.response_ok_cv, "ResponseOkCV");
    push_if(&mut v, s.string_ascii_cv, "StringAsciiCV");
    push_if(&mut v, s.string_utf8_cv, "StringUtf8CV");
    push_if(&mut v, s.tuple_cv, "TupleCV");
    push_if(&mut v, s.uint_cv, "UIntCV");
    proof {
        assert(texts_of(v@) =~= s.list());
    }
    v
}

/// Joins the given pieces with `sep` standing between successive pieces.
fn join_all(parts: &Vec<String>, sep: &str) -> (r: String)
    ensures
        r@ == joined(texts_of(parts@), sep@),
{
    let ghost m = texts_of(parts@);
    let mut r = String::new();
    let mut i: usize = 0;
    proof {
        assert(r@ =~= joined(m.take(0), sep@));
    }
    while i < parts.len()
        invariant
            i <= parts.len(),
            m == texts_of(parts@),
            m.len() == parts@.len(),
            r@ == joined(m.take(i as int), sep@),
        decreases parts.len() - i,
    {
        if i != 0 {
            r.append(sep);
        }
        r.append(parts[i].as_str());
        proof {
            assert(m[i as int] == parts@[i as int]@);
            assert(m.take(i as int + 1).drop_last() =~= m.take(i as int));
            assert(m.take(i as int + 1).last() == m[i as int]);
            if i == 0 {
                assert(r@ =~= joined(m.take(1), sep@));
            } else {
                assert(r@ =~= joined(m.take(i as int), sep@) + sep@ + m[i as int]);
            }
        }
        i = i + 1;
    }
    proof {
        assert(m.take(parts@.len() as int) =~= m);
    }
    r
}

/// The import statement for the required names: nothing when no import is
/// required, one line up to eight names, and a line per name above eight.
pub open spec fn import_block(s: ImportSet) -> Seq<char> {
    if s.list().len() == 0 {
        Seq::empty()
    } else if s.list().len() > 8 {
        "import {\n\t"@ + joined(s.list(), ",\n\t"@) + ",\n} from \"@stacks/transactions\"\n\n"@
    } else {
        "import { "@ + joined(s.list(), ", "@) + " } from \"@stacks/transactions\"\n\n"@
    }
}

/// A labeled group of declarations, or nothing when the group's text is empty.
pub open spec fn group_text(header: Seq<char>, body: Seq<char>) -> Seq<char> {
    if body.len() == 0 {
        Seq::empty()
    } else {
        header + body + "\n"@
    }
}

/// The closing union declaration: the `or` of every recorded declaration name,
/// or the bottom type when none rendered.
pub open spec fn union_line(name: Seq<char>, ms: Seq<Seq<char>>) -> Seq<char> {
    "// contract type\nexport type "@ + name + "Contract = "@ + (if ms.len() == 0 {
        "never"@
    } else {
        joined(ms, " | "@)
    }) + "\n"@
}

/// The whole generated text for one contract interface: the import statement,
/// the read-only group, the public group, and the closing union declaration.
pub open spec fn build_types_text(
    name: Seq<char>,
    ro: Seq<(String, FnType)>,
    pb: Seq<(String, FnType)>,
) -> Seq<char> {
    import_block(fns_imports(ro, 0).union(fns_imports(pb, 0))) + group_text(
        "// readonly functions\n"@,
        decls_text(ro),
    ) + group_text("// public functions\n"@, decls_text(pb)) + union_line(
        name,
        members(ro, 0) + members(pb, 0),
    )
}

/// Renders the import statement for the required names.
#[verifier::rlimit(100)]
fn render_imports(s: &ImportSet) -> (r: String)
    ensures
        r@ == import_block(*s),
{
    let names = import_list(s);
    proof {
        assert(texts_of(names@).len() == names@.len());
    }
    let mut out = String::new();
    if names.len() > 0 {
        if names.len() > 8 {
            out.append("import {\n\t");
            let j = join_all(&names, ",\n\t");
            out.append(j.as_str());
            out.append(",\n} from \"@stacks/transactions\"\n\n");
        } else {
            out.append("import { ");
            let j = join_all(&names, ", ");
            out.append(j.as_str());
            out.append(" } from \"@stacks/transactions\"\n\n");
        }
    }
    proof {
        assert(out@ =~= import_block(*s));
    }
    out
}

/// Renders the closing union declaration over the recorded names.
#[verifier::rlimit(100)]
fn render_union(name: &str, ms: &Vec<String>) -> (r: String)
    ensures
        r@ == union_line(name@, texts_of(ms@)),
{
    let mut out = String::from_str("// contract type\nexport type ");
    out.append(name);
    out.append("Contract = ");
    if ms.len() == 0 {
        out.append("never");
        proof {
            assert(texts_of(ms@).len() == 0);
            assert(out@ + "\n"@ =~= union_line(name@, texts_of(ms@)));
        }
    } else {
        let u = join_all(ms, " | ");
        out.append(u.as_str());
        proof {
            assert(texts_of(ms@).len() == ms@.len());
            assert(out@ + "\n"@ =~= union_line(name@, texts_of(ms@)));
        }
    }
    out.append("\n");
    out
}

/// Renders the typed binding declarations for a contract named `name` with the
/// given read-only and public functions, in their given order.
#[verifier::rlimit(100)]
pub fn build_types(
    name: &str,
    readonly_fns: &Vec<(String, FnType)>,
    public_fns: &Vec<(String, FnType)>,
) -> (r: String)
    ensures
        r@ == build_types_text(name@, readonly_fns@, public_fns@),
{
    let mut reporter = Reporter::new();
    let ro_txt = render_group(readonly_fns, &mut reporter);
    let pb_txt = render_group(public_fns, &mut reporter);
    let ghost imps = fns_imports(readonly_fns@, 0).union(fns_imports(public_fns@, 0));
    proof {
        lemma_union_none(fns_imports(readonly_fns@, 0));
        lemma_union_assoc(
            ImportSet::none(),
            fns_imports(readonly_fns@, 0),
            fns_imports(public_fns@, 0),
        );
        assert(reporter.imports == imps);
        assert(texts_of(reporter.fn_names@) =~= members(readonly_fns@, 0) + members(
            public_fns@,
            0,
        ));
    }
    let mut out = render_imports(&reporter.imports);
    let ghost out1 = out@;
    if !ro_txt.as_str().is_empty() {
        out.append("// readonly functions\n");
        out.append(ro_txt.as_str());
        out.append("\n");
    }
    proof {
        assert(out@ =~= out1 + group_text("// readonly functions\n"@, decls_text(readonly_fns@)));
    }
    let ghost out2 = out@;
    if !pb_txt.as_str().is_empty() {
        out.append("// public functions\n");
        out.append(pb_txt.as_str());
        out.append("\n");
    }
    proof {
        assert(out@ =~= out2 + group_text("// public functions\n"@, decls_text(public_fns@)));
    }
    let ghost out3 = out@;
    let u = render_union(name, &reporter.fn_names);
    out.append(u.as_str());
    proof {
        assert(out@ =~= build_types_text(name@, readonly_fns@, public_fns@));
    }
    out
}

} // verus!
