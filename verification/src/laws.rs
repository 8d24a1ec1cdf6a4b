use vstd::prelude::*;

use crate::typescript::{
    build_types_text, decls_text, fn_text, fns_imports, group_text, import_block, joined, members,
    ts_text, FnType, ImportName, ImportSet, TypeSig,
};

verus! {

/// Rendering is deterministic: the generated text is a function of the
/// display name and the two function lists alone, so rendering the same
/// analyzed interface twice yields byte-identical output — import order,
/// section order and union-member order included.
pub proof fn lemma_render_deterministic(
    name1: Seq<char>,
    ro1: Seq<(String, FnType)>,
    pb1: Seq<(String, FnType)>,
    name2: Seq<char>,
    ro2: Seq<(String, FnType)>,
    pb2: Seq<(String, FnType)>,
)
    requires
        name1 == name2,
        ro1 == ro2,
        pb1 == pb2,
    ensures
        build_types_text(name1, ro1, pb1) == build_types_text(name2, ro2, pb2),
{
}

/// Type rendering is total: every shape yields a non-empty expression, and
/// the shapes the host bindings cannot express yield their defined
/// placeholders rather than an empty or broken fragment.
pub proof fn lemma_type_rendering_total(t: TypeSig)
    ensures
        t is Callable ==> ts_text(t) == "unknown"@,
        t is TraitReference ==> ts_text(t) == "unknown"@,
        t is ListUnion ==> ts_text(t) == "unknown[]"@,
        t is NoType ==> ts_text(t) == "never"@,
        ts_text(t).len() > 0,
{
    reveal_strlit("BooleanCV");
    reveal_strlit("IntCV");
    reveal_strlit("UIntCV");
    reveal_strlit("PrincipalCV");
    reveal_strlit("OptionalCV<");
    reveal_strlit("ResponseOkCV<");
    reveal_strlit("StringAsciiCV");
    reveal_strlit("StringUtf8CV");
    reveal_strlit("BufferCV");
    reveal_strlit("ListCV<");
    reveal_strlit("TupleCV<{ ");
    reveal_strlit("unknown");
    reveal_strlit("unknown[]");
    reveal_strlit("never");
}

/// The import statement's layout depends only on how many imports are
/// required: none yields no statement, one through eight yield a single line,
/// and more than eight yield a line per name.
pub proof fn lemma_import_layout(s: ImportSet)
    ensures
        s.list().len() == 0 ==> import_block(s) == Seq::<char>::empty(),
        1 <= s.list().len() <= 8 ==> import_block(s) == "import { "@ + joined(s.list(), ", "@)
            + " } from \"@stacks/transactions\"\n\n"@,
        s.list().len() > 8 ==> import_block(s) == "import {\n\t"@ + joined(s.list(), ",\n\t"@)
            + ",\n} from \"@stacks/transactions\"\n\n"@,
{
}

/// Membership in a concatenation is membership in either part.
proof fn lemma_concat_contains(a: Seq<Seq<char>>, b: Seq<Seq<char>>, x: Seq<char>)
    ensures
        (a + b).contains(x) <==> a.contains(x) || b.contains(x),
{
    if a.contains(x) {
        let i = choose|i: int| 0 <= i < a.len() && a[i] == x;
        assert((a + b)[i] == x);
    }
    if b.contains(x) {
        let i = choose|i: int| 0 <= i < b.len() && b[i] == x;
        assert((a + b)[a.len() + i] == x);
    }
    if (a + b).contains(x) {
        let i = choose|i: int| 0 <= i < (a + b).len() && (a + b)[i] == x;
        if i < a.len() {
            assert(a[i] == x);
        } else {
            assert(b[i - a.len()] == x);
        }
    }
}

/// Membership in one conditional segment of the import list.
proof fn lemma_segment_contains(flag: bool, name: Seq<char>, x: Seq<char>)
    ensures
        ((if flag {
            seq![name]
        } else {
            Seq::<Seq<char>>::empty()
        }).contains(x)) <==> (flag && x == name),
{
    let t: Seq<Seq<char>> = if flag {
        seq![name]
    } else {
        Seq::empty()
    };
    if flag {
        assert(t[0] == name);
    }
}

/// Membership in the emitted import list, name by name.
proof fn lemma_list_membership(s: ImportSet, x: Seq<char>)
    ensures
        s.list().contains(x) <==> {
            ||| (s.boolean_cv && x == "BooleanCV"@)
            ||| (s.buffer_cv && x == "BufferCV"@)
            ||| (s.int_cv && x == "IntCV"@)
            ||| (s.list_cv && x == "ListCV"@)
            ||| (s.optional_cv && x == "OptionalCV"@)
            ||| (s.principal_cv && x == "PrincipalCV"@)
            ||| (s.response_error_cv && x == "ResponseErrorCV"@)
            ||| (s.response_ok_cv && x == "ResponseOkCV"@)
            ||| (s.string_ascii_cv && x == "StringAsciiCV"@)
            ||| (s.string_utf8_cv && x == "StringUtf8CV"@)
            ||| (s.tuple_cv && x == "TupleCV"@)
            ||| (s.uint_cv && x == "UIntCV"@)
        },
{
    let t1: Seq<Seq<char>> = if s.boolean_cv {
        seq!["BooleanCV"@]
    } else {
        Seq::empty()
    };
    let t2: Seq<Seq<char>> = if s.buffer_cv {
        seq!["BufferCV"@]
    } else {
        Seq::empty()
    };
    let t3: Seq<Seq<char>> = if s.int_cv {
        seq!["IntCV"@]
    } else {
        Seq::empty()
    };
    let t4: Seq<Seq<char>> = if s.list_cv {
        seq!["ListCV"@]
    } else {
        Seq::empty()
    };
    let t5: Seq<Seq<char>> = if s.optional_cv {
        seq!["OptionalCV"@]
    } else {
        Seq::empty()
    };
    let t6: Seq<Seq<char>> = if s.principal_cv {
        seq!["PrincipalCV"@]
    } else {
        Seq::empty()
    };
    let t7: Seq<Seq<char>> = if s.response_error_cv {
        seq!["ResponseErrorCV"@]
    } else {
        Seq::empty()
    };
    let t8: Seq<Seq<char>> = if s.response_ok_cv {
        seq!["ResponseOkCV"@]
    } else {
        Seq::empty()
    };
    let t9: Seq<Seq<char>> = if s.string_ascii_cv {
        seq!["StringAsciiCV"@]
    } else {
        Seq::empty()
    };
    let t10: Seq<Seq<char>> = if s.string_utf8_cv {
        seq!["StringUtf8CV"@]
    } else {
        Seq::empty()
    };
    let t11: Seq<Seq<char>> = if s.tuple_cv {
        seq!["TupleCV"@]
    } else {
        Seq::empty()
    };
    let t12: Seq<Seq<char>> = if s.uint_cv {
        seq!["UIntCV"@]
    } else {
        Seq::empty()
    };
    lemma_segment_contains(s.boolean_cv, "BooleanCV"@, x);
    lemma_segment_contains(s.buffer_cv, "BufferCV"@, x);
    lemma_segment_contains(s.int_cv, "IntCV"@, x);
    lemma_segment_contains(s.list_cv, "ListCV"@, x);
    lemma_segment_contains(s.optional_cv, "OptionalCV"@, x);
    lemma_segment_contains(s.principal_cv, "PrincipalCV"@, x);
    lemma_segment_contains(s.response_error_cv, "ResponseErrorCV"@, x);
    lemma_segment_contains(s.response_ok_cv, "ResponseOkCV"@, x);
    lemma_segment_contains(s.string_ascii_cv, "StringAsciiCV"@, x);
    lemma_segment_contains(s.string_utf8_cv, "StringUtf8CV"@, x);
    lemma_segment_contains(s.tuple_cv, "TupleCV"@, x);
    lemma_segment_contains(s.uint_cv, "UIntCV"@, x);
    lemma_concat_contains(t1, t2, x);
    lemma_concat_contains(t1 + t2, t3, x);
    lemma_concat_contains(t1 + t2 + t3, t4, x);
    lemma_concat_contains(t1 + t2 + t3 + t4, t5, x);
    lemma_concat_contains(t1 + t2 + t3 + t4 + t5, t6, x);
    lemma_concat_contains(t1 + t2 + t3 + t4 + t5 + t6, t7, x);
    lemma_concat_contains(t1 + t2 + t3 + t4 + t5 + t6 + t7, t8, x);
    lemma_concat_contains(t1 + t2 + t3 + t4 + t5 + t6 + t7 + t8, t9, x);
    lemma_concat_contains(t1 + t2 + t3 + t4 + t5 + t6 + t7 + t8 + t9, t10, x);
    lemma_concat_contains(t1 + t2 + t3 + t4 + t5 + t6 + t7 + t8 + t9 + t10, t11, x);
    lemma_concat_contains(t1 + t2 + t3 + t4 + t5 + t6 + t7 + t8 + t9 + t10 + t11, t12, x);
}

/// The emitted import list is exact: it holds a name exactly when some
/// rendered type required it — no unused import and no missing one.
pub proof fn lemma_import_list_exact(s: ImportSet)
    ensures
        forall|n: ImportName| #[trigger] s.has(n) ==> s.list().contains(
            crate::typescript::import_text(n),
        ),
        forall|n: ImportName| s.list().contains(#[trigger] crate::typescript::import_text(n))
            ==> s.has(n),
{
    assert forall|n: ImportName| #[trigger] s.has(n) implies s.list().contains(
        crate::typescript::import_text(n),
    ) by {
        lemma_list_membership(s, crate::typescript::import_text(n));
    }
    assert forall|n: ImportName| s.list().contains(
        #[trigger] crate::typescript::import_text(n),
    ) implies s.has(n) by {
        reveal_strlit("BooleanCV");
        reveal_strlit("BufferCV");
        reveal_strlit("IntCV");
        reveal_strlit("ListCV");
        reveal_strlit("OptionalCV");
        reveal_strlit("PrincipalCV");
        reveal_strlit("ResponseErrorCV");
        reveal_strlit("ResponseOkCV");
        reveal_strlit("StringAsciiCV");
        reveal_strlit("StringUtf8CV");
        reveal_strlit("TupleCV");
        reveal_strlit("UIntCV");
        lemma_list_membership(s, crate::typescript::import_text(n));
        assert("BooleanCV"@.len() == 9);
        assert("BufferCV"@.len() == 8);
        assert("IntCV"@.len() == 5);
        assert("ListCV"@.len() == 6);
        assert("OptionalCV"@.len() == 10);
        assert("PrincipalCV"@.len() == 11);
        assert("ResponseErrorCV"@.len() == 15);
        assert("ResponseOkCV"@.len() == 12);
        assert("StringAsciiCV"@.len() == 13);
        assert("StringUtf8CV"@.len() == 12);
        assert("TupleCV"@.len() == 7);
        assert("UIntCV"@.len() == 6);
        assert("ResponseOkCV"@[0] == 'R');
        assert("StringUtf8CV"@[0] == 'S');
        assert("ListCV"@[0] == 'L');
        assert("UIntCV"@[0] == 'U');
        match n {
            ImportName::BooleanCV => assert(s.boolean_cv),
            ImportName::BufferCV => assert(s.buffer_cv),
            ImportName::IntCV => assert(s.int_cv),
            ImportName::ListCV => assert(s.list_cv),
            ImportName::OptionalCV => assert(s.optional_cv),
            ImportName::PrincipalCV => assert(s.principal_cv),
            ImportName::ResponseErrorCV => assert(s.response_error_cv),
            ImportName::ResponseOkCV => assert(s.response_ok_cv),
            ImportName::StringAsciiCV => assert(s.string_ascii_cv),
            ImportName::StringUtf8CV => assert(s.string_utf8_cv),
            ImportName::TupleCV => assert(s.tuple_cv),
            ImportName::UIntCV => assert(s.uint_cv),
        }
    }
}

/// A contract exposing no functions at all renders no import statement and no
/// function group: the whole output is the union declaration naming the
/// bottom type.
pub proof fn lemma_render_no_functions(name: Seq<char>)
    ensures
        build_types_text(name, Seq::empty(), Seq::empty()) == "// contract type\nexport type "@
            + name + "Contract = never\n"@,
{
    let e = Seq::<(String, FnType)>::empty();
    assert(fns_imports(e, 0) == ImportSet::none());
    assert(ImportSet::none().union(ImportSet::none()) == ImportSet::none());
    assert(ImportSet::none().list() =~= Seq::<Seq<char>>::empty());
    assert(import_block(ImportSet::none()) =~= Seq::<char>::empty());
    assert(decls_text(e) =~= Seq::<char>::empty());
    assert(members(e, 0) =~= Seq::<Seq<char>>::empty());
    assert(members(e, 0) + members(e, 0) =~= Seq::<Seq<char>>::empty());
    reveal_strlit("// contract type\nexport type ");
    reveal_strlit("Contract = ");
    reveal_strlit("never");
    reveal_strlit("\n");
    reveal_strlit("// contract type\nexport type ");
    reveal_strlit("Contract = never\n");
    assert(build_types_text(name, e, e) =~= "// contract type\nexport type "@ + name
        + "Contract = never\n"@);
}

/// A list of functions of which none has the fixed shape contributes no union
/// member, so the union falls back to the bottom type.
pub proof fn lemma_members_empty_when_unsupported(fns: Seq<(String, FnType)>, i: int)
    requires
        forall|j: int| 0 <= j < fns.len() ==> fns[j].1 is Unsupported,
    ensures
        members(fns, i) == Seq::<Seq<char>>::empty(),
    decreases fns.len() - i,
{
    if 0 <= i < fns.len() {
        lemma_members_empty_when_unsupported(fns, i + 1);
        assert(members(fns, i) =~= Seq::<Seq<char>>::empty());
    }
}

/// A list of empty texts filters down to nothing.
proof fn lemma_filter_all_empty(m: Seq<Seq<char>>)
    requires
        forall|j: int| 0 <= j < m.len() ==> #[trigger] m[j].len() == 0,
    ensures
        m.filter(|t: Seq<char>| t.len() > 0) == Seq::<Seq<char>>::empty(),
    decreases m.len(),
{
    reveal_with_fuel(Seq::<Seq<char>>::filter, 2);
    if m.len() > 0 {
        lemma_filter_all_empty(m.drop_last());
        assert(m.last().len() == 0);
        assert(m.filter(|t: Seq<char>| t.len() > 0) == m.drop_last().filter(
            |t: Seq<char>| t.len() > 0,
        ));
    } else {
        assert(m.filter(|t: Seq<char>| t.len() > 0) =~= Seq::<Seq<char>>::empty());
    }
}

/// A group in which no function renders leaves no text at all: no empty
/// lines, no group header — the output then holds only the union declaration.
pub proof fn lemma_group_empty_when_unsupported(fns: Seq<(String, FnType)>)
    requires
        forall|j: int| 0 <= j < fns.len() ==> fns[j].1 is Unsupported,
    ensures
        decls_text(fns) == Seq::<char>::empty(),
        group_text("// readonly functions\n"@, decls_text(fns)) == Seq::<char>::empty(),
        group_text("// public functions\n"@, decls_text(fns)) == Seq::<char>::empty(),
{
    let m = fns.map_values(|p: (String, FnType)| fn_text(p.0@, p.1));
    assert forall|j: int| 0 <= j < m.len() implies #[trigger] m[j].len() == 0 by {
        assert(fns[j].1 is Unsupported);
        assert(m[j] == fn_text(fns[j].0@, fns[j].1));
    }
    lemma_filter_all_empty(m);
}

} // verus!
