use vstd::prelude::*;
use vstd::string::*;

use clarity::vm::analysis::errors::CheckErrors;
use clarity::vm::analysis::{run_analysis, AnalysisDatabase, ContractAnalysis};
use clarity::vm::ast::{build_ast_with_diagnostics, ContractAST};
use clarity::vm::costs::LimitedCostTracker;
use clarity::vm::database::MemoryBackingStore;
use clarity::vm::diagnostic::Diagnostic;
use clarity::vm::types::{
    FunctionType, QualifiedContractIdentifier, SequenceSubtype, StringSubtype, TupleTypeSignature,
    TypeSignature,
};

use crate::errors::Error;
use crate::source::{lookup, Source};
use crate::typescript::{texts_of, FnArg, FnType, TupleField, TypeSig};

verus! {

/// The contract-language versions a unit can be analyzed under.
#[derive(Clone, Copy, PartialEq, Eq, Structural, Debug)]
pub enum ClarityVersion {
    Clarity1,
    Clarity2,
}

/// How one resolution step stands in the tree: the contract under analysis
/// itself, or a trait definition it declares. The role selects which failure
/// kind a failing unit reports, and nothing else.
#[derive(Clone, Copy, PartialEq, Eq, Structural)]
pub enum UnitRole {
    Contract,
    ImplementedTrait,
}

#[verifier::external_type_specification]
#[verifier::external_body]
pub struct ExQualifiedContractIdentifier(QualifiedContractIdentifier);

#[verifier::external_type_specification]
#[verifier::external_body]
pub struct ExLimitedCostTracker(LimitedCostTracker);

#[verifier::external_type_specification]
#[verifier::external_body]
pub struct ExContractAST(ContractAST);

#[verifier::external_type_specification]
#[verifier::external_body]
pub struct ExAnalysisDatabase<'a>(AnalysisDatabase<'a>);

#[verifier::external_type_specification]
#[verifier::external_body]
pub struct ExContractAnalysis(ContractAnalysis);

#[verifier::external_type_specification]
#[verifier::external_body]
pub struct ExTypeSignature(TypeSignature);

#[verifier::external_type_specification]
#[verifier::external_body]
pub struct ExFunctionType(FunctionType);

#[verifier::external_type_specification]
#[verifier::external_body]
pub struct ExSequenceSubtype(SequenceSubtype);

#[verifier::external_type_specification]
#[verifier::external_body]
pub struct ExTupleTypeSignature(TupleTypeSignature);

/// One declared trait dependency of a parsed unit: the contract identifier
/// value the analyzer reported, and that identifier's canonical text, which is
/// the key trait text is stored under.
pub struct TraitRef {
    pub identifier: QualifiedContractIdentifier,
    pub key: String,
}

/// Whether parsing `text` under `version` succeeds. With a free cost tracker
/// the success flag is a function of the text and version alone: no pass
/// depends on the parsing identifier or on iteration order for whether it
/// fails.
pub uninterp spec fn parse_ok(text: Seq<char>, version: ClarityVersion) -> bool;

/// The canonical text of a contract identifier.
pub uninterp spec fn qci_text(id: QualifiedContractIdentifier) -> Seq<char>;

/// The canonical texts of the contract identifiers of the traits that `text`
/// declares it implements when parsed under the identifier whose canonical
/// text is `under`: a sugared trait reference is qualified with that
/// identifier's issuer, so the key set depends on it. The analyzer reports
/// the traits as a set: no order is named here.
pub uninterp spec fn declared_traits(under: Seq<char>, text: Seq<char>, version: ClarityVersion) -> Set<
    Seq<char>,
>;

/// Whether a cost tracker is the free one, which tracks no budget.
pub uninterp spec fn tracker_is_free(t: LimitedCostTracker) -> bool;

/// Relies on `QualifiedContractIdentifier::transient`: the placeholder
/// identifier a unit is analyzed under when no deployed name exists.
#[verifier::external_body]
fn transient_identifier() -> QualifiedContractIdentifier {
    QualifiedContractIdentifier::transient()
}

/// Relies on `LimitedCostTracker::new_free`: the returned tracker is the free
/// variant, which enforces no cost budget.
#[verifier::external_body]
fn free_tracker() -> (r: LimitedCostTracker)
    ensures
        tracker_is_free(r),
{
    LimitedCostTracker::new_free()
}

/// Relies on `LimitedCostTracker`'s `Clone`: cloning the free tracker yields
/// the free tracker. Each trait resolution branch gets its own clone, so each
/// branch starts from an independent budget rather than drawing down a shared
/// one; with the free tracker both readings coincide.
#[verifier::external_body]
fn clone_tracker(t: &LimitedCostTracker) -> (r:
    LimitedCostTracker)
    ensures
        tracker_is_free(*t) ==> tracker_is_free(r),
{
    t.clone()
}

/// Relies on clarity's `build_ast_with_diagnostics`, run under the latest
/// epoch: it always returns an AST, the diagnostics gathered, and a success
/// flag; with a free cost tracker the flag is a function of the text and
/// version alone, and a failed parse always carries at least one diagnostic.
/// Also reads the returned AST's set of implemented traits, handing back each
/// trait's contract identifier and that identifier's canonical text; which
/// traits these are depends, for sugared references, on the issuer of the
/// identifier the unit is parsed under, so the set is named relative to that
/// identifier's text.
#[verifier::external_body]
fn build_unit_ast(
    identifier: &QualifiedContractIdentifier,
    text: &str,
    tracker: &mut LimitedCostTracker,
    version: ClarityVersion,
) -> (r: (ContractAST, Vec<String>, bool, Vec<TraitRef>))
    requires
        tracker_is_free(*old(tracker)),
    ensures
        tracker_is_free(*final(tracker)),
        r.2 == parse_ok(text@, version),
        !r.2 ==> r.1@.len() > 0,
        r.3@.map_values(|t: TraitRef| t.key@).to_set() == declared_traits(
            qci_text(*identifier),
            text@,
            version,
        ),
        forall|j: int|
            0 <= j < r.3@.len() ==> #[trigger] r.3@[j].key@ == qci_text(r.3@[j].identifier),
{
    let v = match version {
        ClarityVersion::Clarity1 => clarity::vm::ClarityVersion::Clarity1,
        ClarityVersion::Clarity2 => clarity::vm::ClarityVersion::Clarity2,
    };
    let epoch = clarity::types::StacksEpochId::latest();
    let (ast, diagnostics, success) =
        build_ast_with_diagnostics(identifier, text, tracker, v, epoch);
    let diags = diagnostics.iter().map(|d| d.to_string()).collect();
    let traits = ast.implemented_traits.iter().map(|t| TraitRef {
        identifier: t.contract_identifier.clone(),
        key: t.contract_identifier.to_string(),
    }).collect();
    (ast, diags, success, traits)
}

/// Relies on clarity's `run_analysis`, run under the latest epoch with the
/// persist flag set, so that the checked definition stays visible to later
/// units in the same database scope. The outcome depends on that shared
/// database's state, so nothing is promised of it beyond its shape: a failure
/// carries the analyzer's diagnostic text.
#[verifier::external_body]
fn run_unit_analysis(
    identifier: &QualifiedContractIdentifier,
    ast: &mut ContractAST,
    db: &mut AnalysisDatabase<'_>,
    tracker: LimitedCostTracker,
    version: ClarityVersion,
) -> Result<ContractAnalysis, String> {
    let v = match version {
        ClarityVersion::Clarity1 => clarity::vm::ClarityVersion::Clarity1,
        ClarityVersion::Clarity2 => clarity::vm::ClarityVersion::Clarity2,
    };
    let epoch = clarity::types::StacksEpochId::latest();
    run_analysis(identifier, &mut ast.expressions, db, true, tracker, epoch, v)
        .map_err(|(e, _)| Diagnostic::err(&e.err).to_string())
}

/// The keys of a trait map, in entry order.
pub open spec fn keys_of(entries: Seq<(String, String)>) -> Seq<Seq<char>> {
    entries.map_values(|e: (String, String)| e.0@)
}

/// The map keys that a visited set has not seen yet.
pub open spec fn unvisited_count(s: Seq<Seq<char>>, visited: Seq<Seq<char>>) -> int {
    s.filter(|x: Seq<char>| !visited.contains(x)).len() as int
}

/// Membership after a push is membership before it, or the pushed element.
proof fn lemma_push_contains(v: Seq<Seq<char>>, k: Seq<char>, x: Seq<char>)
    ensures
        v.push(k).contains(x) <==> (v.contains(x) || x == k),
{
    if v.contains(x) {
        let i = choose|i: int| 0 <= i < v.len() && v[i] == x;
        assert(v.push(k)[i] == x);
    }
    if x == k {
        assert(v.push(k)[v.len() as int] == x);
    }
    if v.push(k).contains(x) {
        let i = choose|i: int| 0 <= i < v.push(k).len() && v.push(k)[i] == x;
        if i < v.len() {
            assert(v[i] == x);
        }
    }
}

/// Growing the visited set never uncovers a key.
proof fn lemma_unvisited_le(s: Seq<Seq<char>>, v1: Seq<Seq<char>>, v2: Seq<Seq<char>>)
    requires
        forall|x: Seq<char>| v1.contains(x) ==> #[trigger] v2.contains(x),
    ensures
        unvisited_count(s, v2) <= unvisited_count(s, v1),
    decreases s.len(),
{
    reveal_with_fuel(Seq::<Seq<char>>::filter, 2);
    if s.len() > 0 {
        lemma_unvisited_le(s.drop_last(), v1, v2);
        assert(s.filter(|x: Seq<char>| !v1.contains(x)) == (if !v1.contains(s.last()) {
            s.drop_last().filter(|x: Seq<char>| !v1.contains(x)).push(s.last())
        } else {
            s.drop_last().filter(|x: Seq<char>| !v1.contains(x))
        }));
        assert(s.filter(|x: Seq<char>| !v2.contains(x)) == (if !v2.contains(s.last()) {
            s.drop_last().filter(|x: Seq<char>| !v2.contains(x)).push(s.last())
        } else {
            s.drop_last().filter(|x: Seq<char>| !v2.contains(x))
        }));
    } else {
        assert(s.filter(|x: Seq<char>| !v1.contains(x)).len() == 0);
        assert(s.filter(|x: Seq<char>| !v2.contains(x)).len() == 0);
    }
}

/// Visiting a key the map still holds unseen strictly shrinks what is left.
proof fn lemma_unvisited_push(s: Seq<Seq<char>>, v: Seq<Seq<char>>, k: Seq<char>)
    requires
        s.contains(k),
        !v.contains(k),
    ensures
        unvisited_count(s, v.push(k)) < unvisited_count(s, v),
    decreases s.len(),
{
    reveal_with_fuel(Seq::<Seq<char>>::filter, 2);
    assert forall|x: Seq<char>| v.contains(x) implies #[trigger] v.push(k).contains(x) by {
        lemma_push_contains(v, k, x);
    }
    lemma_push_contains(v, k, k);
    lemma_push_contains(v, k, s.last());
    let last = s.last();
    assert(s.filter(|x: Seq<char>| !v.contains(x)) == (if !v.contains(last) {
        s.drop_last().filter(|x: Seq<char>| !v.contains(x)).push(last)
    } else {
        s.drop_last().filter(|x: Seq<char>| !v.contains(x))
    }));
    assert(s.filter(|x: Seq<char>| !v.push(k).contains(x)) == (if !v.push(k).contains(last) {
        s.drop_last().filter(|x: Seq<char>| !v.push(k).contains(x)).push(last)
    } else {
        s.drop_last().filter(|x: Seq<char>| !v.push(k).contains(x))
    }));
    if last == k {
        lemma_unvisited_le(s.drop_last(), v, v.push(k));
    } else {
        let i = choose|i: int| 0 <= i < s.len() && s[i] == k;
        assert(s.drop_last()[i] == k);
        assert(s.drop_last().contains(k));
        lemma_unvisited_push(s.drop_last(), v, k);
    }
}

/// A key the lookup finds stands in the key list.
proof fn lemma_lookup_in_keys(entries: Seq<(String, String)>, k: Seq<char>)
    requires
        lookup(entries, k) is Some,
    ensures
        keys_of(entries).contains(k),
    decreases entries.len(),
{
    if entries.len() > 0 {
        if entries[0].0@ == k {
            assert(keys_of(entries)[0] == k);
        } else {
            lemma_lookup_in_keys(entries.skip(1), k);
            assert(keys_of(entries.skip(1)) =~= keys_of(entries).skip(1));
            let i = choose|i: int|
                0 <= i < keys_of(entries).skip(1).len() && keys_of(entries).skip(1)[i] == k;
            assert(keys_of(entries)[i + 1] == k);
        }
    }
}

/// Whether the visited list holds `key`.
fn contains_key(v: &Vec<String>, key: &str) -> (r: bool)
    ensures
        r == texts_of(v@).contains(key@),
{
    let mut found: bool = false;
    let mut i: usize = 0;
    while i < v.len()
        invariant
            i <= v.len(),
            texts_of(v@).len() == v@.len(),
            found <==> exists|j: int| 0 <= j < i as int && texts_of(v@)[j] == key@,
        decreases v.len() - i,
    {
        if crate::utils::str_eq(v[i].as_str(), key) {
            found = true;
            proof {
                assert(texts_of(v@)[i as int] == key@);
            }
        }
        i = i + 1;
    }
    found
}

/// Every trait the unit declares (parsed under the identifier text `under`)
/// can be located in its map.
pub open spec fn all_traits_present(under: Seq<char>, src: Source, version: ClarityVersion) -> bool {
    forall|id: Seq<char>|
        declared_traits(under, src.text(), version).contains(id) ==> #[trigger] lookup(
            src.trait_map(),
            id,
        ) is Some
}

/// A trait key that resolution of `src` can reach: one the unit itself
/// declares, or one that a trait text held in the map declares in turn — a
/// nested unit is parsed under its own key and keeps the same map.
pub open spec fn reachable_trait(
    under: Seq<char>,
    src: Source,
    version: ClarityVersion,
    id: Seq<char>,
) -> bool {
    ||| declared_traits(under, src.text(), version).contains(id)
    ||| (exists|pk: Seq<char>, pt: Seq<char>|
        #![trigger lookup(src.trait_map(), pk), declared_traits(pk, pt, version)]
        lookup(src.trait_map(), pk) == Some(pt) && declared_traits(pk, pt, version).contains(id))
}

/// What resolving one unit guarantees of its outcome, whatever the analyzer
/// decides: which failure kind can appear when, and what each carries.
/// `under` is the canonical text of the identifier the unit is parsed under.
pub open spec fn resolution_post(
    src: Source,
    version: ClarityVersion,
    under: Seq<char>,
    role: UnitRole,
    unit_name: Seq<char>,
    r: Result<ContractAnalysis, Error>,
) -> bool {
    &&& (!parse_ok(src.text(), version) && role == UnitRole::Contract ==> (r matches Err(e)
        && e matches Error::ParseContract { diagnostics } && diagnostics@.len() > 0))
    &&& (!parse_ok(src.text(), version) && role == UnitRole::ImplementedTrait ==> (r matches Err(
        e,
    ) && e matches Error::ParseTrait { diagnostics, identifier } && diagnostics@.len() > 0
        && identifier@ == unit_name))
    &&& (r matches Ok(_) ==> parse_ok(src.text(), version) && all_traits_present(
        under,
        src,
        version,
    ))
    &&& (r matches Err(e) ==> (e matches Error::ReadTrait { path, identifier } ==> (path is None
        && reachable_trait(under, src, version, identifier@) && lookup(
        src.trait_map(),
        identifier@,
    ) is None)))
    &&& (r matches Err(e) ==> (e matches Error::CyclicTrait { identifier } ==> (reachable_trait(
        under,
        src,
        version,
        identifier@,
    ) && lookup(src.trait_map(), identifier@) is Some)))
    &&& (r matches Err(e) ==> (e matches Error::ParseTrait { diagnostics, identifier } ==> (
    diagnostics@.len() > 0 && (role == UnitRole::Contract ==> reachable_trait(
        under,
        src,
        version,
        identifier@,
    ) && lookup(src.trait_map(), identifier@) is Some) && (role == UnitRole::ImplementedTrait
        ==> (identifier@ == unit_name || (reachable_trait(under, src, version, identifier@)
        && lookup(src.trait_map(), identifier@) is Some))))))
    &&& (r matches Err(e) ==> (e matches Error::ParseContract { diagnostics } ==> (role
        == UnitRole::Contract && diagnostics@.len() > 0 && (parse_ok(src.text(), version)
        ==> all_traits_present(under, src, version)))))
    &&& (parse_ok(src.text(), version) && !all_traits_present(under, src, version) ==> (r matches
        Err(e) && (e is ReadTrait || e is ParseTrait || e is CyclicTrait)))
    &&& ((parse_ok(src.text(), version) && (exists|id: Seq<char>|
        #[trigger] declared_traits(under, src.text(), version).contains(id)) && (forall|
        id: Seq<char>,
    |
        #[trigger] declared_traits(under, src.text(), version).contains(id) ==> lookup(
            src.trait_map(),
            id,
        ) is None)) ==> (r matches Err(e) && e matches Error::ReadTrait { path, identifier }
        && path is None && declared_traits(under, src.text(), version).contains(identifier@)))
    &&& (r matches Err(e) ==> !(e is ReadContract) && !(e is ParseContractName))
}

/// The recursive resolution of one source unit: parse it, then for every
/// trait it declares look the trait's text up, guard against revisiting an
/// identifier, resolve and register it, and finally run the conformance
/// analysis against the shared database. The database reference is the one
/// shared mutable resource of the whole recursion; each branch clones the
/// cost tracker instead of drawing down a shared budget; the visited set
/// turns a cyclic implements-graph into a reported error.
#[verifier::rlimit(100)]
fn run_with_impl_traits(
    source: &Source,
    version: ClarityVersion,
    identifier: &QualifiedContractIdentifier,
    db: &mut AnalysisDatabase<'_>,
    tracker: LimitedCostTracker,
    role: UnitRole,
    unit_name: &str,
    visited: Vec<String>,
) -> (r: (Result<ContractAnalysis, Error>, Vec<String>))
    requires
        tracker_is_free(tracker),
    ensures
        resolution_post(*source, version, qci_text(*identifier), role, unit_name@, r.0),
        forall|x: Seq<char>|
            texts_of(visited@).contains(x) ==> #[trigger] texts_of(r.1@).contains(x),
    decreases unvisited_count(keys_of(source.trait_map()), texts_of(visited@)),
{
    let ghost under = qci_text(*identifier);
    let ghost visited0 = texts_of(visited@);
    let mut visited_now = visited;
    let text = match source.read_contract() {
        Ok(t) => t,
        Err(e) => {
            return (Err(e), visited_now);
        },
    };
    let mut tracker = tracker;
    let parsed = build_unit_ast(identifier, text.as_str(), &mut tracker, version);
    let mut ast = parsed.0;
    let diagnostics = parsed.1;
    let success = parsed.2;
    let trait_refs = parsed.3;
    if !success {
        let e = match role {
            UnitRole::Contract => Error::ParseContract { diagnostics },
            UnitRole::ImplementedTrait => Error::ParseTrait {
                diagnostics,
                identifier: unit_name.to_owned(),
            },
        };
        return (Err(e), visited_now);
    }
    let ghost keys = trait_refs@.map_values(|t: TraitRef| t.key@);
    let mut k: usize = 0;
    while k < trait_refs.len()
        invariant
            k <= trait_refs.len(),
            tracker_is_free(tracker),
            keys == trait_refs@.map_values(|t: TraitRef| t.key@),
            keys.to_set() == declared_traits(under, source.text(), version),
            forall|j: int|
                0 <= j < trait_refs@.len() ==> #[trigger] trait_refs@[j].key@ == qci_text(
                    trait_refs@[j].identifier,
                ),
            parse_ok(source.text(), version),
            under == qci_text(*identifier),
            visited0 == texts_of(visited@),
            forall|j: int|
                0 <= j < k as int ==> #[trigger] lookup(source.trait_map(), keys[j]) is Some,
            forall|x: Seq<char>|
                visited0.contains(x) ==> #[trigger] texts_of(visited_now@).contains(x),
        decreases trait_refs.len() - k,
    {
        let tr = &trait_refs[k];
        proof {
            assert(keys[k as int] == trait_refs@[k as int].key@);
            assert(keys.contains(keys[k as int]));
            assert(declared_traits(under, source.text(), version).contains(keys[k as int]));
        }
        let nested_source = match source.nest(tr.key.as_str()) {
            Ok(n) => n,
            Err(e) => {
                return (Err(e), visited_now);
            },
        };
        proof {
            assert(lookup(source.trait_map(), tr.key@) matches Some(t) && nested_source.text()
                == t && nested_source.trait_map() == source.trait_map());
        }
        if contains_key(&visited_now, tr.key.as_str()) {
            let e = Error::CyclicTrait { identifier: tr.key.clone() };
            return (Err(e), visited_now);
        }
        let ghost pre_visited = texts_of(visited_now@);
        visited_now.push(tr.key.clone());
        proof {
            assert(texts_of(visited_now@) =~= pre_visited.push(tr.key@));
            lemma_lookup_in_keys(source.trait_map(), tr.key@);
            lemma_unvisited_push(keys_of(source.trait_map()), pre_visited, tr.key@);
            lemma_unvisited_le(keys_of(source.trait_map()), visited0, pre_visited);
        }
        let branch_tracker = clone_tracker(&tracker);
        let nested = run_with_impl_traits(
            &nested_source,
            version,
            &tr.identifier,
            db,
            branch_tracker,
            UnitRole::ImplementedTrait,
            tr.key.as_str(),
            visited_now,
        );
        visited_now = nested.1;
        proof {
            assert forall|x: Seq<char>| visited0.contains(x) implies #[trigger] texts_of(
                visited_now@,
            ).contains(x) by {
                assert(pre_visited.contains(x));
                lemma_push_contains(pre_visited, tr.key@, x);
                assert(pre_visited.push(tr.key@).contains(x));
            }
        }
        match nested.0 {
            Ok(_) => {},
            Err(e) => {
                proof {
                    assert(qci_text(trait_refs@[k as int].identifier) == keys[k as int]);
                    assert forall|id: Seq<char>| reachable_trait(
                        keys[k as int],
                        nested_source,
                        version,
                        id,
                    ) implies reachable_trait(under, *source, version, id) by {
                        if declared_traits(keys[k as int], nested_source.text(), version).contains(
                            id,
                        ) {
                            assert(lookup(source.trait_map(), keys[k as int]) == Some(
                                nested_source.text(),
                            ));
                            assert(declared_traits(
                                keys[k as int],
                                nested_source.text(),
                                version,
                            ).contains(id));
                        } else {
                            let (pk, pt) = choose|pk: Seq<char>, pt: Seq<char>|
                                #![trigger lookup(nested_source.trait_map(), pk), declared_traits(pk, pt, version)]
                                lookup(nested_source.trait_map(), pk) == Some(pt)
                                    && declared_traits(pk, pt, version).contains(id);
                            assert(lookup(source.trait_map(), pk) == Some(pt));
                        }
                    }
                }
                return (Err(e), visited_now);
            },
        }
        k = k + 1;
    }
    proof {
        assert(all_traits_present(under, *source, version)) by {
            assert forall|id: Seq<char>|
                declared_traits(under, source.text(), version).contains(id) implies #[trigger] lookup(
                source.trait_map(),
                id,
            ) is Some by {
                assert(keys.to_set().contains(id));
                assert(keys.contains(id));
                let j = choose|j: int| 0 <= j < keys.len() && keys[j] == id;
                assert(lookup(source.trait_map(), keys[j]) is Some);
            }
        }
    }
    match run_unit_analysis(identifier, &mut ast, db, tracker, version) {
        Ok(a) => (Ok(a), visited_now),
        Err(d) => {
            let mut diagnostics = diagnostics;
            diagnostics.push(d);
            let e = match role {
                UnitRole::Contract => Error::ParseContract { diagnostics },
                UnitRole::ImplementedTrait => Error::ParseTrait {
                    diagnostics,
                    identifier: unit_name.to_owned(),
                },
            };
            (Err(e), visited_now)
        },
    }
}

/// One full resolution of a unit, started with nothing visited.
fn resolve_root(
    source: &Source,
    version: ClarityVersion,
    identifier: &QualifiedContractIdentifier,
    db: &mut AnalysisDatabase<'_>,
    tracker: LimitedCostTracker,
) -> (r: Result<ContractAnalysis, Error>)
    requires
        tracker_is_free(tracker),
    ensures
        resolution_post(*source, version, qci_text(*identifier), UnitRole::Contract, ""@, r),
{
    let visited: Vec<String> = Vec::new();
    let out = run_with_impl_traits(
        source,
        version,
        identifier,
        db,
        tracker,
        UnitRole::Contract,
        "",
        visited,
    );
    out.0
}

/// Relies on `MemoryBackingStore::new`, `as_analysis_db` and
/// `AnalysisDatabase::execute`: a fresh in-memory analysis database is opened,
/// the resolution runs once inside its scope, and its outcome is handed back
/// unchanged; what the outcome guarantees is exactly what `resolve_root`
/// ensures of it. A failure of the database scope itself cannot be handed on
/// and stops the process.
#[verifier::external_body]
fn resolve_in_fresh_db(
    source: &Source,
    version: ClarityVersion,
    identifier: &QualifiedContractIdentifier,
    tracker: LimitedCostTracker,
) -> (r: Result<ContractAnalysis, Error>)
    requires
        tracker_is_free(tracker),
    ensures
        resolution_post(*source, version, qci_text(*identifier), UnitRole::Contract, ""@, r),
{
    let mut store = MemoryBackingStore::new();
    let mut db = store.as_analysis_db();
    let out: Result<Result<_, Error>, CheckErrors> = db.execute(
        |db| Ok(resolve_root(source, version, identifier, db, tracker)),
    );
    out.expect("the analysis database scope failed")
}

/// Resolves a source unit and every trait it declares, and returns the
/// analyzer's view of the unit's interface. The unit is parsed under the
/// placeholder identifier, so the guarantees hold for that identifier's text,
/// which the contract carries as an unnamed witness.
pub fn run(source: &Source, clarity_version: ClarityVersion) -> (r: Result<
    ContractAnalysis,
    Error,
>)
    ensures
        exists|under: Seq<char>|
            #[trigger] resolution_post(
                *source,
                clarity_version,
                under,
                UnitRole::Contract,
                ""@,
                r,
            ),
{
    let identifier = transient_identifier();
    let tracker = free_tracker();
    let r = resolve_in_fresh_db(source, clarity_version, &identifier, tracker);
    proof {
        assert(resolution_post(
            *source,
            clarity_version,
            qci_text(identifier),
            UnitRole::Contract,
            ""@,
            r,
        ));
    }
    r
}

/// Resolves a contract given its text and a map from trait identifier to
/// trait text.
pub fn run_with_mem(
    contract_source: String,
    traits: Vec<(String, String)>,
    clarity_version: ClarityVersion,
) -> (r: Result<ContractAnalysis, Error>)
    ensures
        exists|under: Seq<char>|
            #[trigger] resolution_post(
                Source::Mem { contract_source: contract_source, traits: traits },
                clarity_version,
                under,
                UnitRole::Contract,
                ""@,
                r,
            ),
{
    let source = Source::Mem { contract_source, traits };
    run(&source, clarity_version)
}

/// The read-only function map of an analysis, in its stored name-sorted
/// order, carried over to the library's shapes.
pub uninterp spec fn readonly_fns_of(a: ContractAnalysis) -> Seq<(String, FnType)>;

/// The public function map of an analysis, in its stored name-sorted order,
/// carried over to the library's shapes.
pub uninterp spec fn public_fns_of(a: ContractAnalysis) -> Seq<(String, FnType)>;

/// Relies on the `TypeSignature` enum: maps each value-type shape to the
/// library's corresponding shape, one arm per variant, recursing into nested
/// types.
#[verifier::external_body]
fn conv_sig(t: &TypeSignature) -> TypeSig {
    match t {
        TypeSignature::BoolType => TypeSig::Bool,
        TypeSignature::IntType => TypeSig::Int,
        TypeSignature::UIntType => TypeSig::UInt,
        TypeSignature::PrincipalType => TypeSig::Principal,
        TypeSignature::OptionalType(i) => TypeSig::Optional(Box::new(conv_sig(i))),
        TypeSignature::ResponseType(p) => TypeSig::Response(Box::new(conv_sig(&p.0)), Box::new(conv_sig(&p.1))),
        TypeSignature::SequenceType(s) => conv_seq(s),
        TypeSignature::TupleType(tt) => conv_tuple(tt),
        TypeSignature::CallableType(_) => TypeSig::Callable,
        TypeSignature::TraitReferenceType(_) => TypeSig::TraitReference,
        TypeSignature::ListUnionType(_) => TypeSig::ListUnion,
        TypeSignature::NoType => TypeSig::NoType,
    }
}

/// Relies on the `SequenceSubtype` enum: maps each sequence shape to the
/// library's corresponding shape, one arm per variant.
#[verifier::external_body]
fn conv_seq(s: &SequenceSubtype) -> TypeSig {
    match s {
        SequenceSubtype::StringType(
            StringSubtype::ASCII(_),
        ) => TypeSig::StringAscii,
        SequenceSubtype::StringType(
            StringSubtype::UTF8(_),
        ) => TypeSig::StringUtf8,
        SequenceSubtype::BufferType(_) => TypeSig::Buffer,
        SequenceSubtype::ListType(l) => TypeSig::List(Box::new(conv_sig(l.get_list_item_type()))),
    }
}

/// Relies on `TupleTypeSignature::get_type_map`: the tuple's fields in their
/// stored order, sorted by field name; each is moved to the library's shape.
#[verifier::external_body]
fn conv_tuple(tt: &TupleTypeSignature) -> TypeSig {
    let fields = tt.get_type_map().iter().map(|(n, v)| TupleField {
        name: n.to_string(),
        sig: conv_sig(v),
    }).collect();
    TypeSig::Tuple(fields)
}

/// Relies on the `FunctionType` enum: the fixed-arity shape keeps its named
/// arguments and return type, converted to the library's shapes; every other
/// shape is handed back as the unsupported marker.
#[verifier::external_body]
fn conv_fn_type(t: &FunctionType) -> FnType {
    match t {
        FunctionType::Fixed(f) => FnType::Fixed {
            args: f.args.iter().map(|a| FnArg {
                name: a.name.to_string(),
                sig: conv_sig(&a.signature),
            }).collect(),
            ret: conv_sig(&f.returns),
        },
        _ => FnType::Unsupported,
    }
}

/// Relies on `ContractAnalysis::read_only_function_types`: the map's entries
/// in its stored order, sorted by function name, each moved to the library's
/// shapes.
#[verifier::external_body]
pub(crate) fn readonly_functions(a: &ContractAnalysis) -> (r: Vec<(String, FnType)>)
    ensures
        r@ == readonly_fns_of(*a),
{
    a.read_only_function_types.iter().map(|(n, t)| (n.to_string(), conv_fn_type(t))).collect()
}

/// Relies on `ContractAnalysis::public_function_types`: the map's entries in
/// its stored order, sorted by function name, each moved to the library's
/// shapes.
#[verifier::external_body]
pub(crate) fn public_functions(a: &ContractAnalysis) -> (r: Vec<(String, FnType)>)
    ensures
        r@ == public_fns_of(*a),
{
    a.public_function_types.iter().map(|(n, t)| (n.to_string(), conv_fn_type(t))).collect()
}

} // verus!
