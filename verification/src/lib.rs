use vstd::prelude::*;

pub mod analysis;
pub mod errors;
pub mod laws;
pub mod source;
pub mod typescript;
pub mod utils;

use clarity::vm::analysis::ContractAnalysis;

use crate::analysis::{
    public_fns_of, readonly_fns_of, resolution_post, ClarityVersion, UnitRole,
};
use crate::errors::Error;
use crate::source::Source;
use crate::typescript::{build_types, build_types_text};

verus! {

/// The version a resolution runs under when none is chosen: the latest.
pub open spec fn resolved_version(v: Option<ClarityVersion>) -> ClarityVersion {
    match v {
        Option::Some(v) => v,
        Option::None => ClarityVersion::Clarity2,
    }
}

/// Generates the typed binding declarations for a contract held in memory:
/// resolves the contract and every trait it declares against the given
/// identifier-to-text map, then renders the analyzer's view of its read-only
/// and public functions under the display name `contract_name`. A failure is
/// exactly a resolution failure; a success is the rendering of the resolved
/// interface.
pub fn parse_mem(
    contract_source: String,
    traits: Vec<(String, String)>,
    contract_name: String,
    clarity_version: Option<ClarityVersion>,
) -> (r: Result<String, Error>)
    ensures
        ({
            let src = Source::Mem { contract_source: contract_source, traits: traits };
            let v = resolved_version(clarity_version);
            &&& (r matches Err(e) ==> exists|under: Seq<char>|
                #[trigger] resolution_post(
                    src,
                    v,
                    under,
                    UnitRole::Contract,
                    ""@,
                    Err::<ContractAnalysis, Error>(e),
                ))
            &&& (r matches Ok(out) ==> exists|under: Seq<char>, a: ContractAnalysis|
                #![trigger resolution_post(src, v, under, UnitRole::Contract, ""@, Ok::<ContractAnalysis, Error>(a))]
                resolution_post(src, v, under, UnitRole::Contract, ""@, Ok::<
                    ContractAnalysis,
                    Error,
                >(a)) && out@ == build_types_text(
                    contract_name@,
                    readonly_fns_of(a),
                    public_fns_of(a),
                ))
        }),
{
    let version = match clarity_version {
        Some(v) => v,
        None => ClarityVersion::Clarity2,
    };
    let contract_analysis = match analysis::run_with_mem(contract_source, traits, version) {
        Ok(a) => a,
        Err(e) => {
            return Err(e);
        },
    };
    let readonly_fns = analysis::readonly_functions(&contract_analysis);
    let public_fns = analysis::public_functions(&contract_analysis);
    let ts_types = build_types(contract_name.as_str(), &readonly_fns, &public_fns);
    Ok(ts_types)
}

} // verus!
