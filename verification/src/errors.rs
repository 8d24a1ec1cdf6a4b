use vstd::prelude::*;
use vstd::string::*;

use crate::typescript::texts_of;

verus! {

/// The closed set of failure kinds of the pipeline. Each carries the context
/// needed to render one human-readable report: the diagnostic texts gathered
/// before the failure, the failing unit's identifier, and the path involved
/// when one is known.
#[derive(Debug)]
pub enum Error {
    /// No display name was given and none could be derived from the input path.
    ParseContractName { path: String },
    /// The primary source text could not be read.
    ReadContract { path: String },
    /// A declared trait's source text could not be located.
    ReadTrait { path: Option<String>, identifier: String },
    /// The primary unit failed parsing or conformance analysis.
    ParseContract { diagnostics: Vec<String> },
    /// A nested trait unit failed parsing or conformance analysis.
    ParseTrait { diagnostics: Vec<String>, identifier: String },
    /// A trait was reached a second time while resolving the implements
    /// graph: its definition cycles, or two units hand it in twice.
    CyclicTrait { identifier: String },
}

/// The given diagnostics from index `i` on, one per line.
pub open spec fn diag_lines(ds: Seq<Seq<char>>, i: int) -> Seq<char>
    decreases ds.len() - i,
{
    if i < 0 || i >= ds.len() {
        Seq::empty()
    } else {
        ds[i] + "\n"@ + diag_lines(ds, i + 1)
    }
}

/// The report for one failure: any diagnostics first, one per line and oldest
/// first, then a one-line summary naming the failing unit and, where known,
/// the path involved.
pub open spec fn error_text(e: Error) -> Seq<char> {
    match e {
        Error::ParseContractName { path } => "Failed to get contract name from path: \""@ + path@
            + "\""@,
        Error::ReadContract { path } => "Unable to read contract at: \""@ + path@ + "\""@,
        Error::ReadTrait { path, identifier } => "Unable to read implemented trait "@ + identifier@
            + (match path {
            Option::Some(p) => " at: \""@ + p@ + "\""@,
            Option::None => Seq::empty(),
        }),
        Error::ParseContract { diagnostics } => diag_lines(texts_of(diagnostics@), 0)
            + "Unable to parse contract"@,
        Error::ParseTrait { diagnostics, identifier } => diag_lines(texts_of(diagnostics@), 0)
            + "Unable to parse implemented trait "@ + identifier@,
        Error::CyclicTrait { identifier } => "Cyclic implemented trait "@ + identifier@,
    }
}

/// Writes the given diagnostics, one per line.
fn push_diag_lines(out: &mut String, ds: &Vec<String>)
    ensures
        final(out)@ == old(out)@ + diag_lines(texts_of(ds@), 0),
{
    let ghost base = out@;
    let mut i: usize = 0;
    proof {
        assert(base + diag_lines(texts_of(ds@), 0) == base + diag_lines(texts_of(ds@), 0));
    }
    while i < ds.len()
        invariant
            i <= ds.len(),
            texts_of(ds@).len() == ds@.len(),
            out@ + diag_lines(texts_of(ds@), i as int) == base + diag_lines(texts_of(ds@), 0),
        decreases ds.len() - i,
    {
        let ghost prev = out@;
        out.append(ds[i].as_str());
        out.append("\n");
        proof {
            assert(texts_of(ds@)[i as int] == ds@[i as int]@);
            assert(out@ + diag_lines(texts_of(ds@), i as int + 1) =~= prev + diag_lines(
                texts_of(ds@),
                i as int,
            ));
        }
        i = i + 1;
    }
    proof {
        assert(diag_lines(texts_of(ds@), ds@.len() as int) =~= Seq::<char>::empty());
        assert(out@ + Seq::<char>::empty() =~= out@);
    }
}

impl Error {
    /// The report for this failure, as one multi-line text.
    #[verifier::rlimit(100)]
    pub fn to_text(&self) -> (r: String)
        ensures
            r@ == error_text(*self),
    {
        match self {
            Error::ParseContractName { path } => {
                let mut out = String::from_str("Failed to get contract name from path: \"");
                out.append(path.as_str());
                out.append("\"");
                proof {
                    assert(out@ =~= error_text(*self));
                }
                out
            },
            Error::ReadContract { path } => {
                let mut out = String::from_str("Unable to read contract at: \"");
                out.append(path.as_str());
                out.append("\"");
                proof {
                    assert(out@ =~= error_text(*self));
                }
                out
            },
            Error::ReadTrait { path, identifier } => {
                let mut out = String::from_str("Unable to read implemented trait ");
                out.append(identifier.as_str());
                match path {
                    Option::Some(p) => {
                        out.append(" at: \"");
                        out.append(p.as_str());
                        out.append("\"");
                    },
                    Option::None => {},
                }
                proof {
                    assert(out@ =~= error_text(*self));
                }
                out
            },
            Error::ParseContract { diagnostics } => {
                let mut out = String::new();
                push_diag_lines(&mut out, diagnostics);
                out.append("Unable to parse contract");
                proof {
                    assert(out@ =~= error_text(*self));
                }
                out
            },
            Error::ParseTrait { diagnostics, identifier } => {
                let mut out = String::new();
                push_diag_lines(&mut out, diagnostics);
                out.append("Unable to parse implemented trait ");
                out.append(identifier.as_str());
                proof {
                    assert(out@ =~= error_text(*self));
                }
                out
            },
            Error::CyclicTrait { identifier } => {
                let mut out = String::from_str("Cyclic implemented trait ");
                out.append(identifier.as_str());
                proof {
                    assert(out@ =~= error_text(*self));
                }
                out
            },
        }
    }
}

} // verus!
