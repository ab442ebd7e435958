//! The fixed set of entry points a driver library must export, and the
//! decision whether a resolution outcome is complete.
//!
//! Resolving the names from a shared library is platform work that lives
//! outside the library; what is decided here is which names are required,
//! and that the first unresolved one names the loader's error.

use vstd::prelude::*;
use crate::error::LoadError;

verus! {

/// How many entry points are required.
pub const SYMBOL_COUNT: usize = 11;

/// The name of the required entry point at the given position.
pub open spec fn spec_symbol_name(i: int) -> Seq<char> {
    if i == 0 {
        "SQLAllocHandle"@
    } else if i == 1 {
        "SQLSetEnvAttr"@
    } else if i == 2 {
        "SQLDriverConnectW"@
    } else if i == 3 {
        "SQLExecDirectW"@
    } else if i == 4 {
        "SQLNumResultCols"@
    } else if i == 5 {
        "SQLFreeHandle"@
    } else if i == 6 {
        "SQLDisconnect"@
    } else if i == 7 {
        "SQLGetDiagRecW"@
    } else if i == 8 {
        "SQLBindCol"@
    } else if i == 9 {
        "SQLFetch"@
    } else {
        "SQLFreeStmt"@
    }
}

/// The required entry-point name at a position.
pub fn symbol_name(i: usize) -> (r: String)
    requires
        i < SYMBOL_COUNT,
    ensures
        r@ == spec_symbol_name(i as int),
{
    if i == 0 {
        "SQLAllocHandle".to_owned()
    } else if i == 1 {
        "SQLSetEnvAttr".to_owned()
    } else if i == 2 {
        "SQLDriverConnectW".to_owned()
    } else if i == 3 {
        "SQLExecDirectW".to_owned()
    } else if i == 4 {
        "SQLNumResultCols".to_owned()
    } else if i == 5 {
        "SQLFreeHandle".to_owned()
    } else if i == 6 {
        "SQLDisconnect".to_owned()
    } else if i == 7 {
        "SQLGetDiagRecW".to_owned()
    } else if i == 8 {
        "SQLBindCol".to_owned()
    } else if i == 9 {
        "SQLFetch".to_owned()
    } else {
        "SQLFreeStmt".to_owned()
    }
}

/// All required entry-point names, in position order.
pub fn required_symbols() -> (r: Vec<String>)
    ensures
        r@.len() == SYMBOL_COUNT,
        forall|i: int| 0 <= i < SYMBOL_COUNT ==> (#[trigger] r@[i])@ == spec_symbol_name(i),
{
    let mut out: Vec<String> = Vec::new();
    let mut i: usize = 0;
    while i < SYMBOL_COUNT
        invariant
            i <= SYMBOL_COUNT,
            out@.len() == i,
            forall|j: int| 0 <= j < i ==> (#[trigger] out@[j])@ == spec_symbol_name(j),
        decreases SYMBOL_COUNT - i,
    {
        out.push(symbol_name(i));
        i += 1;
    }
    out
}

/// Position `i` holds the first unresolved entry of the outcomes.
pub open spec fn first_missing_is(resolved: Seq<bool>, i: int) -> bool {
    &&& 0 <= i < resolved.len()
    &&& !resolved[i]
    &&& forall|j: int| 0 <= j < i ==> resolved[j]
}

/// Decides a resolution outcome: `Ok` exactly when every required entry
/// point resolved, else the loader's error naming the first that did not.
pub fn validate_symbols(resolved: &Vec<bool>) -> (r: Result<(), LoadError>)
    requires
        resolved@.len() == SYMBOL_COUNT,
    ensures
        r is Ok <==> (forall|i: int| 0 <= i < resolved@.len() ==> resolved@[i]),
        r matches Err(e) ==> (e matches LoadError::MissingSymbol(name) && exists|i: int|
            #[trigger] first_missing_is(resolved@, i) && name@ == spec_symbol_name(i)),
{
    let mut i: usize = 0;
    while i < SYMBOL_COUNT
        invariant
            resolved@.len() == SYMBOL_COUNT,
            i <= SYMBOL_COUNT,
            forall|j: int| 0 <= j < i ==> resolved@[j],
        decreases SYMBOL_COUNT - i,
    {
        if !resolved[i] {
            proof {
                assert(first_missing_is(resolved@, i as int));
            }
            return Err(LoadError::MissingSymbol(symbol_name(i)));
        }
        i += 1;
    }
    Ok(())
}

} // verus!
