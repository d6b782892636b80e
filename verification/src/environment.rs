//! The environment provider's configuration values.
//!
//! The environment itself (ephemerides, Earth-orientation data, the
//! observatory catalog) is an outside service constructed and queried at
//! the host boundary; the core only fixes how its configuration is read.

use vstd::prelude::*;

verus! {

/// The astrometric error model an environment is built with.
#[derive(Clone, Copy, Debug, PartialEq, Eq, Structural)]
pub enum ErrorModel {
    Fcct14,
    Vfcc17,
}

/// Select the error model named by a configuration string: `"VFCC17"`
/// selects that model, and any other string, the default model.
pub fn parse_error_model(name: &str) -> (r: ErrorModel)
    ensures
        r == (if name@ == "VFCC17"@ {
            ErrorModel::Vfcc17
        } else {
            ErrorModel::Fcct14
        }),
{
    let owned: String = name.to_owned();
    let target: String = "VFCC17".to_owned();
    if owned == target {
        ErrorModel::Vfcc17
    } else {
        ErrorModel::Fcct14
    }
}

} // verus!
