//! Validation-layer configuration and support checking.
//!
//! The debug/validation layer is a startup-time switch: when enabled, the
//! required layer names must all be offered by the instance. Enumerating
//! the instance layers is the shell's job; deciding whether they suffice
//! happens here.

use vstd::prelude::*;

use crate::device::names_contain;
use crate::error::EngineError;
use crate::utils::contains_string;

verus! {

/// Name of the one validation layer the engine requires when validation is
/// enabled.
pub const VALIDATION_LAYER_NAME: &'static str = "VK_LAYER_KHRONOS_validation";

/// The validation configuration fixed at startup: whether the debug layer
/// is enabled, and which layer names it requires.
#[derive(Clone, Debug)]
pub struct ValidationInfo {
    pub is_enabled: bool,
    pub required_validation_layers: Vec<String>,
}

impl ValidationInfo {
    /// Builds the configuration, computed once at startup rather than held
    /// in a hidden global.
    pub fn new(is_enabled: bool) -> (r: Self)
        ensures
            r.is_enabled == is_enabled,
            r.required_validation_layers@.len() == 1,
            r.required_validation_layers@[0]@ == VALIDATION_LAYER_NAME@,
    {
        ValidationInfo { is_enabled, required_validation_layers: required_layers() }
    }
}

/// The layer names that must be enabled for driver validation.
pub fn required_layers() -> (r: Vec<String>)
    ensures
        r@.len() == 1,
        r@[0]@ == VALIDATION_LAYER_NAME@,
{
    let mut layers: Vec<String> = Vec::new();
    layers.push(VALIDATION_LAYER_NAME.to_owned());
    layers
}

/// Checks a required-layer list against the layers the instance offers.
/// An empty offer is an error of its own; otherwise the first missing
/// required layer is reported by its index, and success means every
/// required layer is offered.
pub fn check_layers(required: &Vec<String>, available_layers: &Vec<String>) -> (r: Result<
    (),
    EngineError,
>)
    ensures
        match r {
            Ok(()) => available_layers@.len() > 0 && forall|k: int|
                0 <= k < required@.len() ==> names_contain(
                    available_layers@,
                    #[trigger] required@[k]@,
                ),
            Err(e) => match e {
                EngineError::NoAvailableLayers => available_layers@.len() == 0,
                EngineError::LayerNotFound { index } => {
                    &&& available_layers@.len() > 0
                    &&& 0 <= index < required@.len()
                    &&& !names_contain(available_layers@, required@[index as int]@)
                    &&& forall|k: int|
                        0 <= k < index ==> names_contain(available_layers@, #[trigger] required@[k]@)
                },
                _ => false,
            },
        },
{
    if available_layers.len() == 0 {
        return Err(EngineError::NoAvailableLayers);
    }
    let n: usize = required.len();
    let mut k: usize = 0;
    while k < n
        invariant
            n == required@.len(),
            0 <= k <= n,
            available_layers@.len() > 0,
            forall|j: int| 0 <= j < k ==> names_contain(available_layers@, #[trigger] required@[j]@),
        decreases n - k,
    {
        let name: &String = &required[k];
        if !contains_string(available_layers, name.as_str()) {
            return Err(EngineError::LayerNotFound { index: k });
        }
        k = k + 1;
    }
    Ok(())
}

/// Checks that the instance offers every layer the engine requires for
/// validation.
pub fn check_supported(available_layers: &Vec<String>) -> (r: Result<(), EngineError>)
    ensures
        match r {
            Ok(()) => available_layers@.len() > 0 && names_contain(
                available_layers@,
                VALIDATION_LAYER_NAME@,
            ),
            Err(e) => match e {
                EngineError::NoAvailableLayers => available_layers@.len() == 0,
                EngineError::LayerNotFound { index } => index == 0 && !names_contain(
                    available_layers@,
                    VALIDATION_LAYER_NAME@,
                ),
                _ => false,
            },
        },
{
    let required = required_layers();
    check_layers(&required, available_layers)
}

/// Checks layer support for a validation configuration: a disabled
/// configuration needs nothing, an enabled one needs all its required
/// layers offered.
pub fn check_validation_error_support(
    validation_info: &ValidationInfo,
    available_layers: &Vec<String>,
) -> (r: Result<(), EngineError>)
    ensures
        !validation_info.is_enabled ==> r is Ok,
        validation_info.is_enabled ==> match r {
            Ok(()) => available_layers@.len() > 0 && forall|k: int|
                0 <= k < validation_info.required_validation_layers@.len() ==> names_contain(
                    available_layers@,
                    #[trigger] validation_info.required_validation_layers@[k]@,
                ),
            Err(e) => match e {
                EngineError::NoAvailableLayers => available_layers@.len() == 0,
                EngineError::LayerNotFound { index } => {
                    &&& 0 <= index < validation_info.required_validation_layers@.len()
                    &&& !names_contain(
                        available_layers@,
                        validation_info.required_validation_layers@[index as int]@,
                    )
                },
                _ => false,
            },
        },
{
    if !validation_info.is_enabled {
        return Ok(());
    }
    check_layers(&validation_info.required_validation_layers, available_layers)
}

} // verus!
