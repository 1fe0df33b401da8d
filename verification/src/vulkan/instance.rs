//! Instance: what the engine asks of the Vulkan loader.

use vstd::prelude::*;
use vstd::string::StringExecFns;

use crate::vulkan::error::VkError;

verus! {

/// The version of the API that the engine is written for: 1.3.
pub const API_VERSION_1_3: u32 = 0x0040_3000;

/// Whether the engine asks for validation layers.
pub const VALIDATION_LAYERS_ENABLED: bool = false;

/// What the engine asks for when it creates its instance.
#[derive(Debug, Clone)]
pub struct VkInstance {
    pub api_version: u32,
    /// Names of the instance extensions to enable: those that the window
    /// system needs.
    pub extensions: Vec<String>,
    /// Names of the layers to enable.
    pub layers: Vec<String>,
}

/// The validation layers that the engine knows.
pub open spec fn spec_validation_layers() -> Seq<Seq<char>> {
    seq!["VK_LAYER_KHRONOS_validation"@]
}

/// Whether `name` is among `available`.
pub open spec fn has_layer(available: Seq<String>, name: Seq<char>) -> bool {
    exists|i: int| 0 <= i < available.len() && (#[trigger] available[i])@ == name
}

/// Whether every validation layer is among `available`.
pub open spec fn spec_validation_layer_support(available: Seq<String>) -> bool {
    forall|j: int|
        0 <= j < spec_validation_layers().len() ==> has_layer(
            available,
            #[trigger] spec_validation_layers()[j],
        )
}

/// The names of the validation layers that the engine knows.
pub fn validation_layers() -> (r: Vec<String>)
    ensures
        r@.len() == spec_validation_layers().len(),
        forall|j: int| 0 <= j < r@.len() ==> (#[trigger] r@[j])@ == spec_validation_layers()[j],
{
    let mut names: Vec<String> = Vec::new();
    names.push(String::from_str("VK_LAYER_KHRONOS_validation"));
    names
}

impl VkInstance {
    /// Whether the system has every validation layer that the engine knows.
    pub fn check_validation_layer_support(available_layers: &Vec<String>) -> (r: bool)
        ensures
            r == spec_validation_layer_support(available_layers@),
    {
        let wanted = validation_layers();
        let mut j: usize = 0;
        while j < wanted.len()
            invariant
                j <= wanted@.len(),
                wanted@.len() == spec_validation_layers().len(),
                forall|k: int|
                    0 <= k < wanted@.len() ==> (#[trigger] wanted@[k])@
                        == spec_validation_layers()[k],
                forall|k: int|
                    0 <= k < j ==> has_layer(
                        available_layers@,
                        #[trigger] spec_validation_layers()[k],
                    ),
            decreases wanted@.len() - j,
        {
            let mut found = false;
            let mut i: usize = 0;
            while i < available_layers.len() && !found
                invariant
                    i <= available_layers@.len(),
                    j < wanted@.len(),
                    found ==> has_layer(available_layers@, wanted@[j as int]@),
                    !found ==> forall|k: int|
                        0 <= k < i ==> (#[trigger] available_layers@[k])@ != wanted@[j as int]@,
                decreases available_layers@.len() - i + if found { 0int } else { 1int },
            {
                if available_layers[i] == wanted[j] {
                    found = true;
                } else {
                    i += 1;
                }
            }
            if !found {
                assert(!has_layer(available_layers@, spec_validation_layers()[j as int]));
                return false;
            }
            j += 1;
        }
        true
    }

    /// The instance to create: for the version of the API above, with the
    /// extensions that the window system needs, and with the validation
    /// layers if `validation` asks for them. Validation layers that the
    /// system does not have are an error.
    pub fn new(required_extensions: Vec<String>, available_layers: &Vec<String>, validation: bool) -> (r:
        Result<VkInstance, VkError>)
        ensures
            match r {
                Ok(instance) => {
                    &&& instance.api_version == API_VERSION_1_3
                    &&& instance.extensions@ == required_extensions@
                    &&& validation ==> spec_validation_layer_support(available_layers@)
                    &&& instance.layers@.len() == if validation {
                        spec_validation_layers().len()
                    } else {
                        0
                    }
                    &&& forall|j: int|
                        0 <= j < instance.layers@.len() ==> (#[trigger] instance.layers@[j])@
                            == spec_validation_layers()[j]
                },
                Err(e) => e == VkError::ValidationLayersUnsupported && validation
                    && !spec_validation_layer_support(available_layers@),
            },
    {
        if validation && !Self::check_validation_layer_support(available_layers) {
            return Err(VkError::ValidationLayersUnsupported);
        }
        let layers = if validation {
            validation_layers()
        } else {
            Vec::new()
        };
        Ok(VkInstance { api_version: API_VERSION_1_3, extensions: required_extensions, layers })
    }
}

} // verus!
