//! The request with which the driver instance is created.

use vstd::prelude::*;
use crate::device::{contains_name, names_of};
use crate::text::push_char;
use crate::version::{minimum_api_version, packed_version, MINIMUM_API_VERSION};

verus! {

/// A text without its NUL characters; everything else stays, in order.
pub open spec fn sanitized(name: Seq<char>) -> Seq<char> {
    name.filter(|c: char| c != '\0')
}

/// Each name of a list without its NUL characters, in the order of the list.
pub open spec fn sanitized_names(names: Seq<Seq<char>>) -> Seq<Seq<char>> {
    Seq::new(names.len(), |i: int| sanitized(names[i]))
}

/// The name under which the engine presents itself to the driver.
pub open spec fn engine_name() -> Seq<char> {
    "Redefyning"@
}

/// Strips every NUL character from a name, so that the name can be handed
/// to the driver as a native string. A name without NUL characters comes
/// back unchanged.
pub fn sanitize_name(name: &str) -> (clean: String)
    ensures
        clean@ == sanitized(name@),
{
    let mut clean = String::new();
    proof {
        reveal(Seq::filter);
    }
    for c in it: name.chars()
        invariant
            it.seq() == name@,
            clean@ == sanitized(name@.take(it.index() as int)),
    {
        proof {
            reveal(Seq::filter);
            assert(name@.take(it.index() + 1).drop_last() =~= name@.take(it.index() as int));
        }
        if c != '\0' {
            push_char(&mut clean, c);
        }
    }
    proof {
        assert(name@.take(name@.len() as int) =~= name@);
    }
    clean
}

/// A sanitized text holds no NUL character.
pub proof fn law_sanitized_has_no_nul(name: Seq<char>)
    ensures
        !sanitized(name).contains('\0'),
{
    let keep = |c: char| c != '\0';
    if name.filter(keep).contains('\0') {
        let i = choose|i: int| 0 <= i < name.filter(keep).len() && name.filter(keep)[i] == '\0';
        name.lemma_filter_pred(keep, i);
    }
}

/// Sanitizing leaves a text without NUL characters as it is.
pub proof fn law_sanitized_keeps_clean_text(name: Seq<char>)
    requires
        !name.contains('\0'),
    ensures
        sanitized(name) == name,
    decreases name.len(),
{
    reveal(Seq::filter);
    if name.len() > 0 {
        law_sanitized_keeps_clean_text(name.drop_last());
    }
}

/// A text that is already sanitized does not change when it is sanitized
/// again.
pub proof fn law_sanitized_is_idempotent(name: Seq<char>)
    ensures
        sanitized(sanitized(name)) == sanitized(name),
{
    law_sanitized_has_no_nul(name);
    law_sanitized_keeps_clean_text(sanitized(name));
}

/// The name of the layer that validates the application's use of the
/// graphics API.
pub open spec fn validation_layer_name() -> Seq<char> {
    "VK_LAYER_KHRONOS_validation"@
}

/// Whether the validation layer is among the layers that were enumerated,
/// and so among those that are asked for. A diagnostic build without it
/// gets no validation messages.
pub fn offers_validation_layer(layers: &Vec<String>) -> (offered: bool)
    ensures
        offered == names_of(layers@).contains(validation_layer_name()),
{
    let wanted = String::from_str("VK_LAYER_KHRONOS_validation");
    contains_name(layers, &wanted)
}

/// What the driver is told of the application.
pub struct ApplicationInfo {
    /// The application's name, without NUL characters.
    pub application_name: String,
    /// The application's version, packed.
    pub application_version: u32,
    /// The engine's name.
    pub engine_name: String,
    /// The engine's version, packed.
    pub engine_version: u32,
    /// The version of the graphics API that the application is written for.
    pub api_version: u32,
}

/// What the instance is created with.
pub struct InstanceRequest {
    pub application: ApplicationInfo,
    /// Whether devices that only partly conform are enumerated as well.
    pub enumerate_portability: bool,
    /// The names of the layers that are switched on.
    pub layers: Vec<String>,
    /// The names of the instance extensions that are switched on.
    pub extensions: Vec<String>,
}

/// Strips the NUL characters from each name of a list.
pub fn sanitize_names(names: &Vec<String>) -> (clean: Vec<String>)
    ensures
        names_of(clean@) == sanitized_names(names_of(names@)),
{
    let mut clean: Vec<String> = Vec::new();
    let mut i: usize = 0;
    while i < names.len()
        invariant
            i <= names@.len(),
            clean@.len() == i,
            forall|j: int| 0 <= j < i ==> (#[trigger] clean@[j])@ == sanitized(names@[j]@),
        decreases names@.len() - i,
    {
        clean.push(sanitize_name(names[i].as_str()));
        i += 1;
    }
    clean
}

/// The request for the driver instance.
///
/// The application's name is sanitized and its version packed from variant,
/// major, minor and patch. The engine has a fixed name and the version
/// zero. The API version is the minimum that device selection demands.
/// Every layer and every extension that was enumerated is asked for, in the
/// order of enumeration; none is filtered out.
pub fn create_instance(
    application_name: &str,
    application_version: (u32, u32, u32, u32),
    layers: &Vec<String>,
    extensions: &Vec<String>,
) -> (request: InstanceRequest)
    ensures
        request.application.application_name@ == sanitized(application_name@),
        request.application.application_version == packed_version(
            application_version.0,
            application_version.1,
            application_version.2,
            application_version.3,
        ),
        request.application.engine_name@ == engine_name(),
        request.application.engine_version == 0,
        request.application.api_version == MINIMUM_API_VERSION,
        request.enumerate_portability,
        names_of(request.layers@) == sanitized_names(names_of(layers@)),
        names_of(request.extensions@) == sanitized_names(names_of(extensions@)),
{
    let (variant, major, minor, patch) = application_version;
    let engine_version = ash::vk::make_api_version(0, 0, 0, 0);
    assert(packed_version(0, 0, 0, 0) == 0u32) by (bit_vector);
    let application = ApplicationInfo {
        application_name: sanitize_name(application_name),
        application_version: ash::vk::make_api_version(variant, major, minor, patch),
        engine_name: String::from_str("Redefyning"),
        engine_version,
        api_version: minimum_api_version(),
    };
    InstanceRequest {
        application,
        enumerate_portability: true,
        layers: sanitize_names(layers),
        extensions: sanitize_names(extensions),
    }
}

} // verus!
