use vstd::prelude::*;

verus! {

/// What embedding the world `world` of the WIT package encoded in
/// `interface` into the core module `core` gives: `None` where a step fails,
/// `Some(None)` where `interface` decodes to something other than a WIT
/// package, and `Some(Some(m))` for the module `m` that carries the world's
/// metadata.
pub uninterp spec fn wit_embed(core: Seq<u8>, interface: Seq<u8>, world: Seq<char>) -> Option<
    Option<Seq<u8>>,
>;

/// The component that `wit_component::ComponentEncoder` encodes from
/// `module` with the adapter `adapter` named `adapter_name`, `None` where it
/// fails.
pub uninterp spec fn component_encode(
    module: Seq<u8>,
    adapter_name: Seq<char>,
    adapter: Seq<u8>,
) -> Option<Seq<u8>>;

/// Calls `wit_component::decode` on `interface`, and when it gives a WIT
/// package, `Resolve::select_world` for `world` in that package and
/// `wit_component::embed_component_metadata` (UTF-8 strings) on `core`.
/// Claims only that the outcome is the one `wit_embed` names; what the
/// embedded metadata is, and when a step fails, is left to `wit-component`.
/// Nothing is claimed of `core` when a step fails. The decoder's source
/// holds `unwrap`s that rest on its own invariants; that no byte input
/// reaches one is not shown, and the contract leaves panics unaddressed.
#[verifier::external_body]
fn embed_world_metadata(core: &mut Vec<u8>, interface: &[u8], world: &str) -> (r: Result<
    bool,
    anyhow::Error,
>)
    ensures
        r is Err <==> wit_embed(old(core)@, interface@, world@) is None,
        r matches Ok(false) ==> wit_embed(old(core)@, interface@, world@) == Some(
            None::<Seq<u8>>,
        ) && final(core)@ == old(core)@,
        r matches Ok(true) ==> wit_embed(old(core)@, interface@, world@) == Some(
            Some(final(core)@),
        ),
{
    let (resolve, package) = match wit_component::decode(interface)? {
        wit_component::DecodedWasm::WitPackage(resolve, package) => (resolve, package),
        wit_component::DecodedWasm::Component(..) => return Ok(false),
    };
    let world_id = resolve.select_world(&[package], Some(world))?;
    wit_component::embed_component_metadata(
        core,
        &resolve,
        world_id,
        wit_component::StringEncoding::UTF8,
    )?;
    Ok(true)
}

/// Calls `wit_component::ComponentEncoder::default()`, then `module`,
/// `adapter` and `encode`. Claims only that the outcome is the one
/// `component_encode` names. The encoder's source holds `unwrap`s and
/// `expect`s that rest on its own invariants; that no byte input reaches one
/// is not shown, and the contract leaves panics unaddressed.
#[verifier::external_body]
fn encode_component(module: &[u8], adapter_name: &str, adapter: &[u8]) -> (r: Result<
    Vec<u8>,
    anyhow::Error,
>)
    ensures
        r is Err <==> component_encode(module@, adapter_name@, adapter@) is None,
        r matches Ok(c) ==> component_encode(module@, adapter_name@, adapter@) == Some(c@),
{
    wit_component::ComponentEncoder::default()
        .module(module)?
        .adapter(adapter_name, adapter)?
        .encode()
}

/// How turning a core module into a component ended.
#[derive(Debug)]
pub enum EmbedError {
    /// The interface is not a WIT package.
    NotAPackage,
    /// `wit-component` refused a step.
    Failed(anyhow::Error),
}

/// The component made from `core`: the world `world` of `interface` is
/// embedded into it, and it is then encoded with the adapter.
pub open spec fn embed_holds(
    core: Seq<u8>,
    interface: Seq<u8>,
    world: Seq<char>,
    adapter_name: Seq<char>,
    adapter: Seq<u8>,
    r: Result<Vec<u8>, EmbedError>,
) -> bool {
    match wit_embed(core, interface, world) {
        None => r matches Err(EmbedError::Failed(_)),
        Some(None) => r matches Err(EmbedError::NotAPackage),
        Some(Some(m)) => match component_encode(m, adapter_name, adapter) {
            None => r matches Err(EmbedError::Failed(_)),
            Some(c) => r matches Ok(b) && b@ == c,
        },
    }
}

/// Turns a core WebAssembly module into a component that implements the
/// world `world` of the WIT package `interface`, adapting it with `adapter`.
pub fn build_component(
    core: Vec<u8>,
    interface: &[u8],
    world: &str,
    adapter_name: &str,
    adapter: &[u8],
) -> (r: Result<Vec<u8>, EmbedError>)
    ensures
        embed_holds(core@, interface@, world@, adapter_name@, adapter@, r),
{
    let mut module = core;
    match embed_world_metadata(&mut module, interface, world) {
        Err(e) => {
            return Err(EmbedError::Failed(e));
        },
        Ok(false) => {
            return Err(EmbedError::NotAPackage);
        },
        Ok(true) => {},
    }
    match encode_component(module.as_slice(), adapter_name, adapter) {
        Ok(c) => Ok(c),
        Err(e) => Err(EmbedError::Failed(e)),
    }
}

} // verus!
