use vstd::prelude::*;

verus! {

/// Body of a request that changes the size the device asks the driver to plug.
#[derive(Clone, Copy, Debug, Default, PartialEq, Eq, Structural)]
pub struct MemoryUpdateConfig {
    pub requested_size_kib: u64,
}

/// Actions on the memory device that the API can ask for.
#[derive(Clone, Copy, Debug, PartialEq, Eq, Structural)]
pub enum VmmAction {
    /// Report the configuration of the memory device.
    GetVirtioMemConfig,
    /// Change the requested size of the memory device.
    UpdateMemoryDevice(MemoryUpdateConfig),
}

/// An API request, parsed.
#[derive(Clone, Copy, Debug, PartialEq, Eq, Structural)]
pub enum ParsedRequest {
    /// A request carried out synchronously.
    Sync(VmmAction),
}

/// Errors while parsing an API request.
#[derive(Clone, Debug, PartialEq, Eq)]
pub enum RequestError {
    /// The body is not a valid JSON document of the expected shape.
    SerdeJson(String),
}

impl ParsedRequest {
    /// A request carried out synchronously.
    pub fn new_sync(action: VmmAction) -> (req: ParsedRequest)
        ensures
            req == ParsedRequest::Sync(action),
    {
        ParsedRequest::Sync(action)
    }
}

/// Parses a request for the configuration of the memory device; it always succeeds.
pub fn parse_get_memory() -> (res: Result<ParsedRequest, RequestError>)
    ensures
        res is Ok && res->Ok_0 == ParsedRequest::Sync(VmmAction::GetVirtioMemConfig),
{
    Ok(ParsedRequest::new_sync(VmmAction::GetVirtioMemConfig))
}

/// The request that changes the requested size as `config` says.
pub fn update_memory_request(config: MemoryUpdateConfig) -> (req: ParsedRequest)
    ensures
        req == ParsedRequest::Sync(VmmAction::UpdateMemoryDevice(config)),
{
    ParsedRequest::new_sync(VmmAction::UpdateMemoryDevice(config))
}

} // verus!
