use vstd::prelude::*;

verus! {

/// One port-forward rule. Ports are plain 16-bit integers; the address and
/// description are free text. `enabled` is carried in the data shape but the
/// view does not read it.
#[derive(Clone, Debug, PartialEq, Eq)]
pub struct Thing {
    pub description: String,
    pub source_port: u16,
    pub target_port: u16,
    pub target_ip_address: String,
    pub enabled: bool,
}

/// The one kind of failure the data provider can report: a fault carrying a
/// human-readable message, rendered verbatim by the page.
#[derive(Clone, Debug, PartialEq, Eq)]
pub struct ProviderFault {
    pub message: String,
}

/// The fixed record the provider fabricates on every invocation.
pub open spec fn is_sample_thing(t: Thing) -> bool {
    &&& t.description@ == "please"@
    &&& t.source_port == 25565
    &&& t.target_port == 25565
    &&& t.target_ip_address@ == "192.168.1.123"@
    &&& t.enabled == true
}

/// The data provider's computation: a sequence holding exactly one fabricated
/// rule. It never faults; the fault path exists only structurally, so the
/// result type still carries it. The simulated network delay around this call
/// is not part of the computation and stays outside the library.
pub fn get_things() -> (r: Result<Vec<Thing>, ProviderFault>)
    ensures
        r is Ok,
        r->Ok_0@.len() == 1,
        is_sample_thing(r->Ok_0@[0]),
{
    let mut things: Vec<Thing> = Vec::new();
    things.push(Thing {
        description: String::from_str("please"),
        source_port: 25565,
        target_port: 25565,
        target_ip_address: String::from_str("192.168.1.123"),
        enabled: true,
    });
    Ok(things)
}

} // verus!
