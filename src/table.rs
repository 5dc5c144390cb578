use vstd::prelude::*;

verus! {

/// The key of one embedded resource. Each resource type names exactly one.
#[derive(Clone, Copy, Debug, PartialEq, Eq, Structural)]
pub enum ResourceKey {
    AstronomicalNames,
    Ships,
    Schematics,
}

/// Word lists for naming celestial bodies.
pub const ASTRONOMICAL_NAMES_TEXT: &'static str = "{\"names\":[\"Gemini\",\"Aurora\",\"Vesper\",\"Halcyon\"],\"scientific_names\":[\"HD\",\"GJ\",\"HIP\"],\"greek\":[\"Alpha\",\"Beta\",\"Gamma\",\"Delta\"],\"roman\":[\"I\",\"II\",\"III\",\"IV\",\"V\"],\"decorators\":[\"Major\",\"Minor\",\"Prime\"]}";

/// The characteristics of every ship available in the game.
pub const SHIPS_TEXT: &'static str = "{\"ships\":[{\"name\":\"Sparrow\",\"integrity\":100,\"cargo\":20},{\"name\":\"Mule\",\"integrity\":250,\"cargo\":120},{\"name\":\"Lancer\",\"integrity\":400,\"cargo\":40}]}";

/// Every schematic that turns commodities into other commodities.
pub const SCHEMATICS_TEXT: &'static str = "{\"schematics\":[{\"output\":\"Alloy\",\"inputs\":[\"Ore\",\"Energy\"]},{\"output\":\"Fuel\",\"inputs\":[\"Gas\",\"Energy\"]}]}";

impl ResourceKey {
    pub open spec fn spec_name(self) -> Seq<char> {
        match self {
            ResourceKey::AstronomicalNames => "astronomical_names"@,
            ResourceKey::Ships => "ships"@,
            ResourceKey::Schematics => "schematics"@,
        }
    }

    /// The unique name of the resource, as a file name would give it.
    pub fn name(self) -> (r: &'static str)
        ensures
            r@ == self.spec_name(),
    {
        match self {
            ResourceKey::AstronomicalNames => "astronomical_names",
            ResourceKey::Ships => "ships",
            ResourceKey::Schematics => "schematics",
        }
    }
}

/// The embedded text stored under a key.
pub open spec fn payload(k: ResourceKey) -> Seq<char> {
    match k {
        ResourceKey::AstronomicalNames => ASTRONOMICAL_NAMES_TEXT@,
        ResourceKey::Ships => SHIPS_TEXT@,
        ResourceKey::Schematics => SCHEMATICS_TEXT@,
    }
}

/// Distinct keys have distinct names.
pub proof fn lemma_names_unique(a: ResourceKey, b: ResourceKey)
    ensures
        a.spec_name() == b.spec_name() ==> a == b,
{
    reveal_strlit("astronomical_names");
    reveal_strlit("ships");
    reveal_strlit("schematics");
    if a != b {
        match (a, b) {
            (ResourceKey::AstronomicalNames, _) => assert(a.spec_name().len() != b.spec_name().len()),
            (ResourceKey::Ships, ResourceKey::AstronomicalNames) => assert(a.spec_name().len() != b.spec_name().len()),
            (ResourceKey::Schematics, ResourceKey::AstronomicalNames) => assert(a.spec_name().len() != b.spec_name().len()),
            (ResourceKey::Ships, _) => assert(a.spec_name()[1] != b.spec_name()[1]),
            (ResourceKey::Schematics, _) => assert(a.spec_name()[1] != b.spec_name()[1]),
        }
    }
}

/// The raw text embedded under `k`. Every key has an entry, so the lookup
/// cannot miss.
pub fn resource_text(k: ResourceKey) -> (r: &'static str)
    ensures
        r@ == payload(k),
{
    match k {
        ResourceKey::AstronomicalNames => ASTRONOMICAL_NAMES_TEXT,
        ResourceKey::Ships => SHIPS_TEXT,
        ResourceKey::Schematics => SCHEMATICS_TEXT,
    }
}

} // verus!
