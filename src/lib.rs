//! A keyed table of embedded resources with typed loading, a ship catalog
//! rebuilt from it, and the decisions behind saving and loading a game.

mod persistence;
mod resources;
mod shipyard;
mod table;

pub use persistence::{
    assemble_load, file_name, plan_step, LoadedGame, SaveAction, SaveFile, SaveRun, SaveScope,
};
pub use resources::{
    fetch_resource, find_member, try_fetch_resource, AstronomicalNamesResource, DecodeError, Resource, Schematic, SchematicResource,
    ShipCharacteristics, ShipResource,
};
pub use shipyard::{rebuild_shipyard, Shipyard};
pub use table::{
    resource_text, ResourceKey, ASTRONOMICAL_NAMES_TEXT, SCHEMATICS_TEXT, SHIPS_TEXT,
};
