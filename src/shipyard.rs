use crate::resources::{json_members, try_fetch_resource, DecodeError, Resource, ShipCharacteristics, ShipResource};
use crate::table::{payload, ResourceKey};
use vstd::prelude::*;

verus! {

/// The ship catalog: every ship template that can be built, in order.
#[derive(Debug)]
pub struct Shipyard {
    pub ships: Vec<ShipCharacteristics>,
}

impl View for Shipyard {
    type V = Seq<Seq<char>>;

    open spec fn view(&self) -> Seq<Seq<char>> {
        self.ships@.map_values(|s: ShipCharacteristics| s.record@)
    }
}

impl Shipyard {
    /// An empty catalog.
    pub fn new() -> (r: Shipyard)
        ensures
            r@ == Seq::<Seq<char>>::empty(),
    {
        let r = Shipyard { ships: Vec::new() };
        assert(r@ =~= Seq::<Seq<char>>::empty());
        r
    }

    /// Appends every ship of the resource, keeping its order.
    pub fn add_ships(&mut self, res: ShipResource)
        ensures
            final(self)@ == old(self)@ + res@,
    {
        let mut res = res;
        let ghost added = res@;
        let ghost before = self@;
        let mut taken: Vec<ShipCharacteristics> = Vec::new();
        std::mem::swap(&mut taken, &mut res.ships);
        let mut i: usize = 0;
        while i < taken.len()
            invariant
                i <= taken.len(),
                taken@.map_values(|s: ShipCharacteristics| s.record@) == added,
                self.ships.len() == before.len() + i,
                forall|j: int| 0 <= j < before.len() ==> #[trigger] self@[j] == before[j],
                forall|j: int| 0 <= j < i ==> #[trigger] self@[before.len() + j] == added[j],
            decreases taken.len() - i,
        {
            let ghost prev = self@;
            self.ships.push(ShipCharacteristics { record: taken[i].record.clone() });
            assert(self@ =~= prev.push(added[i as int]));
            i = i + 1;
        }
        assert(added.len() == taken.len());
        assert forall|j: int| 0 <= j < self@.len() implies #[trigger] self@[j] == (before + added)[j] by {
            if j >= before.len() {
                assert(self@[before.len() + (j - before.len())] == added[j - before.len()]);
            }
        }
        assert(self@ =~= before + added);
    }
}

/// The catalog as a fresh start or a load builds it: the ships of the
/// embedded ship resource, or why that resource does not decode.
pub fn rebuild_shipyard() -> (r: Result<Shipyard, DecodeError>)
    ensures
        match r {
            Ok(y) => ShipResource::decoded(payload(ResourceKey::Ships)) == Some(y@),
            Err(e) => ShipResource::decoded(payload(ResourceKey::Ships)) is None
                && (e is Syntax <==> json_members(payload(ResourceKey::Ships)) is None),
        },
{
    let res = match try_fetch_resource::<ShipResource>() {
        Ok(res) => res,
        Err(e) => return Err(e),
    };
    let ghost ships = res@;
    let mut yard = Shipyard::new();
    yard.add_ships(res);
    assert(yard@ =~= ships);
    Ok(yard)
}

} // verus!
