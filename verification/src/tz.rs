//! Time zones and their offsets from UTC.
use crate::clock::{offset_from_text, parsed_offset, UtcOffset};
use crate::coerce::first_of;
use crate::text::same_text;
use vstd::prelude::*;
use vstd::string::*;

verus! {

/// An offset as hours and minutes.
pub const OFFSET_HOURS_MINUTES: &'static str = "[offset_hour]:[offset_minute]";

/// An offset as hours alone.
pub const OFFSET_HOURS: &'static str = "[offset_hour]";

/// A time zone: its name, the other names it goes by, and its offsets from
/// UTC, of which it has at least one.
#[derive(Debug)]
pub struct Zone {
    id: String,
    aliases: Vec<String>,
    offsets: Vec<UtcOffset>,
}

/// The time zones that are known.
#[derive(Debug)]
pub struct ZoneContainer {
    zones: Vec<Zone>,
}

/// The offset that a text spells, as hours and minutes or as hours alone.
pub open spec fn offset_of(text: Seq<char>) -> Option<(int, int, int)> {
    first_of(parsed_offset(text, OFFSET_HOURS_MINUTES@), parsed_offset(text, OFFSET_HOURS@))
}

/// The first of two offsets that was read.
pub fn first_offset(first: Option<UtcOffset>, second: Option<UtcOffset>) -> (r: Option<UtcOffset>)
    ensures
        r == first_of(first, second),
{
    if first.is_some() {
        first
    } else {
        second
    }
}

/// Reads each text as an offset. `None` where one of them spells none.
pub fn offsets_from_texts(texts: &Vec<String>) -> (r: Option<Vec<UtcOffset>>)
    ensures
        match r {
            Some(offsets) => {
                &&& offsets@.len() == texts@.len()
                &&& forall|i: int|
                    0 <= i < texts@.len() ==> offset_of(texts@[i]@) == Some(
                        (#[trigger] offsets@[i])@,
                    )
            },
            None => exists|i: int| 0 <= i < texts@.len() && offset_of(texts@[i]@) is None,
        },
{
    let mut offsets: Vec<UtcOffset> = Vec::new();
    let mut i: usize = 0;
    while i < texts.len()
        invariant
            i <= texts.len(),
            offsets@.len() == i,
            forall|j: int| 0 <= j < i ==> offset_of(texts@[j]@) == Some((#[trigger] offsets@[j])@),
        decreases texts.len() - i,
    {
        let text = texts[i].as_str();
        let long = match offset_from_text(text, OFFSET_HOURS_MINUTES) {
            Ok(o) => Some(o),
            Err(_) => None,
        };
        let short = if long.is_some() {
            None
        } else {
            match offset_from_text(text, OFFSET_HOURS) {
                Ok(o) => Some(o),
                Err(_) => None,
            }
        };
        match first_offset(long, short) {
            Some(offset) => offsets.push(offset),
            None => {
                assert(offset_of(texts@[i as int]@) is None);
                return None;
            },
        }
        i += 1;
    }
    Some(offsets)
}

impl Zone {
    #[verifier::type_invariant]
    spec fn well_formed(self) -> bool {
        self.offsets@.len() > 0
    }

    /// The name of the zone.
    pub closed spec fn spec_id(self) -> Seq<char> {
        self.id@
    }

    /// The other names of the zone.
    pub closed spec fn spec_aliases(self) -> Seq<String> {
        self.aliases@
    }

    /// The offsets of the zone.
    pub closed spec fn spec_offsets(self) -> Seq<UtcOffset> {
        self.offsets@
    }

    /// Whether the zone goes by the name `id`.
    pub open spec fn is_called(self, id: Seq<char>) -> bool {
        self.spec_id() == id || exists|i: int|
            0 <= i < self.spec_aliases().len() && (#[trigger] self.spec_aliases()[i])@ == id
    }

    /// The zone of the given names and offsets; `None` without an offset.
    pub fn new(id: String, aliases: Vec<String>, offsets: Vec<UtcOffset>) -> (r: Option<Zone>)
        ensures
            r is Some <==> offsets@.len() > 0,
            r matches Some(zone) ==> zone.spec_id() == id@ && zone.spec_aliases() == aliases@
                && zone.spec_offsets() == offsets@,
    {
        if offsets.len() == 0 {
            None
        } else {
            Some(Zone { id, aliases, offsets })
        }
    }

    /// Whether the zone goes by the name `id`.
    pub fn goes_by(&self, id: &str) -> (r: bool)
        ensures
            r == self.is_called(id@),
    {
        if same_text(self.id.as_str(), id) {
            return true;
        }
        let mut i: usize = 0;
        while i < self.aliases.len()
            invariant
                i <= self.aliases.len(),
                forall|j: int| 0 <= j < i ==> (#[trigger] self.aliases@[j])@ != id@,
            decreases self.aliases.len() - i,
        {
            if same_text(self.aliases[i].as_str(), id) {
                assert(self.spec_aliases()[i as int]@ == id@);
                return true;
            }
            i += 1;
        }
        false
    }

    /// The first offset of the zone.
    pub fn first_offset(&self) -> (r: UtcOffset)
        ensures
            self.spec_offsets().len() > 0,
            r == self.spec_offsets()[0],
    {
        proof {
            use_type_invariant(self);
        }
        self.offsets[0]
    }
}

impl ZoneContainer {
    /// The zones, in order.
    pub closed spec fn spec_zones(self) -> Seq<Zone> {
        self.zones@
    }

    /// Whether `k` is the place of the first zone that goes by the name `id`.
    pub open spec fn is_first_called(self, id: Seq<char>, k: int) -> bool {
        &&& 0 <= k < self.spec_zones().len()
        &&& self.spec_zones()[k].is_called(id)
        &&& forall|j: int| 0 <= j < k ==> !(#[trigger] self.spec_zones()[j]).is_called(id)
    }

    /// The table of the given zones.
    pub fn new(zones: Vec<Zone>) -> (r: ZoneContainer)
        ensures
            r.spec_zones() == zones@,
    {
        ZoneContainer { zones }
    }

    /// The first offset of the first zone that goes by the name `id`, if
    /// one does.
    pub fn find_offset_by_id(&self, id: &str) -> (r: Option<UtcOffset>)
        ensures
            match r {
                Some(offset) => exists|k: int|
                    self.is_first_called(id@, k) && (#[trigger] self.spec_zones()[k]).spec_offsets().len()
                        > 0 && offset == self.spec_zones()[k].spec_offsets()[0],
                None => forall|j: int|
                    0 <= j < self.spec_zones().len() ==> !(#[trigger] self.spec_zones()[j]).is_called(
                        id@,
                    ),
            },
    {
        let mut i: usize = 0;
        while i < self.zones.len()
            invariant
                i <= self.zones.len(),
                forall|j: int| 0 <= j < i ==> !(#[trigger] self.zones@[j]).is_called(id@),
            decreases self.zones.len() - i,
        {
            if self.zones[i].goes_by(id) {
                let offset = self.zones[i].first_offset();
                assert(self.is_first_called(id@, i as int));
                return Some(offset);
            }
            i += 1;
        }
        None
    }
}

/// The first offset of the first zone of `table` that goes by the name `id`.
pub fn find_offset_by_id(table: &ZoneContainer, id: &str) -> (r: Option<UtcOffset>)
    ensures
        match r {
            Some(offset) => exists|k: int|
                table.is_first_called(id@, k) && (#[trigger] table.spec_zones()[k]).spec_offsets().len()
                    > 0 && offset == table.spec_zones()[k].spec_offsets()[0],
            None => forall|j: int|
                0 <= j < table.spec_zones().len() ==> !(#[trigger] table.spec_zones()[j]).is_called(
                    id@,
                ),
        },
{
    table.find_offset_by_id(id)
}

} // verus!
